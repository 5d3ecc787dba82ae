//! A tree of texts, lists and records: the shape in which a JSON request
//! body is handed to the transport.

use vstd::prelude::*;

verus! {

/// A document: a text, a list of documents, or a record of named members
/// in the order in which they are written out.
#[derive(Debug, PartialEq, Eq)]
pub enum Document {
    Text(String),
    List(Vec<Document>),
    Record(Vec<Member>),
}

/// One named member of a record.
#[derive(Debug, PartialEq, Eq)]
pub struct Member {
    pub name: String,
    pub value: Document,
}

/// What a document holds.
pub ghost enum DocumentView {
    Text(Seq<char>),
    List(Seq<DocumentView>),
    Record(Seq<(Seq<char>, DocumentView)>),
}

impl Document {
    /// What this document holds.
    pub open spec fn model(self) -> DocumentView
        decreases self,
    {
        match self {
            Document::Text(text) => DocumentView::Text(text@),
            Document::List(items) => DocumentView::List(
                Seq::new(
                    items.len() as nat,
                    |i: int|
                        if 0 <= i < items.len() {
                            items[i].model()
                        } else {
                            DocumentView::Text(Seq::empty())
                        },
                ),
            ),
            Document::Record(members) => DocumentView::Record(
                Seq::new(
                    members.len() as nat,
                    |i: int|
                        if 0 <= i < members.len() {
                            (members[i].name@, members[i].value.model())
                        } else {
                            (Seq::empty(), DocumentView::Text(Seq::empty()))
                        },
                ),
            ),
        }
    }

    /// A text document.
    pub fn text(text: String) -> (document: Document)
        ensures
            document@ == DocumentView::Text(text@),
    {
        Document::Text(text)
    }

    /// A list document that holds the given items in their order.
    pub fn list(items: Vec<Document>) -> (document: Document)
        ensures
            document@ == DocumentView::List(documents_view(items@)),
    {
        let document = Document::List(items);
        proof {
            assert(document.model()->List_0 =~= documents_view(items@));
        }
        document
    }

    /// A record document that holds the given members in their order.
    pub fn record(members: Vec<Member>) -> (document: Document)
        ensures
            document@ == DocumentView::Record(members_view(members@)),
    {
        let document = Document::Record(members);
        proof {
            assert(document.model()->Record_0 =~= members_view(members@));
        }
        document
    }
}

impl View for Document {
    type V = DocumentView;

    open spec fn view(&self) -> DocumentView {
        self.model()
    }
}

impl View for Member {
    type V = (Seq<char>, DocumentView);

    open spec fn view(&self) -> (Seq<char>, DocumentView) {
        (self.name@, self.value@)
    }
}

impl Member {
    /// A member with the given name and value.
    pub fn new(name: String, value: Document) -> (member: Member)
        ensures
            member@ == (name@, value@),
    {
        Member { name, value }
    }
}

/// What each of a sequence of documents holds.
pub open spec fn documents_view(items: Seq<Document>) -> Seq<DocumentView> {
    items.map_values(|item: Document| item@)
}

/// What each of a sequence of members holds.
pub open spec fn members_view(members: Seq<Member>) -> Seq<(Seq<char>, DocumentView)> {
    members.map_values(|member: Member| member@)
}

} // verus!
