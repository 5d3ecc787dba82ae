//! The client of the email provider, and the mail model it sends.
//!
//! A mail is checked before anything is planned, and then written as a
//! document whose records hold exactly the fields that have a value, under
//! the names the provider knows them by.

use vstd::prelude::*;
use crate::document::members_view;
use crate::document::Document;
use crate::document::DocumentView;
use crate::document::Member;
use crate::error::GatewayError;
use crate::error::MailDefect;
use crate::request::Auth;
use crate::request::AuthView;
use crate::request::Method;
use crate::request::OutboundRequest;
use crate::request::Payload;
use crate::request::PayloadView;
use crate::request::ProviderFamily;
use crate::request::RequestView;

verus! {

/// Where the email provider lives.
pub const EMAIL_BASE_URL: &'static str = "https://api.sendgrid.com/v3/mail";

/// The address at which mails are sent.
pub open spec fn send_url() -> Seq<char> {
    EMAIL_BASE_URL@ + "/send"@
}

/// The members that an optional field contributes to a record: one where it
/// has a value, none where it has not.
pub open spec fn optional_member(name: Seq<char>, value: Option<DocumentView>) -> Seq<
    (Seq<char>, DocumentView),
> {
    match value {
        Some(held) => seq![(name, held)],
        None => Seq::empty(),
    }
}

/// The document of an optional text.
pub open spec fn optional_text(text: Option<String>) -> Option<DocumentView> {
    match text {
        Some(held) => Some(DocumentView::Text(held@)),
        None => None,
    }
}

/// A part of the mail model that is written as a document.
pub trait Encode {
    /// The document that stands for this value.
    spec fn document(&self) -> DocumentView;

    /// Writes this value as a document.
    fn to_document(&self) -> (document: Document)
        ensures
            document@ == self.document(),
    ;
}

/// The documents of a sequence of values, in their order.
pub open spec fn documents_of<T: Encode>(items: Seq<T>) -> Seq<DocumentView> {
    items.map_values(|item: T| item.document())
}

/// Writes a list of values as a list document, item by item in their order.
pub fn encode_all<T: Encode>(items: &Vec<T>) -> (document: Document)
    ensures
        document@ == DocumentView::List(documents_of(items@)),
{
    let mut encoded: Vec<Document> = Vec::new();
    let mut i: usize = 0;
    while i < items.len()
        invariant
            i <= items.len(),
            encoded@.len() == i,
            forall|k: int| 0 <= k < i ==> (#[trigger] encoded@[k])@ == items@[k].document(),
        decreases items.len() - i,
    {
        encoded.push(items[i].to_document());
        i = i + 1;
    }
    let document = Document::list(encoded);
    proof {
        assert(crate::document::documents_view(encoded@) =~= documents_of(items@));
    }
    document
}

fn push_member(members: &mut Vec<Member>, name: &str, value: Document)
    ensures
        members_view(final(members)@) == members_view(old(members)@) + seq![(name@, value@)],
{
    members.push(Member::new(name.to_owned(), value));
    proof {
        assert(members_view(final(members)@) =~= members_view(old(members)@) + seq![
            (name@, value@),
        ]);
    }
}

fn push_text(members: &mut Vec<Member>, name: &str, text: &String)
    ensures
        members_view(final(members)@) == members_view(old(members)@) + seq![
            (name@, DocumentView::Text(text@)),
        ],
{
    push_member(members, name, Document::text(text.clone()));
}

fn push_optional_text(members: &mut Vec<Member>, name: &str, text: &Option<String>)
    ensures
        members_view(final(members)@) == members_view(old(members)@) + optional_member(
            name@,
            optional_text(*text),
        ),
{
    match text {
        Some(held) => {
            push_text(members, name, held);
        },
        None => {
            proof {
                assert(members_view(members@) =~= members_view(members@) + Seq::empty());
            }
        },
    }
}

/// An address, with the name to show beside it.
#[derive(Clone, Debug, PartialEq, Eq)]
pub struct Endpoint {
    pub email: String,
    pub name: Option<String>,
}

impl Encode for Endpoint {
    open spec fn document(&self) -> DocumentView {
        DocumentView::Record(
            seq![("email"@, DocumentView::Text(self.email@))] + optional_member(
                "name"@,
                optional_text(self.name),
            ),
        )
    }

    fn to_document(&self) -> (document: Document) {
        let mut members: Vec<Member> = Vec::new();
        push_text(&mut members, "email", &self.email);
        push_optional_text(&mut members, "name", &self.name);
        let document = Document::record(members);
        proof {
            assert(members_view(members@) =~= self.document()->Record_0);
        }
        document
    }
}

/// One group of recipients of a mail.
#[derive(Clone, Debug, PartialEq, Eq)]
pub struct Personalization {
    pub to: Vec<Endpoint>,
    pub cc: Option<String>,
    pub bcc: Option<String>,
}

impl Default for Personalization {
    /// A group without recipients.
    fn default() -> (group: Personalization)
        ensures
            group.to@.len() == 0,
            group.cc is None,
            group.bcc is None,
    {
        Personalization { to: Vec::new(), cc: None, bcc: None }
    }
}

impl Encode for Personalization {
    open spec fn document(&self) -> DocumentView {
        DocumentView::Record(
            seq![("to"@, DocumentView::List(documents_of(self.to@)))] + optional_member(
                "cc"@,
                optional_text(self.cc),
            ) + optional_member("bcc"@, optional_text(self.bcc)),
        )
    }

    fn to_document(&self) -> (document: Document) {
        let mut members: Vec<Member> = Vec::new();
        push_member(&mut members, "to", encode_all(&self.to));
        push_optional_text(&mut members, "cc", &self.cc);
        push_optional_text(&mut members, "bcc", &self.bcc);
        let document = Document::record(members);
        proof {
            assert(members_view(members@) =~= self.document()->Record_0);
        }
        document
    }
}

/// One part of the content of a mail, with its media type.
#[derive(Clone, Debug, PartialEq, Eq)]
pub struct Content {
    pub type_: Option<String>,
    pub value: String,
}

impl Encode for Content {
    open spec fn document(&self) -> DocumentView {
        DocumentView::Record(
            optional_member("type"@, optional_text(self.type_)) + seq![
                ("value"@, DocumentView::Text(self.value@)),
            ],
        )
    }

    fn to_document(&self) -> (document: Document) {
        let mut members: Vec<Member> = Vec::new();
        push_optional_text(&mut members, "type", &self.type_);
        push_text(&mut members, "value", &self.value);
        let document = Document::record(members);
        proof {
            assert(members_view(members@) =~= self.document()->Record_0);
        }
        document
    }
}

/// How an attachment is shown to the reader of a mail.
#[derive(Clone, Copy, Debug, PartialEq, Eq, Structural)]
pub enum Disposition {
    Attachment,
    Inline,
}

impl Disposition {
    /// The word the provider knows this disposition by.
    pub open spec fn word(self) -> Seq<char> {
        match self {
            Disposition::Attachment => "attachment"@,
            Disposition::Inline => "inline"@,
        }
    }
}

impl Encode for Disposition {
    open spec fn document(&self) -> DocumentView {
        DocumentView::Text(self.word())
    }

    fn to_document(&self) -> (document: Document) {
        match self {
            Disposition::Attachment => Document::text("attachment".to_owned()),
            Disposition::Inline => Document::text("inline".to_owned()),
        }
    }
}

/// A file sent along with a mail.
#[derive(Clone, Debug, PartialEq, Eq)]
pub struct Attachment {
    content: String,
    filename: String,
    disposition: Option<Disposition>,
}

/// What an [`Attachment`] holds.
pub ghost struct AttachmentView {
    pub content: Seq<char>,
    pub filename: Seq<char>,
    pub disposition: Option<Disposition>,
}

impl View for Attachment {
    type V = AttachmentView;

    closed spec fn view(&self) -> AttachmentView {
        AttachmentView {
            content: self.content@,
            filename: self.filename@,
            disposition: self.disposition,
        }
    }
}

impl Attachment {
    /// An attachment with the given encoded content and file name.
    pub fn new(content: String, filename: String, disposition: Option<Disposition>) -> (attachment:
        Attachment)
        ensures
            attachment@ == (AttachmentView {
                content: content@,
                filename: filename@,
                disposition,
            }),
    {
        Attachment { content, filename, disposition }
    }

    /// Returns the encoded content.
    pub fn content(&self) -> (content: &String)
        ensures
            content@ == self@.content,
    {
        &self.content
    }

    /// Returns the file name.
    pub fn filename(&self) -> (filename: &String)
        ensures
            filename@ == self@.filename,
    {
        &self.filename
    }

    /// Returns how the attachment is shown, if that was said.
    pub fn disposition(&self) -> (disposition: Option<Disposition>)
        ensures
            disposition == self@.disposition,
    {
        self.disposition
    }
}

impl Encode for Attachment {
    open spec fn document(&self) -> DocumentView {
        DocumentView::Record(
            seq![
                ("content"@, DocumentView::Text(self@.content)),
                ("filename"@, DocumentView::Text(self@.filename)),
            ] + optional_member(
                "disposition"@,
                match self@.disposition {
                    Some(disposition) => Some(disposition.document()),
                    None => None,
                },
            ),
        )
    }

    fn to_document(&self) -> (document: Document) {
        let mut members: Vec<Member> = Vec::new();
        push_text(&mut members, "content", &self.content);
        push_text(&mut members, "filename", &self.filename);
        match self.disposition {
            Some(disposition) => {
                push_member(&mut members, "disposition", disposition.to_document());
            },
            None => {},
        }
        let document = Document::record(members);
        proof {
            assert(members_view(members@) =~= self.document()->Record_0);
        }
        document
    }
}

/// A mail to send.
#[derive(Clone, Debug, PartialEq, Eq)]
pub struct MailData {
    pub personalizations: Vec<Personalization>,
    pub from: Endpoint,
    pub subject: String,
    pub content: Vec<Content>,
    pub reply_to: Option<Endpoint>,
    pub attachments: Option<Vec<Attachment>>,
}

impl MailData {
    /// Whether some group of the mail names a recipient.
    pub open spec fn has_recipient(&self) -> bool {
        exists|i: int|
            0 <= i < self.personalizations@.len() && (
            #[trigger] self.personalizations@[i]).to@.len() > 0
    }

    /// The first rule that the mail breaks, in this order: the subject is
    /// not empty, the sender address is not empty, there is a recipient.
    pub open spec fn defect(&self) -> Option<MailDefect> {
        if self.subject@.len() == 0 {
            Some(MailDefect::EmptySubject)
        } else if self.from.email@.len() == 0 {
            Some(MailDefect::EmptySender)
        } else if !self.has_recipient() {
            Some(MailDefect::NoRecipient)
        } else {
            None
        }
    }

    /// Whether the mail keeps every rule of the mail model.
    pub open spec fn well_formed(&self) -> bool {
        self.defect() is None
    }

    /// Tests whether some group of the mail names a recipient.
    pub fn names_recipient(&self) -> (found: bool)
        ensures
            found == self.has_recipient(),
    {
        let mut i: usize = 0;
        while i < self.personalizations.len()
            invariant
                i <= self.personalizations.len(),
                forall|k: int| 0 <= k < i ==> (#[trigger] self.personalizations@[k]).to@.len() == 0,
            decreases self.personalizations.len() - i,
        {
            if self.personalizations[i].to.len() > 0 {
                return true;
            }
            i = i + 1;
        }
        false
    }

    /// Checks the mail against the rules of the mail model, and names the
    /// first rule it breaks.
    pub fn validate(&self) -> (checked: Result<(), MailDefect>)
        ensures
            checked == (match self.defect() {
                Some(defect) => Err::<(), MailDefect>(defect),
                None => Ok::<(), MailDefect>(()),
            }),
    {
        if self.subject.as_str().is_empty() {
            Err(MailDefect::EmptySubject)
        } else if self.from.email.as_str().is_empty() {
            Err(MailDefect::EmptySender)
        } else if !self.names_recipient() {
            Err(MailDefect::NoRecipient)
        } else {
            Ok(())
        }
    }
}

impl Encode for MailData {
    open spec fn document(&self) -> DocumentView {
        DocumentView::Record(
            seq![
                ("personalizations"@, DocumentView::List(documents_of(self.personalizations@))),
                ("from"@, self.from.document()),
                ("subject"@, DocumentView::Text(self.subject@)),
                ("content"@, DocumentView::List(documents_of(self.content@))),
            ] + optional_member(
                "reply_to"@,
                match self.reply_to {
                    Some(endpoint) => Some(endpoint.document()),
                    None => None,
                },
            ) + optional_member(
                "attachments"@,
                match self.attachments {
                    Some(attachments) => Some(DocumentView::List(documents_of(attachments@))),
                    None => None,
                },
            ),
        )
    }

    fn to_document(&self) -> (document: Document) {
        let mut members: Vec<Member> = Vec::new();
        push_member(&mut members, "personalizations", encode_all(&self.personalizations));
        push_member(&mut members, "from", self.from.to_document());
        push_text(&mut members, "subject", &self.subject);
        push_member(&mut members, "content", encode_all(&self.content));
        match &self.reply_to {
            Some(endpoint) => {
                push_member(&mut members, "reply_to", endpoint.to_document());
            },
            None => {},
        }
        match &self.attachments {
            Some(attachments) => {
                push_member(&mut members, "attachments", encode_all(attachments));
            },
            None => {},
        }
        let document = Document::record(members);
        proof {
            assert(members_view(members@) =~= self.document()->Record_0);
        }
        document
    }
}

/// The client of the email provider. It holds the provider's token and
/// nothing else.
#[derive(Debug)]
pub struct Email {
    api_key: String,
}

impl Email {
    /// The token that every request of this client authenticates with.
    pub closed spec fn token(&self) -> Seq<char> {
        self.api_key@
    }

    /// The credentials that every request of this client carries.
    pub open spec fn credentials(&self) -> AuthView {
        AuthView::Bearer { token: self.token() }
    }

    /// A client that authenticates with the given token.
    pub fn new(api_key: String) -> (client: Email)
        ensures
            client.token() == api_key@,
    {
        Email { api_key }
    }

    /// Plans the sending of a mail: one POST to the send address, with the
    /// mail written as a JSON document.
    ///
    /// A mail that breaks a rule of the mail model is refused with the first
    /// rule it breaks, and no request is planned.
    pub fn send_mail(&self, body: MailData) -> (planned: Result<OutboundRequest, GatewayError>)
        ensures
            match body.defect() {
                Some(defect) => planned == Err::<OutboundRequest, GatewayError>(
                    GatewayError::InvalidMail(defect),
                ),
                None => planned matches Ok(request) && request@ == (RequestView {
                    family: ProviderFamily::Email,
                    method: Method::Post,
                    url: send_url(),
                    auth: self.credentials(),
                    payload: PayloadView::Json(body.document()),
                }),
            },
    {
        match body.validate() {
            Err(defect) => Err(GatewayError::InvalidMail(defect)),
            Ok(()) => {
                let mut url = EMAIL_BASE_URL.to_owned();
                url.append("/send");
                Ok(
                    OutboundRequest {
                        family: ProviderFamily::Email,
                        method: Method::Post,
                        url,
                        auth: Auth::Bearer { token: self.api_key.clone() },
                        payload: Payload::Json(body.to_document()),
                    },
                )
            },
        }
    }
}

/// A mail is well formed exactly when its subject is not empty, its sender
/// address is not empty, and some group names a recipient; and it is sent
/// exactly when it is well formed.
pub proof fn law_mail_rules(mail: MailData)
    ensures
        mail.well_formed() <==> (mail.subject@.len() > 0 && mail.from.email@.len() > 0
            && mail.has_recipient()),
        !mail.has_recipient() ==> mail.defect() is Some,
        mail.personalizations@.len() == 0 ==> !mail.has_recipient(),
{
}

} // verus!
