//! The outbound request: what one provider operation sends, as plain data.

use vstd::prelude::*;
use crate::document::Document;
use crate::document::DocumentView;

verus! {

/// The HTTP method of an outbound request.
#[derive(Clone, Copy, Debug, PartialEq, Eq, Structural)]
pub enum Method {
    Get,
    Post,
    Delete,
}

/// The provider families that the gateway fronts.
#[derive(Clone, Copy, Debug, PartialEq, Eq, Structural)]
pub enum ProviderFamily {
    Conversation,
    Sms,
    Voice,
    Email,
}

/// The way a request proves who sends it.
#[derive(Clone, Copy, Debug, PartialEq, Eq, Structural)]
pub enum AuthScheme {
    Basic,
    Bearer,
}

/// How the payload of a request is written on the wire.
#[derive(Clone, Copy, Debug, PartialEq, Eq, Structural)]
pub enum Encoding {
    Empty,
    Form,
    Json,
    Multipart,
}

impl ProviderFamily {
    /// The scheme every request to this family authenticates with: a bearer
    /// token for email, identity and secret for the others.
    pub open spec fn scheme_of(self) -> AuthScheme {
        match self {
            ProviderFamily::Email => AuthScheme::Bearer,
            _ => AuthScheme::Basic,
        }
    }

    /// Returns the scheme every request to this family authenticates with.
    pub fn scheme(&self) -> (scheme: AuthScheme)
        ensures
            scheme == self.scheme_of(),
    {
        match self {
            ProviderFamily::Email => AuthScheme::Bearer,
            _ => AuthScheme::Basic,
        }
    }
}

/// The credentials that one request carries.
#[derive(Clone, Debug, PartialEq, Eq)]
pub enum Auth {
    Basic { identity: String, secret: String },
    Bearer { token: String },
}

/// What an [`Auth`] holds.
pub ghost enum AuthView {
    Basic { identity: Seq<char>, secret: Seq<char> },
    Bearer { token: Seq<char> },
}

impl AuthView {
    /// The scheme of these credentials.
    pub open spec fn scheme(self) -> AuthScheme {
        match self {
            AuthView::Basic { .. } => AuthScheme::Basic,
            AuthView::Bearer { .. } => AuthScheme::Bearer,
        }
    }
}

impl View for Auth {
    type V = AuthView;

    open spec fn view(&self) -> AuthView {
        match self {
            Auth::Basic { identity, secret } => AuthView::Basic {
                identity: identity@,
                secret: secret@,
            },
            Auth::Bearer { token } => AuthView::Bearer { token: token@ },
        }
    }
}

impl Auth {
    /// Returns the scheme of these credentials.
    pub fn scheme(&self) -> (scheme: AuthScheme)
        ensures
            scheme == self@.scheme(),
    {
        match self {
            Auth::Basic { .. } => AuthScheme::Basic,
            Auth::Bearer { .. } => AuthScheme::Bearer,
        }
    }
}

/// One field of an operation request. A field without a value is an
/// optional field that the caller left out.
#[derive(Clone, Debug, PartialEq, Eq)]
pub struct Field {
    pub name: String,
    pub value: Option<String>,
}

/// The pair that a field contributes to an outbound encoding: its name and
/// value as they are, or nothing where it has no value.
pub open spec fn field_pair(field: Field) -> Option<(Seq<char>, Seq<char>)> {
    match field.value {
        Some(value) => Some((field.name@, value@)),
        None => None,
    }
}

/// The pairs that a field mapping sends: one for each field that has a
/// value, verbatim and in the order of the mapping.
pub open spec fn present_fields(fields: Seq<Field>) -> Seq<(Seq<char>, Seq<char>)> {
    fields.filter_map(|field: Field| field_pair(field))
}

/// What a sequence of name and value pairs holds.
pub open spec fn pairs_view(pairs: Seq<(String, String)>) -> Seq<(Seq<char>, Seq<char>)> {
    pairs.map_values(|pair: (String, String)| (pair.0@, pair.1@))
}

/// A field with a value.
pub fn field(name: String, value: String) -> (field: Field)
    ensures
        field.name@ == name@,
        field.value matches Some(held) && held@ == value@,
{
    Field { name, value: Some(value) }
}

/// Selects what a field mapping sends: each field that has a value becomes
/// one pair, unchanged and in place; a field without a value is left out.
pub fn outbound_fields(fields: &Vec<Field>) -> (pairs: Vec<(String, String)>)
    ensures
        pairs_view(pairs@) == present_fields(fields@),
{
    let mut pairs: Vec<(String, String)> = Vec::new();
    let mut i: usize = 0;
    while i < fields.len()
        invariant
            i <= fields.len(),
            pairs_view(pairs@) == present_fields(fields@.take(i as int)),
        decreases fields.len() - i,
    {
        let ghost before = pairs@;
        proof {
            assert(fields@.take(i + 1).drop_last() =~= fields@.take(i as int));
            assert(fields@.take(i + 1).last() == fields@[i as int]);
        }
        match &fields[i].value {
            Some(value) => {
                pairs.push((fields[i].name.clone(), value.clone()));
                proof {
                    assert(pairs_view(pairs@) =~= pairs_view(before) + seq![
                        (fields@[i as int].name@, value@),
                    ]);
                }
            },
            None => {},
        }
        i = i + 1;
    }
    proof {
        assert(fields@.take(fields.len() as int) =~= fields@);
    }
    pairs
}

/// A file that a multipart payload streams from local storage.
#[derive(Clone, Debug, PartialEq, Eq)]
pub struct FilePart {
    /// The name of the part in the multipart body.
    pub part_name: String,
    /// The file name shown to the provider.
    pub file_name: String,
    /// Where the bytes are read from.
    pub source_path: String,
}

/// What a [`FilePart`] holds.
pub ghost struct FilePartView {
    pub part_name: Seq<char>,
    pub file_name: Seq<char>,
    pub source_path: Seq<char>,
}

impl View for FilePart {
    type V = FilePartView;

    open spec fn view(&self) -> FilePartView {
        FilePartView {
            part_name: self.part_name@,
            file_name: self.file_name@,
            source_path: self.source_path@,
        }
    }
}

/// What an outbound request carries as its body.
#[derive(Debug, PartialEq, Eq)]
pub enum Payload {
    /// No body.
    Empty,
    /// Name and value pairs, to be form-encoded in their order.
    Form(Vec<(String, String)>),
    /// A document, to be written as JSON.
    Json(Document),
    /// One file, streamed as the single part of a multipart body.
    Multipart(FilePart),
}

/// What a [`Payload`] holds.
pub ghost enum PayloadView {
    Empty,
    Form(Seq<(Seq<char>, Seq<char>)>),
    Json(DocumentView),
    Multipart(FilePartView),
}

impl PayloadView {
    /// How this payload is written on the wire.
    pub open spec fn encoding(self) -> Encoding {
        match self {
            PayloadView::Empty => Encoding::Empty,
            PayloadView::Form(_) => Encoding::Form,
            PayloadView::Json(_) => Encoding::Json,
            PayloadView::Multipart(_) => Encoding::Multipart,
        }
    }
}

impl View for Payload {
    type V = PayloadView;

    open spec fn view(&self) -> PayloadView {
        match self {
            Payload::Empty => PayloadView::Empty,
            Payload::Form(pairs) => PayloadView::Form(pairs_view(pairs@)),
            Payload::Json(document) => PayloadView::Json(document@),
            Payload::Multipart(part) => PayloadView::Multipart(part@),
        }
    }
}

impl Payload {
    /// Returns how this payload is written on the wire.
    pub fn encoding(&self) -> (encoding: Encoding)
        ensures
            encoding == self@.encoding(),
    {
        match self {
            Payload::Empty => Encoding::Empty,
            Payload::Form(_) => Encoding::Form,
            Payload::Json(_) => Encoding::Json,
            Payload::Multipart(_) => Encoding::Multipart,
        }
    }
}

/// The one outbound call that carries out a provider operation.
#[derive(Debug, PartialEq, Eq)]
pub struct OutboundRequest {
    pub family: ProviderFamily,
    pub method: Method,
    pub url: String,
    pub auth: Auth,
    pub payload: Payload,
}

/// What an [`OutboundRequest`] holds.
pub ghost struct RequestView {
    pub family: ProviderFamily,
    pub method: Method,
    pub url: Seq<char>,
    pub auth: AuthView,
    pub payload: PayloadView,
}

impl RequestView {
    /// Whether the request authenticates the way its provider family asks.
    pub open spec fn authenticated(self) -> bool {
        self.auth.scheme() == self.family.scheme_of()
    }
}

impl View for OutboundRequest {
    type V = RequestView;

    open spec fn view(&self) -> RequestView {
        RequestView {
            family: self.family,
            method: self.method,
            url: self.url@,
            auth: self.auth@,
            payload: self.payload@,
        }
    }
}

/// A field mapping sends what its fields send one by one: a field without
/// a value adds nothing, a field with a value adds its own pair at the end,
/// and an empty mapping sends nothing.
pub proof fn law_fields_sent_one_by_one(fields: Seq<Field>, next: Field)
    ensures
        present_fields(Seq::<Field>::empty()) == Seq::<(Seq<char>, Seq<char>)>::empty(),
        next.value is None ==> present_fields(fields.push(next)) == present_fields(fields),
        next.value matches Some(value) ==> present_fields(fields.push(next)) == present_fields(
            fields,
        ).push((next.name@, value@)),
        present_fields(fields).len() <= fields.len(),
{
    assert(fields.push(next).drop_last() =~= fields);
    assert(fields.push(next).last() == next);
    match next.value {
        Some(value) => {
            assert(present_fields(fields) + seq![(next.name@, value@)] =~= present_fields(
                fields,
            ).push((next.name@, value@)));
        },
        None => {},
    }
    lemma_present_fields_len(fields);
}

proof fn lemma_present_fields_len(fields: Seq<Field>)
    ensures
        present_fields(fields).len() <= fields.len(),
    decreases fields.len(),
{
    if fields.len() > 0 {
        lemma_present_fields_len(fields.drop_last());
    }
}

} // verus!
