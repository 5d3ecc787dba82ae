//! The dispatcher: the credentials, the four provider clients built from
//! them, and the mapping of each gateway operation to the one provider call
//! that carries it out.

use vstd::prelude::*;
use crate::conversation::conversation_url;
use crate::conversation::conversations_url;
use crate::conversation::media_collection_url;
use crate::conversation::media_url;
use crate::conversation::message_url;
use crate::conversation::messages_url;
use crate::conversation::Conversation;
use crate::conversation::UPLOAD_PART_NAME;
use crate::email::send_url;
use crate::email::Email;
use crate::email::Encode;
use crate::email::MailData;
use crate::error::ErrorKind;
use crate::error::GatewayError;
use crate::request::present_fields;
use crate::request::AuthView;
use crate::request::Encoding;
use crate::request::Field;
use crate::request::FilePartView;
use crate::request::Method;
use crate::request::OutboundRequest;
use crate::request::PayloadView;
use crate::request::ProviderFamily;
use crate::request::RequestView;
use crate::response::responded;
use crate::response::EnvelopeView;
use crate::response::ResponseMode;
use crate::response::TransportOutcome;
use crate::sms::sms_messages_url;
use crate::sms::Sms;
use crate::transfer::MediaHandle;
use crate::transfer::Transfer;
use crate::transfer::TransferView;
use crate::voice::calls_url;
use crate::voice::Voice;
use crate::voice::VoiceData;

verus! {

/// The name of the environment variable that holds the account identity.
pub const TWILIO_ACCOUNT_SID: &'static str = "TWILIO_ACCOUNT_SID";

/// The name of the environment variable that holds the account secret.
pub const TWILIO_AUTH_TOKEN: &'static str = "TWILIO_AUTH_TOKEN";

/// The name of the environment variable that holds the mail token.
pub const SENDGRID_API_KEY: &'static str = "SENDGRID_API_KEY";

/// The name of the query parameter that holds the path of a file to upload.
pub const FILE_PATH_PARAMETER: &'static str = "file_path";

/// The name of the query parameter that holds the file name of an upload.
pub const FILE_NAME_PARAMETER: &'static str = "file_name";

/// The credentials of the gateway: one identity and secret for the
/// conversation, SMS and voice providers, and one token for the email
/// provider.
#[derive(Debug)]
pub struct Credentials {
    account_identity: String,
    account_secret: String,
    mail_token: String,
}

impl Credentials {
    /// The identity of the account.
    pub closed spec fn identity(&self) -> Seq<char> {
        self.account_identity@
    }

    /// The secret of the account.
    pub closed spec fn secret(&self) -> Seq<char> {
        self.account_secret@
    }

    /// The token for the email provider.
    pub closed spec fn token(&self) -> Seq<char> {
        self.mail_token@
    }

    /// Gathers the credentials from what the environment holds. All three
    /// are needed: where one is absent, the result is `MissingCredentials`.
    pub fn load(
        account_identity: Option<String>,
        account_secret: Option<String>,
        mail_token: Option<String>,
    ) -> (loaded: Result<Credentials, GatewayError>)
        ensures
            match (account_identity, account_secret, mail_token) {
                (Some(identity), Some(secret), Some(token)) => {
                    &&& loaded matches Ok(credentials)
                    &&& credentials.identity() == identity@
                    &&& credentials.secret() == secret@
                    &&& credentials.token() == token@
                },
                _ => loaded == Err::<Credentials, GatewayError>(GatewayError::MissingCredentials),
            },
    {
        match (account_identity, account_secret, mail_token) {
            (Some(identity), Some(secret), Some(token)) => Ok(
                Credentials {
                    account_identity: identity,
                    account_secret: secret,
                    mail_token: token,
                },
            ),
            _ => Err(GatewayError::MissingCredentials),
        }
    }
}

/// One operation of the gateway, with its parameters.
#[derive(Debug, PartialEq, Eq)]
pub enum Operation {
    CreateConversation { fields: Vec<Field> },
    DeleteConversation { conversation_sid: String },
    CreateMessage { conversation_sid: String, fields: Vec<Field> },
    ListMessages { conversation_sid: String },
    DeleteMessage { conversation_sid: String, message_sid: String },
    /// The path and the file name are query parameters, and either may be
    /// missing.
    UploadMedia { service_sid: String, file_path: Option<String>, file_name: Option<String> },
    RetrieveMedia { service_sid: String, media_sid: String },
    SendSms { fields: Vec<Field> },
    PlaceCall { call: VoiceData },
    SendEmail { mail: MailData },
}

/// The text of a query parameter, and the empty text where it is missing.
pub open spec fn text_or_empty(parameter: Option<String>) -> Seq<char> {
    match parameter {
        Some(text) => text@,
        None => Seq::empty(),
    }
}

/// Returns the text of a query parameter, and the empty text where it is
/// missing.
pub fn parameter_or_empty(parameter: Option<String>) -> (text: String)
    ensures
        text@ == text_or_empty(parameter),
{
    match parameter {
        Some(text) => text,
        None => String::new(),
    }
}

impl Operation {
    /// The provider family that carries the operation out.
    pub open spec fn family_of(self) -> ProviderFamily {
        match self {
            Operation::SendSms { .. } => ProviderFamily::Sms,
            Operation::PlaceCall { .. } => ProviderFamily::Voice,
            Operation::SendEmail { .. } => ProviderFamily::Email,
            _ => ProviderFamily::Conversation,
        }
    }

    /// What is done with the provider's reply: the two deletions return no
    /// body, every other operation returns the parsed reply.
    pub open spec fn mode_of(self) -> ResponseMode {
        match self {
            Operation::DeleteConversation { .. } => ResponseMode::Discarded,
            Operation::DeleteMessage { .. } => ResponseMode::Discarded,
            _ => ResponseMode::Parsed,
        }
    }

    /// Why the operation is refused before anything is sent, if it is: a
    /// mail that breaks a rule of the mail model, or an upload whose path is
    /// missing or empty.
    pub open spec fn refusal(self) -> Option<GatewayError> {
        match self {
            Operation::SendEmail { mail } => match mail.defect() {
                Some(defect) => Some(GatewayError::InvalidMail(defect)),
                None => None,
            },
            Operation::UploadMedia { file_path, .. } => if text_or_empty(file_path).len() == 0 {
                Some(GatewayError::MediaSourceUnavailable)
            } else {
                None
            },
            _ => None,
        }
    }

    /// Returns the provider family that carries the operation out.
    pub fn family(&self) -> (family: ProviderFamily)
        ensures
            family == self.family_of(),
    {
        match self {
            Operation::SendSms { .. } => ProviderFamily::Sms,
            Operation::PlaceCall { .. } => ProviderFamily::Voice,
            Operation::SendEmail { .. } => ProviderFamily::Email,
            _ => ProviderFamily::Conversation,
        }
    }

    /// Returns what is done with the provider's reply.
    pub fn response_mode(&self) -> (mode: ResponseMode)
        ensures
            mode == self.mode_of(),
    {
        match self {
            Operation::DeleteConversation { .. } => ResponseMode::Discarded,
            Operation::DeleteMessage { .. } => ResponseMode::Discarded,
            _ => ResponseMode::Parsed,
        }
    }
}

/// What the gateway does for one operation: the one outbound request, what
/// to do with the reply, and for an upload the file to stream with the
/// transfer in its first state.
#[derive(Debug, PartialEq, Eq)]
pub struct Plan {
    pub request: OutboundRequest,
    pub mode: ResponseMode,
    pub upload: Option<(MediaHandle, Transfer)>,
}

/// The four provider clients, built once and shared by every request.
#[derive(Debug)]
pub struct Gateway {
    pub conversation: Conversation,
    pub sms: Sms,
    pub mail: Email,
    pub voice: Voice,
}

impl Gateway {
    /// The credentials that this gateway's requests to a family carry.
    pub open spec fn credentials_of(&self, family: ProviderFamily) -> AuthView {
        match family {
            ProviderFamily::Conversation => self.conversation.credentials(),
            ProviderFamily::Sms => self.sms.credentials(),
            ProviderFamily::Voice => self.voice.credentials(),
            ProviderFamily::Email => self.mail.credentials(),
        }
    }

    /// Where the one request of an operation goes.
    pub open spec fn target_of(&self, operation: Operation) -> (Method, Seq<char>) {
        match operation {
            Operation::CreateConversation { .. } => (Method::Post, conversations_url()),
            Operation::DeleteConversation { conversation_sid } => (
                Method::Delete,
                conversation_url(conversation_sid@),
            ),
            Operation::CreateMessage { conversation_sid, .. } => (
                Method::Post,
                messages_url(conversation_sid@),
            ),
            Operation::ListMessages { conversation_sid } => (
                Method::Get,
                messages_url(conversation_sid@),
            ),
            Operation::DeleteMessage { conversation_sid, message_sid } => (
                Method::Delete,
                message_url(conversation_sid@, message_sid@),
            ),
            Operation::UploadMedia { service_sid, .. } => (
                Method::Post,
                media_collection_url(service_sid@),
            ),
            Operation::RetrieveMedia { service_sid, media_sid } => (
                Method::Get,
                media_url(service_sid@, media_sid@),
            ),
            Operation::SendSms { .. } => (Method::Post, sms_messages_url(self.sms.identity())),
            Operation::PlaceCall { .. } => (Method::Post, calls_url(self.voice.identity())),
            Operation::SendEmail { .. } => (Method::Post, send_url()),
        }
    }

    /// What the one request of an operation carries.
    pub open spec fn payload_of(operation: Operation) -> PayloadView {
        match operation {
            Operation::CreateConversation { fields } => PayloadView::Form(present_fields(fields@)),
            Operation::CreateMessage { fields, .. } => PayloadView::Form(present_fields(fields@)),
            Operation::SendSms { fields } => PayloadView::Form(present_fields(fields@)),
            Operation::PlaceCall { call } => PayloadView::Form(call@.fields()),
            Operation::SendEmail { mail } => PayloadView::Json(mail.document()),
            Operation::UploadMedia { file_path, file_name, .. } => PayloadView::Multipart(
                FilePartView {
                    part_name: UPLOAD_PART_NAME@,
                    file_name: text_or_empty(file_name),
                    source_path: text_or_empty(file_path),
                },
            ),
            _ => PayloadView::Empty,
        }
    }

    /// The one request that carries an operation out.
    pub open spec fn request_of(&self, operation: Operation) -> RequestView {
        RequestView {
            family: operation.family_of(),
            method: self.target_of(operation).0,
            url: self.target_of(operation).1,
            auth: self.credentials_of(operation.family_of()),
            payload: Self::payload_of(operation),
        }
    }

    /// Builds the four clients from the credentials: the conversation, SMS
    /// and voice clients share the account's identity and secret, the email
    /// client has the mail token.
    pub fn new(credentials: &Credentials) -> (gateway: Gateway)
        ensures
            gateway.conversation.identity() == credentials.identity(),
            gateway.conversation.secret() == credentials.secret(),
            gateway.sms.identity() == credentials.identity(),
            gateway.sms.secret() == credentials.secret(),
            gateway.voice.identity() == credentials.identity(),
            gateway.voice.secret() == credentials.secret(),
            gateway.mail.token() == credentials.token(),
    {
        Gateway {
            conversation: Conversation::new(
                credentials.account_identity.clone(),
                credentials.account_secret.clone(),
            ),
            sms: Sms::new(credentials.account_identity.clone(), credentials.account_secret.clone()),
            mail: Email::new(credentials.mail_token.clone()),
            voice: Voice::new(
                credentials.account_identity.clone(),
                credentials.account_secret.clone(),
            ),
        }
    }

    /// Maps an operation to the one provider call that carries it out.
    ///
    /// An operation that is refused plans nothing. Every other operation
    /// plans exactly one request, to the family the operation belongs to and
    /// with that family's credentials; an upload also names the file to
    /// stream and starts its transfer.
    pub fn plan(&self, operation: Operation) -> (planned: Result<Plan, GatewayError>)
        ensures
            match operation.refusal() {
                Some(error) => planned == Err::<Plan, GatewayError>(error),
                None => {
                    &&& planned matches Ok(plan)
                    &&& plan.request@ == self.request_of(operation)
                    &&& plan.mode == operation.mode_of()
                    &&& plan.upload is Some <==> operation is UploadMedia
                    &&& plan.upload matches Some(upload) ==> {
                        &&& operation matches Operation::UploadMedia { file_path, file_name, .. }
                        &&& upload.0.path_view() == text_or_empty(file_path)
                        &&& upload.0.file_name_view() == text_or_empty(file_name)
                        &&& upload.1@ == TransferView::initial()
                    }
                },
            },
    {
        let mode = operation.response_mode();
        match operation {
            Operation::UploadMedia { service_sid, file_path, file_name } => {
                let path = parameter_or_empty(file_path);
                let name = parameter_or_empty(file_name);
                match self.conversation.upload_media(service_sid, path, name) {
                    Ok(upload) => Ok(
                        Plan {
                            request: upload.request,
                            mode,
                            upload: Some((upload.handle, upload.transfer)),
                        },
                    ),
                    Err(error) => Err(error),
                }
            },
            Operation::SendEmail { mail } => {
                match self.mail.send_mail(mail) {
                    Ok(request) => Ok(Plan { request, mode, upload: None }),
                    Err(error) => Err(error),
                }
            },
            Operation::CreateConversation { fields } => Ok(
                Plan { request: self.conversation.create_conversation(&fields), mode, upload: None },
            ),
            Operation::DeleteConversation { conversation_sid } => Ok(
                Plan {
                    request: self.conversation.delete_conversation(conversation_sid),
                    mode,
                    upload: None,
                },
            ),
            Operation::CreateMessage { conversation_sid, fields } => Ok(
                Plan {
                    request: self.conversation.create_message(conversation_sid, &fields),
                    mode,
                    upload: None,
                },
            ),
            Operation::ListMessages { conversation_sid } => Ok(
                Plan {
                    request: self.conversation.list_messages(conversation_sid),
                    mode,
                    upload: None,
                },
            ),
            Operation::DeleteMessage { conversation_sid, message_sid } => Ok(
                Plan {
                    request: self.conversation.delete_message(conversation_sid, message_sid),
                    mode,
                    upload: None,
                },
            ),
            Operation::RetrieveMedia { service_sid, media_sid } => Ok(
                Plan {
                    request: self.conversation.retrieve_media(service_sid, media_sid),
                    mode,
                    upload: None,
                },
            ),
            Operation::SendSms { fields } => Ok(
                Plan { request: self.sms.create_message(&fields), mode, upload: None },
            ),
            Operation::PlaceCall { call } => Ok(
                Plan { request: self.voice.outgoing_call(&call), mode, upload: None },
            ),
        }
    }
}

/// The fixed answer to an inbound call: its content type and its body.
#[derive(Clone, Debug, PartialEq, Eq)]
pub struct Acknowledgment {
    pub content_type: String,
    pub body: String,
}

/// The content type of the answer to an inbound call.
pub const ACKNOWLEDGMENT_CONTENT_TYPE: &'static str = "text/xml";

/// The document that answers an inbound call.
pub const ACKNOWLEDGMENT_BODY: &'static str =
    "<?xml version=\"1.0\" encoding=\"UTF-8\"?><Response><Say>Receiving your call!</Say></Response>";

/// Answers an inbound call with the fixed document.
pub fn inbound_call() -> (answer: Acknowledgment)
    ensures
        answer.content_type@ == ACKNOWLEDGMENT_CONTENT_TYPE@,
        answer.body@ == ACKNOWLEDGMENT_BODY@,
{
    Acknowledgment {
        content_type: ACKNOWLEDGMENT_CONTENT_TYPE.to_owned(),
        body: ACKNOWLEDGMENT_BODY.to_owned(),
    }
}

/// Every operation goes to the provider family it belongs to and carries
/// that family's credentials in that family's scheme: a bearer token for
/// email, identity and secret for conversation, SMS and voice.
pub proof fn law_authentication_matches_family(gateway: Gateway, operation: Operation)
    ensures
        gateway.request_of(operation).family == operation.family_of(),
        gateway.request_of(operation).auth == gateway.credentials_of(operation.family_of()),
        gateway.request_of(operation).authenticated(),
        gateway.request_of(operation).auth is Bearer <==> operation.family_of()
            == ProviderFamily::Email,
        gateway.request_of(operation).auth is Basic <==> operation.family_of()
            != ProviderFamily::Email,
{
}

/// What an operation carries is written the way its kind asks: fields are
/// form-encoded, a mail is a JSON document, an upload is a multipart body,
/// and reading or deleting carries nothing.
pub proof fn law_encoding_by_operation(operation: Operation)
    ensures
        Gateway::payload_of(operation).encoding() == (match operation {
            Operation::CreateConversation { .. } => Encoding::Form,
            Operation::CreateMessage { .. } => Encoding::Form,
            Operation::SendSms { .. } => Encoding::Form,
            Operation::PlaceCall { .. } => Encoding::Form,
            Operation::SendEmail { .. } => Encoding::Json,
            Operation::UploadMedia { .. } => Encoding::Multipart,
            _ => Encoding::Empty,
        }),
{
}

/// A message is created in the collection that the listing of its
/// conversation reads: both requests have the same address and the same
/// credentials, and the parsed reply of each is handed on.
pub proof fn law_created_message_is_listed_in_place(
    gateway: Gateway,
    conversation_sid: String,
    fields: Vec<Field>,
)
    ensures
        ({
            let create = Operation::CreateMessage { conversation_sid, fields };
            let list = Operation::ListMessages { conversation_sid };
            &&& gateway.request_of(create).url == gateway.request_of(list).url
            &&& gateway.request_of(create).auth == gateway.request_of(list).auth
            &&& gateway.request_of(create).method == Method::Post
            &&& gateway.request_of(list).method == Method::Get
            &&& create.refusal() is None
            &&& list.refusal() is None
            &&& create.mode_of() == ResponseMode::Parsed
            &&& list.mode_of() == ResponseMode::Parsed
        }),
{
}

/// A deletion is never refused, and whatever status the provider replies
/// with, the first time or any later time, the caller gets the empty
/// success.
pub proof fn law_deletion_is_reported_as_success(operation: Operation, status: u16, body: String)
    requires
        operation is DeleteConversation || operation is DeleteMessage,
    ensures
        operation.refusal() is None,
        operation.mode_of() == ResponseMode::Discarded,
        responded(operation.mode_of(), TransportOutcome::Replied { status, body })
            == EnvelopeView::Empty,
{
}

/// A mail without a recipient is refused as invalid, so that nothing is
/// sent for it.
pub proof fn law_mail_without_recipient_is_refused(mail: MailData)
    requires
        !mail.has_recipient(),
    ensures
        (Operation::SendEmail { mail }).refusal() matches Some(error) && error.kind_of()
            == ErrorKind::InvalidMail,
{
}

/// An upload whose path is missing or empty is refused as
/// `MediaSourceUnavailable`, so that nothing is sent for it.
pub proof fn law_upload_without_path_is_refused(
    service_sid: String,
    file_path: Option<String>,
    file_name: Option<String>,
)
    requires
        text_or_empty(file_path).len() == 0,
    ensures
        (Operation::UploadMedia { service_sid, file_path, file_name }).refusal() == Some(
            GatewayError::MediaSourceUnavailable,
        ),
{
}

} // verus!
