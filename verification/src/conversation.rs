//! The client of the conversation provider: conversations, their messages,
//! and the media that messages refer to.

use vstd::prelude::*;
use crate::error::GatewayError;
use crate::request::outbound_fields;
use crate::request::present_fields;
use crate::request::Auth;
use crate::request::AuthView;
use crate::request::Field;
use crate::request::FilePart;
use crate::request::FilePartView;
use crate::request::Method;
use crate::request::OutboundRequest;
use crate::request::Payload;
use crate::request::PayloadView;
use crate::request::ProviderFamily;
use crate::request::RequestView;
use crate::transfer::MediaHandle;
use crate::transfer::Transfer;
use crate::transfer::TransferView;

verus! {

/// Where conversations and their messages live.
pub const CONVERSATION_BASE_URL: &'static str = "https://conversations.twilio.com/v1";

/// Where media objects live.
pub const CONVERSATION_MEDIA_URL: &'static str = "https://mcs.us1.twilio.com/v1";

/// The name of the part that carries the file of an upload.
pub const UPLOAD_PART_NAME: &'static str = "file";

/// The address of the collection of conversations.
pub open spec fn conversations_url() -> Seq<char> {
    CONVERSATION_BASE_URL@ + "/Conversations"@
}

/// The address of one conversation.
pub open spec fn conversation_url(conversation_sid: Seq<char>) -> Seq<char> {
    conversations_url() + "/"@ + conversation_sid
}

/// The address of the collection of messages of one conversation.
pub open spec fn messages_url(conversation_sid: Seq<char>) -> Seq<char> {
    conversation_url(conversation_sid) + "/Messages"@
}

/// The address of one message of one conversation.
pub open spec fn message_url(conversation_sid: Seq<char>, message_sid: Seq<char>) -> Seq<char> {
    messages_url(conversation_sid) + "/"@ + message_sid
}

/// The address of the collection of media objects of one service.
pub open spec fn media_collection_url(service_sid: Seq<char>) -> Seq<char> {
    CONVERSATION_MEDIA_URL@ + "/Services/"@ + service_sid + "/Media"@
}

/// The address of one media object of one service.
pub open spec fn media_url(service_sid: Seq<char>, media_sid: Seq<char>) -> Seq<char> {
    media_collection_url(service_sid) + "/"@ + media_sid
}

/// An upload that is ready to start: the one request that carries the file,
/// the handle of the file, and the transfer in its first state.
#[derive(Debug, PartialEq, Eq)]
pub struct Upload {
    pub request: OutboundRequest,
    pub handle: MediaHandle,
    pub transfer: Transfer,
}

/// The client of the conversation provider. It holds the account's identity
/// and secret and nothing else; no state passes from one call to the next.
#[derive(Debug)]
pub struct Conversation {
    username: String,
    password: String,
}

impl Conversation {
    /// The identity that every request of this client authenticates with.
    pub closed spec fn identity(&self) -> Seq<char> {
        self.username@
    }

    /// The secret that every request of this client authenticates with.
    pub closed spec fn secret(&self) -> Seq<char> {
        self.password@
    }

    /// The credentials that every request of this client carries.
    pub open spec fn credentials(&self) -> AuthView {
        AuthView::Basic { identity: self.identity(), secret: self.secret() }
    }

    /// What a request of this client holds, given where it goes and what it
    /// carries.
    pub open spec fn request(&self, method: Method, url: Seq<char>, payload: PayloadView) -> RequestView {
        RequestView {
            family: ProviderFamily::Conversation,
            method,
            url,
            auth: self.credentials(),
            payload,
        }
    }

    /// A client that authenticates with the given identity and secret.
    pub fn new(username: String, password: String) -> (client: Conversation)
        ensures
            client.identity() == username@,
            client.secret() == password@,
    {
        Conversation { username, password }
    }

    fn auth(&self) -> (auth: Auth)
        ensures
            auth@ == self.credentials(),
    {
        Auth::Basic { identity: self.username.clone(), secret: self.password.clone() }
    }

    fn conversation_address(conversation_sid: &String) -> (url: String)
        ensures
            url@ == conversation_url(conversation_sid@),
    {
        let mut url = CONVERSATION_BASE_URL.to_owned();
        url.append("/Conversations");
        url.append("/");
        url.append(conversation_sid.as_str());
        url
    }

    fn media_collection_address(service_sid: &String) -> (url: String)
        ensures
            url@ == media_collection_url(service_sid@),
    {
        let mut url = CONVERSATION_MEDIA_URL.to_owned();
        url.append("/Services/");
        url.append(service_sid.as_str());
        url.append("/Media");
        url
    }

    /// Plans the upload of a local file into a service: one multipart POST
    /// to the service's media collection, whose single part, named `file`,
    /// streams the file under the given file name.
    ///
    /// An empty path names no file: the upload then fails with
    /// `MediaSourceUnavailable` and no request is planned.
    pub fn upload_media(&self, service_sid: String, file_path: String, file_name: String) -> (planned:
        Result<Upload, GatewayError>)
        ensures
            file_path@.len() == 0 ==> planned == Err::<Upload, GatewayError>(
                GatewayError::MediaSourceUnavailable,
            ),
            file_path@.len() > 0 ==> {
                &&& planned matches Ok(upload)
                &&& upload.request@ == self.request(
                    Method::Post,
                    media_collection_url(service_sid@),
                    PayloadView::Multipart(
                        FilePartView {
                            part_name: UPLOAD_PART_NAME@,
                            file_name: file_name@,
                            source_path: file_path@,
                        },
                    ),
                )
                &&& upload.handle.path_view() == file_path@
                &&& upload.handle.file_name_view() == file_name@
                &&& upload.transfer@ == TransferView::initial()
            },
    {
        let part = FilePart {
            part_name: UPLOAD_PART_NAME.to_owned(),
            file_name: file_name.clone(),
            source_path: file_path.clone(),
        };
        match MediaHandle::new(file_path, file_name) {
            None => Err(GatewayError::MediaSourceUnavailable),
            Some(handle) => {
                let request = OutboundRequest {
                    family: ProviderFamily::Conversation,
                    method: Method::Post,
                    url: Self::media_collection_address(&service_sid),
                    auth: self.auth(),
                    payload: Payload::Multipart(part),
                };
                Ok(Upload { request, handle, transfer: Transfer::begin() })
            },
        }
    }

    /// Plans the creation of a message in a conversation: one POST to the
    /// conversation's messages, with the fields that have a value
    /// form-encoded as they are.
    pub fn create_message(&self, conversation_sid: String, params: &Vec<Field>) -> (request:
        OutboundRequest)
        ensures
            request@ == self.request(
                Method::Post,
                messages_url(conversation_sid@),
                PayloadView::Form(present_fields(params@)),
            ),
    {
        let mut url = Self::conversation_address(&conversation_sid);
        url.append("/Messages");
        OutboundRequest {
            family: ProviderFamily::Conversation,
            method: Method::Post,
            url,
            auth: self.auth(),
            payload: Payload::Form(outbound_fields(params)),
        }
    }

    /// Plans the creation of a conversation: one POST to the collection of
    /// conversations, with the fields that have a value form-encoded as
    /// they are.
    pub fn create_conversation(&self, params: &Vec<Field>) -> (request: OutboundRequest)
        ensures
            request@ == self.request(
                Method::Post,
                conversations_url(),
                PayloadView::Form(present_fields(params@)),
            ),
    {
        let mut url = CONVERSATION_BASE_URL.to_owned();
        url.append("/Conversations");
        OutboundRequest {
            family: ProviderFamily::Conversation,
            method: Method::Post,
            url,
            auth: self.auth(),
            payload: Payload::Form(outbound_fields(params)),
        }
    }

    /// Plans the listing of the messages of a conversation: one GET to the
    /// conversation's messages.
    pub fn list_messages(&self, conversation_sid: String) -> (request: OutboundRequest)
        ensures
            request@ == self.request(
                Method::Get,
                messages_url(conversation_sid@),
                PayloadView::Empty,
            ),
    {
        let mut url = Self::conversation_address(&conversation_sid);
        url.append("/Messages");
        OutboundRequest {
            family: ProviderFamily::Conversation,
            method: Method::Get,
            url,
            auth: self.auth(),
            payload: Payload::Empty,
        }
    }

    /// Plans the retrieval of the descriptor of a media object: one GET to
    /// the object in its service. What comes back describes the object; its
    /// bytes are not fetched.
    pub fn retrieve_media(&self, service_sid: String, media_sid: String) -> (request:
        OutboundRequest)
        ensures
            request@ == self.request(
                Method::Get,
                media_url(service_sid@, media_sid@),
                PayloadView::Empty,
            ),
    {
        let mut url = Self::media_collection_address(&service_sid);
        url.append("/");
        url.append(media_sid.as_str());
        OutboundRequest {
            family: ProviderFamily::Conversation,
            method: Method::Get,
            url,
            auth: self.auth(),
            payload: Payload::Empty,
        }
    }

    /// Plans the deletion of a message: one DELETE to the message in its
    /// conversation.
    pub fn delete_message(&self, conversation_sid: String, message_sid: String) -> (request:
        OutboundRequest)
        ensures
            request@ == self.request(
                Method::Delete,
                message_url(conversation_sid@, message_sid@),
                PayloadView::Empty,
            ),
    {
        let mut url = Self::conversation_address(&conversation_sid);
        url.append("/Messages");
        url.append("/");
        url.append(message_sid.as_str());
        OutboundRequest {
            family: ProviderFamily::Conversation,
            method: Method::Delete,
            url,
            auth: self.auth(),
            payload: Payload::Empty,
        }
    }

    /// Plans the deletion of a conversation: one DELETE to the conversation.
    pub fn delete_conversation(&self, sid: String) -> (request: OutboundRequest)
        ensures
            request@ == self.request(Method::Delete, conversation_url(sid@), PayloadView::Empty),
    {
        OutboundRequest {
            family: ProviderFamily::Conversation,
            method: Method::Delete,
            url: Self::conversation_address(&sid),
            auth: self.auth(),
            payload: Payload::Empty,
        }
    }
}

} // verus!
