//! The client of the SMS provider.

use vstd::prelude::*;
use crate::request::outbound_fields;
use crate::request::present_fields;
use crate::request::Auth;
use crate::request::AuthView;
use crate::request::Field;
use crate::request::Method;
use crate::request::OutboundRequest;
use crate::request::Payload;
use crate::request::PayloadView;
use crate::request::ProviderFamily;
use crate::request::RequestView;

verus! {

/// Where the SMS provider lives.
pub const BASE_URL: &'static str = "https://api.twilio.com";

/// The address at which messages of an account are created.
pub open spec fn sms_messages_url(account_sid: Seq<char>) -> Seq<char> {
    BASE_URL@ + "/2010-04-01/Accounts/"@ + account_sid + "/Messages.json"@
}

/// The client of the SMS provider. It holds the account's identity and
/// secret and nothing else.
#[derive(Debug)]
pub struct Sms {
    username: String,
    password: String,
}

impl Sms {
    /// The identity that every request of this client authenticates with,
    /// which also names the account in the address.
    pub closed spec fn identity(&self) -> Seq<char> {
        self.username@
    }

    /// The secret that every request of this client authenticates with.
    pub closed spec fn secret(&self) -> Seq<char> {
        self.password@
    }

    /// The credentials that every request of this client carries.
    pub open spec fn credentials(&self) -> AuthView {
        AuthView::Basic { identity: self.identity(), secret: self.secret() }
    }

    /// A client that authenticates with the given identity and secret.
    pub fn new(username: String, password: String) -> (client: Sms)
        ensures
            client.identity() == username@,
            client.secret() == password@,
    {
        Sms { username, password }
    }

    /// Plans the sending of an SMS: one POST to the messages of the account,
    /// with the fields that have a value form-encoded as they are.
    pub fn create_message(&self, params: &Vec<Field>) -> (request: OutboundRequest)
        ensures
            request@ == (RequestView {
                family: ProviderFamily::Sms,
                method: Method::Post,
                url: sms_messages_url(self.identity()),
                auth: self.credentials(),
                payload: PayloadView::Form(present_fields(params@)),
            }),
    {
        let mut url = BASE_URL.to_owned();
        url.append("/2010-04-01/Accounts/");
        url.append(self.username.as_str());
        url.append("/Messages.json");
        OutboundRequest {
            family: ProviderFamily::Sms,
            method: Method::Post,
            url,
            auth: Auth::Basic {
                identity: self.username.clone(),
                secret: self.password.clone(),
            },
            payload: Payload::Form(outbound_fields(params)),
        }
    }
}

} // verus!
