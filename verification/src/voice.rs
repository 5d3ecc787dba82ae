//! The client of the voice provider.

use vstd::prelude::*;
use crate::request::pairs_view;
use crate::request::Auth;
use crate::request::AuthView;
use crate::request::Method;
use crate::request::OutboundRequest;
use crate::request::Payload;
use crate::request::PayloadView;
use crate::request::ProviderFamily;
use crate::request::RequestView;

verus! {

/// Where the voice provider lives.
pub const VOICE_BASE_URL: &'static str = "https://api.singapore.us1.twilio.com/2010-04-01";

/// The address at which calls of an account are placed.
pub open spec fn calls_url(account_sid: Seq<char>) -> Seq<char> {
    VOICE_BASE_URL@ + "/Accounts/"@ + account_sid + "/Calls.json"@
}

/// An outgoing call: whom to call, from which number, and the markup that
/// says what the call does.
#[derive(Debug, PartialEq, Eq)]
pub struct VoiceData {
    to: String,
    from: String,
    twiml: String,
}

/// What a [`VoiceData`] holds.
pub ghost struct VoiceDataView {
    pub to: Seq<char>,
    pub from: Seq<char>,
    pub twiml: Seq<char>,
}

impl VoiceDataView {
    /// The fields that place the call, under the names the provider knows
    /// them by and in this order.
    pub open spec fn fields(self) -> Seq<(Seq<char>, Seq<char>)> {
        seq![("To"@, self.to), ("From"@, self.from), ("Twiml"@, self.twiml)]
    }
}

impl View for VoiceData {
    type V = VoiceDataView;

    closed spec fn view(&self) -> VoiceDataView {
        VoiceDataView { to: self.to@, from: self.from@, twiml: self.twiml@ }
    }
}

impl VoiceData {
    /// A call to `to` from `from` that runs `twiml`.
    pub fn new(to: String, from: String, twiml: String) -> (call: VoiceData)
        ensures
            call@ == (VoiceDataView { to: to@, from: from@, twiml: twiml@ }),
    {
        VoiceData { to, from, twiml }
    }

    /// Returns whom the call goes to.
    pub fn to(&self) -> (to: &String)
        ensures
            to@ == self@.to,
    {
        &self.to
    }

    /// Returns the number the call comes from.
    pub fn from(&self) -> (from: &String)
        ensures
            from@ == self@.from,
    {
        &self.from
    }

    /// Returns the markup that says what the call does.
    pub fn twiml(&self) -> (twiml: &String)
        ensures
            twiml@ == self@.twiml,
    {
        &self.twiml
    }

    /// Returns the fields that place the call, under the names the provider
    /// knows them by.
    pub fn form_fields(&self) -> (pairs: Vec<(String, String)>)
        ensures
            pairs_view(pairs@) == self@.fields(),
    {
        let mut pairs: Vec<(String, String)> = Vec::new();
        pairs.push(("To".to_owned(), self.to.clone()));
        pairs.push(("From".to_owned(), self.from.clone()));
        pairs.push(("Twiml".to_owned(), self.twiml.clone()));
        proof {
            assert(pairs_view(pairs@) =~= self@.fields());
        }
        pairs
    }
}

/// The client of the voice provider. It holds the account's identity and
/// secret and nothing else.
#[derive(Debug)]
pub struct Voice {
    username: String,
    password: String,
}

impl Voice {
    /// The identity that every request of this client authenticates with,
    /// which also names the account in the address.
    pub closed spec fn identity(&self) -> Seq<char> {
        self.username@
    }

    /// The secret that every request of this client authenticates with.
    pub closed spec fn secret(&self) -> Seq<char> {
        self.password@
    }

    /// The credentials that every request of this client carries.
    pub open spec fn credentials(&self) -> AuthView {
        AuthView::Basic { identity: self.identity(), secret: self.secret() }
    }

    /// A client that authenticates with the given identity and secret.
    pub fn new(username: String, password: String) -> (client: Voice)
        ensures
            client.identity() == username@,
            client.secret() == password@,
    {
        Voice { username, password }
    }

    /// Plans the placing of a call: one POST to the calls of the account,
    /// with the call's three fields form-encoded.
    pub fn outgoing_call(&self, params: &VoiceData) -> (request: OutboundRequest)
        ensures
            request@ == (RequestView {
                family: ProviderFamily::Voice,
                method: Method::Post,
                url: calls_url(self.identity()),
                auth: self.credentials(),
                payload: PayloadView::Form(params@.fields()),
            }),
    {
        let mut url = VOICE_BASE_URL.to_owned();
        url.append("/Accounts/");
        url.append(self.username.as_str());
        url.append("/Calls.json");
        OutboundRequest {
            family: ProviderFamily::Voice,
            method: Method::Post,
            url,
            auth: Auth::Basic {
                identity: self.username.clone(),
                secret: self.password.clone(),
            },
            payload: Payload::Form(params.form_fields()),
        }
    }
}

} // verus!
