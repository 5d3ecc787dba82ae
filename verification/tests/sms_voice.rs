use comm_gateway::request::field;
use comm_gateway::request::Auth;
use comm_gateway::request::AuthScheme;
use comm_gateway::request::Encoding;
use comm_gateway::request::Method;
use comm_gateway::request::Payload;
use comm_gateway::request::ProviderFamily;
use comm_gateway::response::interpret_reply;
use comm_gateway::response::TransportOutcome;
use comm_gateway::sms::Sms;
use comm_gateway::voice::Voice;
use comm_gateway::voice::VoiceData;

fn pair(name: &str, value: &str) -> (String, String) {
    (name.to_string(), value.to_string())
}

#[test]
fn sms_is_one_basic_authenticated_form_post_and_its_reply_comes_back_verbatim() {
    let sms = Sms::new("AC1".to_string(), "secret".to_string());
    let params = vec![
        field("From".to_string(), "+15550000".to_string()),
        field("To".to_string(), "+15550001".to_string()),
        field("Body".to_string(), "hi".to_string()),
    ];
    let request = sms.create_message(&params);
    assert_eq!(request.family, ProviderFamily::Sms);
    assert_eq!(request.method, Method::Post);
    assert_eq!(request.url, "https://api.twilio.com/2010-04-01/Accounts/AC1/Messages.json");
    assert_eq!(
        request.auth,
        Auth::Basic { identity: "AC1".to_string(), secret: "secret".to_string() }
    );
    assert_eq!(request.auth.scheme(), AuthScheme::Basic);
    assert_eq!(request.payload.encoding(), Encoding::Form);
    assert_eq!(
        request.payload,
        Payload::Form(vec![pair("From", "+15550000"), pair("To", "+15550001"), pair("Body", "hi")])
    );

    let body = "{\"sid\":\"SM1\",\"status\":\"queued\",\"to\":\"+15550001\",\"num_segments\":1}";
    let reply = TransportOutcome::Replied { status: 201, body: body.to_string() };
    let value = interpret_reply(&reply).expect("a JSON reply under a success status");
    let expected: serde_json::Value = serde_json::from_str(body).unwrap();
    assert_eq!(value, expected);
    assert_eq!(value["sid"], "SM1");
    assert_eq!(value["num_segments"], 1);
}

#[test]
fn sms_address_names_the_account_of_the_client() {
    let sms = Sms::new("AC999".to_string(), "x".to_string());
    let request = sms.create_message(&Vec::new());
    assert_eq!(request.url, "https://api.twilio.com/2010-04-01/Accounts/AC999/Messages.json");
    assert_eq!(request.payload, Payload::Form(Vec::new()));
}

#[test]
fn call_is_one_form_post_with_the_three_fields_under_their_provider_names() {
    let voice = Voice::new("AC1".to_string(), "secret".to_string());
    let call = VoiceData::new(
        "+15550001".to_string(),
        "+15550000".to_string(),
        "<Response><Say>Hello</Say></Response>".to_string(),
    );
    let request = voice.outgoing_call(&call);
    assert_eq!(request.family, ProviderFamily::Voice);
    assert_eq!(request.method, Method::Post);
    assert_eq!(
        request.url,
        "https://api.singapore.us1.twilio.com/2010-04-01/Accounts/AC1/Calls.json"
    );
    assert_eq!(
        request.auth,
        Auth::Basic { identity: "AC1".to_string(), secret: "secret".to_string() }
    );
    assert_eq!(
        request.payload,
        Payload::Form(vec![
            pair("To", "+15550001"),
            pair("From", "+15550000"),
            pair("Twiml", "<Response><Say>Hello</Say></Response>"),
        ])
    );
}

#[test]
fn call_data_keeps_what_it_was_made_of() {
    let call = VoiceData::new("t".to_string(), "f".to_string(), "m".to_string());
    assert_eq!(call.to(), "t");
    assert_eq!(call.from(), "f");
    assert_eq!(call.twiml(), "m");
    assert_eq!(call.form_fields(), vec![pair("To", "t"), pair("From", "f"), pair("Twiml", "m")]);
}
