use comm_gateway::email::Content;
use comm_gateway::email::Endpoint;
use comm_gateway::email::MailData;
use comm_gateway::email::Personalization;
use comm_gateway::error::GatewayError;
use comm_gateway::error::MailDefect;
use comm_gateway::gateway::inbound_call;
use comm_gateway::gateway::parameter_or_empty;
use comm_gateway::gateway::Credentials;
use comm_gateway::gateway::Gateway;
use comm_gateway::gateway::Operation;
use comm_gateway::gateway::FILE_NAME_PARAMETER;
use comm_gateway::gateway::FILE_PATH_PARAMETER;
use comm_gateway::gateway::SENDGRID_API_KEY;
use comm_gateway::gateway::TWILIO_ACCOUNT_SID;
use comm_gateway::gateway::TWILIO_AUTH_TOKEN;
use comm_gateway::request::field;
use comm_gateway::request::Auth;
use comm_gateway::request::AuthScheme;
use comm_gateway::request::Encoding;
use comm_gateway::request::Method;
use comm_gateway::request::OutboundRequest;
use comm_gateway::request::Payload;
use comm_gateway::request::ProviderFamily;
use comm_gateway::response::respond;
use comm_gateway::response::Envelope;
use comm_gateway::response::ResponseMode;
use comm_gateway::response::TransportOutcome;
use comm_gateway::response::fail;
use comm_gateway::transfer::Fault;
use comm_gateway::transfer::Phase;
use comm_gateway::transfer::TransferAction;
use comm_gateway::transfer::TransferEvent;
use comm_gateway::voice::VoiceData;

fn gateway() -> Gateway {
    let credentials = Credentials::load(
        Some("AC1".to_string()),
        Some("secret".to_string()),
        Some("SG.key".to_string()),
    )
    .expect("all three credentials are present");
    Gateway::new(&credentials)
}

fn account() -> Auth {
    Auth::Basic { identity: "AC1".to_string(), secret: "secret".to_string() }
}

fn mail(to: Vec<Endpoint>) -> MailData {
    MailData {
        personalizations: vec![Personalization { to, cc: None, bcc: None }],
        from: Endpoint { email: "alice@example.com".to_string(), name: None },
        subject: "Greetings".to_string(),
        content: vec![Content { type_: Some("text/plain".to_string()), value: "Hello".to_string() }],
        reply_to: None,
        attachments: None,
    }
}

fn every_operation() -> Vec<Operation> {
    vec![
        Operation::CreateConversation { fields: vec![field("FriendlyName".into(), "x".into())] },
        Operation::DeleteConversation { conversation_sid: "CH1".into() },
        Operation::CreateMessage { conversation_sid: "CH1".into(), fields: Vec::new() },
        Operation::ListMessages { conversation_sid: "CH1".into() },
        Operation::DeleteMessage { conversation_sid: "CH1".into(), message_sid: "IM1".into() },
        Operation::UploadMedia {
            service_sid: "IS1".into(),
            file_path: Some("/tmp/a.jpg".into()),
            file_name: Some("a.jpg".into()),
        },
        Operation::RetrieveMedia { service_sid: "IS1".into(), media_sid: "ME1".into() },
        Operation::SendSms { fields: vec![field("Body".into(), "hi".into())] },
        Operation::PlaceCall { call: VoiceData::new("t".into(), "f".into(), "<Response/>".into()) },
        Operation::SendEmail {
            mail: mail(vec![Endpoint { email: "bob@example.com".into(), name: None }]),
        },
    ]
}

#[test]
fn credentials_need_all_three_values() {
    let some = |text: &str| Some(text.to_string());
    assert!(Credentials::load(some("a"), some("b"), some("c")).is_ok());
    assert!(Credentials::load(some(""), some(""), some("")).is_ok());
    for (identity, secret, token) in [
        (None, some("b"), some("c")),
        (some("a"), None, some("c")),
        (some("a"), some("b"), None),
        (None, None, some("c")),
        (None, None, None),
    ] {
        match Credentials::load(identity, secret, token) {
            Err(error) => {
                assert_eq!(error, GatewayError::MissingCredentials);
                assert!(error.kind().is_fatal());
            }
            Ok(_) => panic!("a credential is missing"),
        }
    }
}

#[test]
fn environment_variables_have_their_names() {
    assert_eq!(TWILIO_ACCOUNT_SID, "TWILIO_ACCOUNT_SID");
    assert_eq!(TWILIO_AUTH_TOKEN, "TWILIO_AUTH_TOKEN");
    assert_eq!(SENDGRID_API_KEY, "SENDGRID_API_KEY");
    assert_eq!(FILE_PATH_PARAMETER, "file_path");
    assert_eq!(FILE_NAME_PARAMETER, "file_name");
}

#[test]
fn three_clients_share_the_account_and_mail_has_its_token() {
    let gateway = gateway();
    let conversation = gateway.conversation.list_messages("CH1".to_string());
    let sms = gateway.sms.create_message(&Vec::new());
    let voice =
        gateway.voice.outgoing_call(&VoiceData::new("t".into(), "f".into(), "m".into()));
    assert_eq!(conversation.auth, account());
    assert_eq!(sms.auth, account());
    assert_eq!(voice.auth, account());
    let sent = gateway
        .mail
        .send_mail(mail(vec![Endpoint { email: "bob@example.com".into(), name: None }]))
        .unwrap();
    assert_eq!(sent.auth, Auth::Bearer { token: "SG.key".to_string() });
}

#[test]
fn every_operation_plans_one_request_authenticated_for_its_family() {
    let gateway = gateway();
    for operation in every_operation() {
        let family = operation.family();
        let mode = operation.response_mode();
        let plan = gateway.plan(operation).expect("nothing here is refused");
        assert_eq!(plan.request.family, family);
        assert_eq!(plan.mode, mode);
        assert_eq!(plan.request.auth.scheme(), family.scheme());
        if family == ProviderFamily::Email {
            assert_eq!(plan.request.auth.scheme(), AuthScheme::Bearer);
            assert_eq!(plan.request.auth, Auth::Bearer { token: "SG.key".to_string() });
        } else {
            assert_eq!(plan.request.auth.scheme(), AuthScheme::Basic);
            assert_eq!(plan.request.auth, account());
        }
    }
}

#[test]
fn operations_go_where_their_routes_say() {
    let gateway = gateway();
    let expected = vec![
        (Method::Post, "https://conversations.twilio.com/v1/Conversations", Encoding::Form),
        (Method::Delete, "https://conversations.twilio.com/v1/Conversations/CH1", Encoding::Empty),
        (Method::Post, "https://conversations.twilio.com/v1/Conversations/CH1/Messages", Encoding::Form),
        (Method::Get, "https://conversations.twilio.com/v1/Conversations/CH1/Messages", Encoding::Empty),
        (
            Method::Delete,
            "https://conversations.twilio.com/v1/Conversations/CH1/Messages/IM1",
            Encoding::Empty,
        ),
        (Method::Post, "https://mcs.us1.twilio.com/v1/Services/IS1/Media", Encoding::Multipart),
        (Method::Get, "https://mcs.us1.twilio.com/v1/Services/IS1/Media/ME1", Encoding::Empty),
        (Method::Post, "https://api.twilio.com/2010-04-01/Accounts/AC1/Messages.json", Encoding::Form),
        (
            Method::Post,
            "https://api.singapore.us1.twilio.com/2010-04-01/Accounts/AC1/Calls.json",
            Encoding::Form,
        ),
        (Method::Post, "https://api.sendgrid.com/v3/mail/send", Encoding::Json),
    ];
    for (operation, (method, url, encoding)) in every_operation().into_iter().zip(expected) {
        let plan = gateway.plan(operation).unwrap();
        assert_eq!(plan.request.method, method);
        assert_eq!(plan.request.url, url);
        assert_eq!(plan.request.payload.encoding(), encoding);
    }
}

#[test]
fn families_and_modes_follow_the_operation() {
    let families: Vec<ProviderFamily> = every_operation().iter().map(|o| o.family()).collect();
    assert_eq!(
        families,
        vec![
            ProviderFamily::Conversation,
            ProviderFamily::Conversation,
            ProviderFamily::Conversation,
            ProviderFamily::Conversation,
            ProviderFamily::Conversation,
            ProviderFamily::Conversation,
            ProviderFamily::Conversation,
            ProviderFamily::Sms,
            ProviderFamily::Voice,
            ProviderFamily::Email,
        ]
    );
    let modes: Vec<ResponseMode> = every_operation().iter().map(|o| o.response_mode()).collect();
    assert_eq!(
        modes,
        vec![
            ResponseMode::Parsed,
            ResponseMode::Discarded,
            ResponseMode::Parsed,
            ResponseMode::Parsed,
            ResponseMode::Discarded,
            ResponseMode::Parsed,
            ResponseMode::Parsed,
            ResponseMode::Parsed,
            ResponseMode::Parsed,
            ResponseMode::Parsed,
        ]
    );
}

#[test]
fn schemes_follow_the_family() {
    assert_eq!(ProviderFamily::Conversation.scheme(), AuthScheme::Basic);
    assert_eq!(ProviderFamily::Sms.scheme(), AuthScheme::Basic);
    assert_eq!(ProviderFamily::Voice.scheme(), AuthScheme::Basic);
    assert_eq!(ProviderFamily::Email.scheme(), AuthScheme::Bearer);
}

#[test]
fn only_an_upload_names_a_file_to_stream() {
    let gateway = gateway();
    for operation in every_operation() {
        let is_upload = matches!(operation, Operation::UploadMedia { .. });
        let plan = gateway.plan(operation).unwrap();
        assert_eq!(plan.upload.is_some(), is_upload);
        if let Some((handle, transfer)) = plan.upload {
            assert_eq!(handle.path(), "/tmp/a.jpg");
            assert_eq!(handle.file_name(), "a.jpg");
            assert_eq!(transfer.phase(), Phase::Opened);
        }
    }
}

#[test]
fn missing_query_parameters_become_empty_texts() {
    assert_eq!(parameter_or_empty(None), "");
    assert_eq!(parameter_or_empty(Some(String::new())), "");
    assert_eq!(parameter_or_empty(Some("/tmp/a.jpg".to_string())), "/tmp/a.jpg");
}

#[test]
fn upload_without_a_path_is_unavailable_and_plans_nothing() {
    let gateway = gateway();
    for file_path in [None, Some(String::new())] {
        let planned = gateway.plan(Operation::UploadMedia {
            service_sid: "IS123".to_string(),
            file_path,
            file_name: Some("a.jpg".to_string()),
        });
        assert_eq!(planned, Err(GatewayError::MediaSourceUnavailable));
    }
}

#[test]
fn upload_without_a_file_name_streams_under_an_empty_name() {
    let plan = gateway()
        .plan(Operation::UploadMedia {
            service_sid: "IS123".to_string(),
            file_path: Some("/tmp/a.jpg".to_string()),
            file_name: None,
        })
        .unwrap();
    match plan.request.payload {
        Payload::Multipart(part) => {
            assert_eq!(part.part_name, "file");
            assert_eq!(part.file_name, "");
            assert_eq!(part.source_path, "/tmp/a.jpg");
        }
        _ => panic!("an upload is a multipart request"),
    }
}

#[test]
fn upload_of_an_absent_file_answers_with_the_failure_and_sends_nothing() {
    let plan = gateway()
        .plan(Operation::UploadMedia {
            service_sid: "IS123".to_string(),
            file_path: Some("/tmp/a.jpg".to_string()),
            file_name: Some("a.jpg".to_string()),
        })
        .expect("the path is not empty");
    assert_eq!(plan.request.url, "https://mcs.us1.twilio.com/v1/Services/IS123/Media");
    let (handle, transfer) = plan.upload.expect("an upload names its file");
    assert_eq!(handle.path(), "/tmp/a.jpg");

    let mut sent = 0;
    let (transfer, action) = transfer.step(TransferEvent::SourceUnavailable);
    if action == TransferAction::IssueRequest {
        sent += 1;
    }
    assert_eq!(action, TransferAction::Abort(Fault::SourceUnavailable));
    assert_eq!(sent, 0);
    let error = transfer.failure().expect("the transfer failed");
    assert_eq!(error, GatewayError::MediaSourceUnavailable);
    assert_eq!(transfer.phase(), Phase::Failed(Fault::SourceUnavailable));
    let envelope = fail(error);
    assert_eq!(
        envelope,
        Envelope::Failure {
            status: 500,
            message: "Something went wrong: media source unavailable".to_string(),
            rejection: None,
        }
    );
}

#[test]
fn mail_lacking_any_recipient_is_refused_before_any_call() {
    let gateway = gateway();
    let planned = gateway.plan(Operation::SendEmail { mail: mail(Vec::new()) });
    assert_eq!(planned, Err(GatewayError::InvalidMail(MailDefect::NoRecipient)));
    let mut none = mail(Vec::new());
    none.personalizations = Vec::new();
    let refused = gateway.plan(Operation::SendEmail { mail: none }).unwrap_err();
    assert_eq!(refused, GatewayError::InvalidMail(MailDefect::NoRecipient));
    assert_eq!(
        fail(refused),
        Envelope::Failure {
            status: 500,
            message: "Something went wrong: mail has no recipient".to_string(),
            rejection: None,
        }
    );
}

struct MockProvider {
    messages: Vec<(String, String, String)>,
    created: u32,
    calls: u32,
}

impl MockProvider {
    fn new() -> MockProvider {
        MockProvider { messages: Vec::new(), created: 0, calls: 0 }
    }

    fn quote(text: &str) -> String {
        serde_json::Value::String(text.to_string()).to_string()
    }

    fn serve(&mut self, request: &OutboundRequest) -> TransportOutcome {
        self.calls += 1;
        assert_eq!(request.auth, account());
        let base = "https://conversations.twilio.com/v1/Conversations/";
        let path = request.url.strip_prefix(base).expect("a conversation address");
        let parts: Vec<&str> = path.split('/').collect();
        match (request.method, parts.as_slice()) {
            (Method::Post, [conversation, "Messages"]) => {
                self.created += 1;
                let sid = format!("IM{}", self.created);
                let body = match &request.payload {
                    Payload::Form(pairs) => pairs
                        .iter()
                        .find(|(name, _)| name == "Body")
                        .map(|(_, value)| value.clone())
                        .unwrap_or_default(),
                    _ => panic!("a message is created from a form"),
                };
                self.messages.push((conversation.to_string(), sid.clone(), body.clone()));
                TransportOutcome::Replied {
                    status: 201,
                    body: format!(
                        "{{\"sid\":{},\"conversation_sid\":{},\"body\":{}}}",
                        Self::quote(&sid),
                        Self::quote(conversation),
                        Self::quote(&body)
                    ),
                }
            }
            (Method::Get, [conversation, "Messages"]) => {
                let listed: Vec<String> = self
                    .messages
                    .iter()
                    .filter(|(owner, _, _)| owner == conversation)
                    .map(|(_, sid, body)| {
                        format!("{{\"sid\":{},\"body\":{}}}", Self::quote(sid), Self::quote(body))
                    })
                    .collect();
                TransportOutcome::Replied {
                    status: 200,
                    body: format!("{{\"messages\":[{}]}}", listed.join(",")),
                }
            }
            (Method::Delete, [conversation, "Messages", message]) => {
                let before = self.messages.len();
                self.messages.retain(|(owner, sid, _)| !(owner == conversation && sid == message));
                if self.messages.len() < before {
                    TransportOutcome::Replied { status: 204, body: String::new() }
                } else {
                    TransportOutcome::Replied {
                        status: 404,
                        body: "{\"code\":20404,\"status\":404}".to_string(),
                    }
                }
            }
            _ => TransportOutcome::Replied { status: 405, body: "{}".to_string() },
        }
    }
}

fn carry_out(gateway: &Gateway, provider: &mut MockProvider, operation: Operation) -> Envelope {
    match gateway.plan(operation) {
        Ok(plan) => {
            let outcome = provider.serve(&plan.request);
            respond(plan.mode, &outcome)
        }
        Err(error) => fail(error),
    }
}

fn listed_sids(envelope: &Envelope) -> Vec<String> {
    match envelope {
        Envelope::Value(value) => value["messages"]
            .as_array()
            .expect("a collection under the provider's key")
            .iter()
            .map(|message| message["sid"].as_str().unwrap().to_string())
            .collect(),
        other => panic!("unexpected {:?}", other),
    }
}

#[test]
fn created_message_is_in_the_list_of_its_conversation() {
    let gateway = gateway();
    let mut provider = MockProvider::new();
    let created = carry_out(
        &gateway,
        &mut provider,
        Operation::CreateMessage {
            conversation_sid: "CH1".to_string(),
            fields: vec![field("Body".to_string(), "first \"quoted\"".to_string())],
        },
    );
    let sid = match &created {
        Envelope::Value(value) => value["sid"].as_str().unwrap().to_string(),
        other => panic!("unexpected {:?}", other),
    };
    carry_out(
        &gateway,
        &mut provider,
        Operation::CreateMessage {
            conversation_sid: "CH2".to_string(),
            fields: vec![field("Body".to_string(), "elsewhere".to_string())],
        },
    );
    let listed = carry_out(
        &gateway,
        &mut provider,
        Operation::ListMessages { conversation_sid: "CH1".to_string() },
    );
    assert_eq!(listed_sids(&listed), vec![sid]);
    match &listed {
        Envelope::Value(value) => assert_eq!(value["messages"][0]["body"], "first \"quoted\""),
        other => panic!("unexpected {:?}", other),
    }
    assert_eq!(provider.calls, 3);
}

#[test]
fn deleting_twice_is_a_success_both_times() {
    let gateway = gateway();
    let mut provider = MockProvider::new();
    carry_out(
        &gateway,
        &mut provider,
        Operation::CreateMessage {
            conversation_sid: "CH1".to_string(),
            fields: vec![field("Body".to_string(), "x".to_string())],
        },
    );
    let delete = || Operation::DeleteMessage {
        conversation_sid: "CH1".to_string(),
        message_sid: "IM1".to_string(),
    };
    let first = carry_out(&gateway, &mut provider, delete());
    let second = carry_out(&gateway, &mut provider, delete());
    assert_eq!(first, Envelope::Empty);
    assert_eq!(second, Envelope::Empty);
    assert_eq!(first.status(), 200);
    assert_eq!(second.status(), 200);
    let listed = carry_out(
        &gateway,
        &mut provider,
        Operation::ListMessages { conversation_sid: "CH1".to_string() },
    );
    assert_eq!(listed_sids(&listed), Vec::<String>::new());
    assert_eq!(provider.calls, 4);
}

#[test]
fn refused_operation_reaches_no_provider() {
    let gateway = gateway();
    let mut provider = MockProvider::new();
    let answer = carry_out(
        &gateway,
        &mut provider,
        Operation::UploadMedia { service_sid: "IS1".to_string(), file_path: None, file_name: None },
    );
    assert_eq!(answer.status(), 500);
    let answer =
        carry_out(&gateway, &mut provider, Operation::SendEmail { mail: mail(Vec::new()) });
    assert_eq!(answer.status(), 500);
    assert_eq!(provider.calls, 0);
}

#[test]
fn inbound_call_is_answered_with_the_fixed_document() {
    let answer = inbound_call();
    assert_eq!(answer.content_type, "text/xml");
    assert_eq!(
        answer.body,
        "<?xml version=\"1.0\" encoding=\"UTF-8\"?><Response><Say>Receiving your call!</Say></Response>"
    );
}
