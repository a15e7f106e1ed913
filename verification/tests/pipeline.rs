use ed25519_dalek::{Keypair, PublicKey, SecretKey, Signer};
use wirt_api::persist::WriteReport;
use wirt_api::pipeline::{
    advance, pending_action, update, Action, Event, Message, Outcome, Stage,
};
use wirt_api::reload::{CommandOutcome, RestartError};
use wirt_api::reply::{Body, ErrorMessage, Rejection, Reply};
use wirt_api::signature::TrustedKey;

fn pair() -> Keypair {
    let secret = SecretKey::from_bytes(&[7u8; 32]).unwrap();
    let public = PublicKey::from(&secret);
    Keypair { secret, public }
}

fn trusted() -> TrustedKey {
    TrustedKey::from_bytes(&pair().public.to_bytes()).unwrap()
}

fn signed(message: &str) -> Message {
    let signature = base64::encode(pair().sign(message.as_bytes()).to_bytes());
    Message { message: message.to_string(), signature }
}

fn exited(success: bool) -> CommandOutcome {
    CommandOutcome::Exited { success, stdout: b"out".to_vec(), stderr: b"err".to_vec() }
}

fn error(code: u16, message: &str) -> Reply {
    Reply { status: code, body: Body::Error(ErrorMessage { code, message: message.to_string() }) }
}

fn drive(events: Vec<Event>) -> (Stage, Vec<Action>) {
    let key = trusted();
    let mut stage = Stage::Received;
    let mut actions = Vec::new();
    for event in events {
        let (next, action) = update(&key, stage, event);
        stage = next;
        actions.push(action);
    }
    (stage, actions)
}

fn effects(actions: &[Action]) -> (usize, usize) {
    let persists = actions.iter().filter(|action| matches!(action, Action::Persist(_))).count();
    let reloads = actions.iter().filter(|action| matches!(action, Action::Reload)).count();
    (persists, reloads)
}

#[test]
fn valid_update_is_applied() {
    let (stage, actions) = drive(vec![
        Event::Request(signed("peer config v1")),
        Event::Written(WriteReport::Overwritten),
        Event::Reloaded(exited(true)),
    ]);
    assert_eq!(stage, Stage::Finished(Outcome::Applied));
    assert_eq!(
        actions,
        vec![
            Action::Persist("peer config v1".to_string()),
            Action::Reload,
            Action::Respond(Reply { status: 200, body: Body::Text("Config updated".to_string()) }),
        ]
    );
}

#[test]
fn altered_message_is_not_authorized() {
    let mut request = signed("peer config v1");
    request.message = "peer config v2".to_string();
    let (stage, actions) = drive(vec![Event::Request(request)]);
    assert_eq!(stage, Stage::Finished(Outcome::AuthenticationFailed));
    assert_eq!(
        actions,
        vec![Action::Respond(error(401, "Not authorized to update configuration"))]
    );
}

#[test]
fn valid_signature_reaches_authenticated() {
    let text = "[Interface]\nListenPort = 51820\n";
    let (stage, action) = update(&trusted(), Stage::Received, Event::Request(signed(text)));
    assert_eq!(stage, Stage::Authenticated(text.to_string()));
    assert_eq!(action, Action::Persist(text.to_string()));
}

#[test]
fn created_file_counts_as_written() {
    let (stage, action) = update(
        &trusted(),
        Stage::Authenticated("text".to_string()),
        Event::Written(WriteReport::Created),
    );
    assert_eq!(stage, Stage::Persisted);
    assert_eq!(action, Action::Reload);
}

#[test]
fn rejected_signature_causes_no_effect() {
    let good = signed("peer config v1");
    let requests = vec![
        Message { message: "peer config v1".to_string(), signature: String::new() },
        Message { message: "peer config v1".to_string(), signature: "not base64!".to_string() },
        Message {
            message: "peer config v1".to_string(),
            signature: good.signature[..good.signature.len() - 4].to_string(),
        },
        Message { message: "peer config v1 ".to_string(), signature: good.signature.clone() },
        Message { message: String::new(), signature: good.signature.clone() },
    ];
    for request in requests {
        let (stage, actions) = drive(vec![
            Event::Request(request),
            Event::Written(WriteReport::Overwritten),
            Event::Reloaded(exited(true)),
            Event::Request(good.clone()),
        ]);
        assert_eq!(stage, Stage::Finished(Outcome::AuthenticationFailed));
        assert_eq!(effects(&actions), (0, 0));
        for action in actions {
            assert_eq!(
                action,
                Action::Respond(error(401, "Not authorized to update configuration"))
            );
        }
    }
}

#[test]
fn failed_write_is_answered_without_reload() {
    let (stage, actions) = drive(vec![
        Event::Request(signed("peer config v1")),
        Event::Written(WriteReport::Failed("Read-only file system (os error 30)".to_string())),
        Event::Reloaded(exited(true)),
    ]);
    assert_eq!(
        stage,
        Stage::Finished(Outcome::PersistError("Read-only file system (os error 30)".to_string()))
    );
    assert_eq!(effects(&actions), (1, 0));
    let reply = error(500, "Could not write config. Please check the server logs");
    assert_eq!(actions[1], Action::Respond(reply.clone()));
    assert_eq!(actions[2], Action::Respond(reply));
}

#[test]
fn failed_reload_is_answered_without_another_write() {
    let (stage, actions) = drive(vec![
        Event::Request(signed("peer config v1")),
        Event::Written(WriteReport::Created),
        Event::Reloaded(exited(false)),
        Event::Written(WriteReport::Created),
    ]);
    assert_eq!(
        stage,
        Stage::Finished(Outcome::ReloadError(RestartError::Failed {
            stdout: b"out".to_vec(),
            stderr: b"err".to_vec(),
        }))
    );
    assert_eq!(effects(&actions), (1, 1));
    let reply = error(500, "Could not restart service. Please check the server logs");
    assert_eq!(actions[0], Action::Persist("peer config v1".to_string()));
    assert_eq!(actions[1], Action::Reload);
    assert_eq!(actions[2], Action::Respond(reply.clone()));
    assert_eq!(actions[3], Action::Respond(reply));
}

#[test]
fn reload_that_did_not_start_is_a_reload_error() {
    let (stage, action) = update(
        &trusted(),
        Stage::Persisted,
        Event::Reloaded(CommandOutcome::NotStarted("not found".to_string())),
    );
    assert_eq!(
        stage,
        Stage::Finished(Outcome::ReloadError(RestartError::NotStarted("not found".to_string())))
    );
    assert_eq!(
        action,
        Action::Respond(error(500, "Could not restart service. Please check the server logs"))
    );
}

#[test]
fn detail_of_a_failure_stays_out_of_the_reply() {
    let secret = "/etc/wireguard/server.conf: Permission denied (os error 13)";
    let (_, action) = update(
        &trusted(),
        Stage::Authenticated("text".to_string()),
        Event::Written(WriteReport::Failed(secret.to_string())),
    );
    match action {
        Action::Respond(reply) => match reply.body {
            Body::Error(body) => assert!(!body.message.contains("os error")),
            _ => panic!("a failure is answered with an error body"),
        },
        _ => panic!("a failure is answered"),
    }
}

#[test]
fn unexpected_event_is_unhandled() {
    let unhandled = Action::Respond(error(500, "UNHANDLED_REJECTION"));
    let cases = vec![
        (Stage::Received, Event::Written(WriteReport::Created)),
        (Stage::Received, Event::Reloaded(exited(true))),
        (Stage::Authenticated("text".to_string()), Event::Request(signed("text"))),
        (Stage::Authenticated("text".to_string()), Event::Reloaded(exited(true))),
        (Stage::Persisted, Event::Request(signed("text"))),
        (Stage::Persisted, Event::Written(WriteReport::Overwritten)),
    ];
    for (stage, event) in cases {
        let (next, action) = update(&trusted(), stage, event);
        assert_eq!(next, Stage::Finished(Outcome::Unhandled));
        assert_eq!(action, unhandled);
    }
}

#[test]
fn finished_request_stays_finished() {
    let outcomes = vec![
        Outcome::Applied,
        Outcome::AuthenticationFailed,
        Outcome::PersistError("detail".to_string()),
        Outcome::ReloadError(RestartError::NotStarted("detail".to_string())),
        Outcome::Unhandled,
    ];
    for outcome in outcomes {
        let events = vec![
            Event::Request(signed("text")),
            Event::Written(WriteReport::Created),
            Event::Reloaded(exited(true)),
        ];
        for event in events {
            let (next, action) = update(&trusted(), Stage::Finished(outcome.clone()), event);
            assert_eq!(next, Stage::Finished(outcome.clone()));
            assert_eq!(action, Action::Respond(outcome.reply()));
        }
    }
}

#[test]
fn effects_come_at_most_once_and_in_order() {
    let runs = vec![
        vec![
            Event::Request(signed("a")),
            Event::Request(signed("b")),
            Event::Written(WriteReport::Created),
        ],
        vec![
            Event::Request(signed("a")),
            Event::Written(WriteReport::Created),
            Event::Written(WriteReport::Created),
            Event::Reloaded(exited(true)),
        ],
        vec![
            Event::Request(signed("a")),
            Event::Written(WriteReport::Created),
            Event::Reloaded(exited(true)),
            Event::Request(signed("b")),
            Event::Written(WriteReport::Created),
            Event::Reloaded(exited(true)),
        ],
        vec![Event::Written(WriteReport::Created), Event::Request(signed("a"))],
    ];
    for events in runs {
        let (_, actions) = drive(events);
        let (persists, reloads) = effects(&actions);
        assert!(persists <= 1);
        assert!(reloads <= 1);
        for (i, action) in actions.iter().enumerate() {
            match action {
                Action::Persist(_) => assert_eq!(i, 0),
                Action::Reload => assert_eq!(i, 1),
                Action::Respond(_) => {}
            }
        }
    }
}

#[test]
fn each_outcome_has_its_rejection() {
    assert_eq!(Outcome::Applied.rejection(), None);
    assert_eq!(Outcome::AuthenticationFailed.rejection(), Some(Rejection::IncorrectSignature));
    assert_eq!(
        Outcome::PersistError("detail".to_string()).rejection(),
        Some(Rejection::FailWritingConfig)
    );
    assert_eq!(
        Outcome::ReloadError(RestartError::Failed { stdout: vec![], stderr: vec![] }).rejection(),
        Some(Rejection::FailRestartingWireguard)
    );
    assert_eq!(Outcome::Unhandled.rejection(), Some(Rejection::Unhandled));
}

#[test]
fn each_outcome_has_its_reply() {
    assert_eq!(
        Outcome::Applied.reply(),
        Reply { status: 200, body: Body::Text("Config updated".to_string()) }
    );
    assert_eq!(
        Outcome::AuthenticationFailed.reply(),
        error(401, "Not authorized to update configuration")
    );
    assert_eq!(
        Outcome::PersistError("detail".to_string()).reply(),
        error(500, "Could not write config. Please check the server logs")
    );
    assert_eq!(
        Outcome::ReloadError(RestartError::NotStarted("detail".to_string())).reply(),
        error(500, "Could not restart service. Please check the server logs")
    );
    assert_eq!(Outcome::Unhandled.reply(), error(500, "UNHANDLED_REJECTION"));
}

#[test]
fn each_stage_asks_for_its_action() {
    assert_eq!(pending_action(&Stage::Received), None);
    assert_eq!(
        pending_action(&Stage::Authenticated("text".to_string())),
        Some(Action::Persist("text".to_string()))
    );
    assert_eq!(pending_action(&Stage::Persisted), Some(Action::Reload));
    assert_eq!(
        pending_action(&Stage::Finished(Outcome::Applied)),
        Some(Action::Respond(Reply {
            status: 200,
            body: Body::Text("Config updated".to_string())
        }))
    );
    assert_eq!(
        pending_action(&Stage::Finished(Outcome::AuthenticationFailed)),
        Some(Action::Respond(error(401, "Not authorized to update configuration")))
    );
}

#[test]
fn verdict_decides_a_request() {
    let request = Message { message: "text".to_string(), signature: "any".to_string() };
    let (stage, action) = advance(Stage::Received, Event::Request(request.clone()), true);
    assert_eq!(stage, Stage::Authenticated("text".to_string()));
    assert_eq!(action, Action::Persist("text".to_string()));
    let (stage, action) = advance(Stage::Received, Event::Request(request), false);
    assert_eq!(stage, Stage::Finished(Outcome::AuthenticationFailed));
    assert_eq!(action, Action::Respond(error(401, "Not authorized to update configuration")));
}

#[test]
fn verdict_decides_nothing_else() {
    for valid in [false, true] {
        let (stage, action) = advance(
            Stage::Authenticated("text".to_string()),
            Event::Written(WriteReport::Overwritten),
            valid,
        );
        assert_eq!((stage, action), (Stage::Persisted, Action::Reload));
        let (stage, _) = advance(Stage::Persisted, Event::Reloaded(exited(true)), valid);
        assert_eq!(stage, Stage::Finished(Outcome::Applied));
        let (stage, _) = advance(Stage::Persisted, Event::Reloaded(exited(false)), valid);
        assert_eq!(
            stage,
            Stage::Finished(Outcome::ReloadError(RestartError::Failed {
                stdout: b"out".to_vec(),
                stderr: b"err".to_vec(),
            }))
        );
        let (stage, _) = advance(Stage::Received, Event::Reloaded(exited(true)), valid);
        assert_eq!(stage, Stage::Finished(Outcome::Unhandled));
        let (stage, _) = advance(
            Stage::Finished(Outcome::AuthenticationFailed),
            Event::Request(signed("text")),
            valid,
        );
        assert_eq!(stage, Stage::Finished(Outcome::AuthenticationFailed));
    }
}

#[test]
fn update_agrees_with_the_verdict_of_the_key() {
    let good = signed("peer config v1");
    let mut bad = good.clone();
    bad.signature = signed("peer config v2").signature;
    assert_eq!(
        update(&trusted(), Stage::Received, Event::Request(good.clone())),
        advance(Stage::Received, Event::Request(good), true)
    );
    assert_eq!(
        update(&trusted(), Stage::Received, Event::Request(bad.clone())),
        advance(Stage::Received, Event::Request(bad), false)
    );
}
