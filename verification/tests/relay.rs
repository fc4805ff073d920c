use hmac::{Hmac, KeyInit, Mac};
use sha2::Sha256;

use linear_relay::card::{build_lark_card, priority_color, priority_label, CardElement};
use linear_relay::event::{Assignee, Issue, IssueState, LinearPayload};
use linear_relay::handler::{
    classify, health, is_success_status, response_after_delivery, webhook_accept, webhook_plan,
    Classification, Outcome, WebhookPlan, WebhookStep,
};
use linear_relay::json::message_to_json;
use linear_relay::sig::verify_signature;

fn signature_of(secret: &str, body: &[u8]) -> String {
    let mut mac = Hmac::<Sha256>::new_from_slice(secret.as_bytes()).unwrap();
    Mac::update(&mut mac, body);
    hex::encode(Mac::finalize(mac).into_bytes())
}

fn sample_payload(action: &str, kind: &str) -> LinearPayload {
    LinearPayload {
        action: action.to_string(),
        kind: kind.to_string(),
        data: Issue {
            id: "abc-123".to_string(),
            title: "Fix bug".to_string(),
            priority: 2,
            state: IssueState {
                name: "In Progress".to_string(),
            },
            assignee: Some(Assignee {
                name: "Ada".to_string(),
            }),
            identifier: "ENG-42".to_string(),
        },
        url: "https://example/ENG-42".to_string(),
    }
}

#[test]
fn correct_signature_verifies() {
    let body = b"{\"action\":\"create\"}";
    let sig = signature_of("s3cr3t", body);
    assert!(verify_signature("s3cr3t", body, &sig));
}

#[test]
fn mutated_signature_is_rejected() {
    let body = b"{\"action\":\"create\"}";
    let sig = signature_of("s3cr3t", body);
    let mut bytes = sig.into_bytes();
    bytes[0] = if bytes[0] == b'0' { b'1' } else { b'0' };
    let mutated = String::from_utf8(bytes).unwrap();
    assert!(!verify_signature("s3cr3t", body, &mutated));
}

#[test]
fn mutated_body_is_rejected() {
    let body = b"{\"action\":\"create\"}";
    let sig = signature_of("s3cr3t", body);
    let mut other = body.to_vec();
    other[0] = b' ';
    assert!(!verify_signature("s3cr3t", &other, &sig));
}

#[test]
fn wrong_secret_is_rejected() {
    let body = b"payload";
    let sig = signature_of("s3cr3t", body);
    assert!(!verify_signature("other", body, &sig));
}

#[test]
fn empty_secret_is_rejected() {
    let body = b"payload";
    let sig = signature_of("", body);
    assert!(!verify_signature("", body, &sig));
}

#[test]
fn known_test_vector_verifies() {
    // HMAC-SHA256 with key "Jefe" over "what do ya want for nothing?",
    // a published test vector.
    let expected = "5bdcc146bf60754e6a042426089575c75a003f089d2739839dec58b964ec3843";
    assert!(verify_signature(
        "Jefe",
        b"what do ya want for nothing?",
        expected
    ));
}

#[test]
fn empty_body_verifies_with_its_own_signature() {
    let sig = signature_of("s3cr3t", b"");
    assert_eq!(sig.len(), 64);
    assert!(verify_signature("s3cr3t", b"", &sig));
    assert!(!verify_signature("s3cr3t", b"x", &sig));
}

#[test]
fn priority_color_is_total() {
    assert_eq!(priority_color(0), "blue");
    assert_eq!(priority_color(1), "red");
    assert_eq!(priority_color(2), "orange");
    assert_eq!(priority_color(3), "yellow");
    assert_eq!(priority_color(4), "blue");
    assert_eq!(priority_color(99), "blue");
    assert_eq!(priority_color(255), "blue");
}

#[test]
fn priority_label_is_total() {
    assert_eq!(priority_label(0), "None");
    assert_eq!(priority_label(1), "Urgent");
    assert_eq!(priority_label(2), "High");
    assert_eq!(priority_label(3), "Medium");
    assert_eq!(priority_label(4), "Low");
    assert_eq!(priority_label(99), "None");
    assert_eq!(priority_label(255), "None");
}

#[test]
fn issue_create_is_notified() {
    let payload = sample_payload("create", "Issue");
    assert!(matches!(classify(&payload), Classification::Notify(_)));
}

#[test]
fn issue_update_is_notified() {
    let payload = sample_payload("update", "Issue");
    assert!(matches!(classify(&payload), Classification::Notify(_)));
}

#[test]
fn project_events_are_skipped() {
    for action in ["create", "update", "delete"] {
        let payload = sample_payload(action, "Project");
        assert!(matches!(classify(&payload), Classification::Skip));
    }
}

#[test]
fn issue_delete_is_skipped() {
    let payload = sample_payload("delete", "Issue");
    assert!(matches!(classify(&payload), Classification::Skip));
}

#[test]
fn card_holds_the_documented_values() {
    let payload = sample_payload("update", "Issue");
    let message = build_lark_card(&payload);
    assert_eq!(message.card.header.template, "orange");
    assert_eq!(message.card.header.title, "[Linear] Updated: ENG-42");
    assert_eq!(message.card.elements.len(), 3);
    match &message.card.elements[0] {
        CardElement::TitleBlock { content } => assert_eq!(content, "**Fix bug**"),
        _ => panic!("first element must be the title block"),
    }
    match &message.card.elements[1] {
        CardElement::FieldsBlock { fields } => {
            assert_eq!(fields.len(), 3);
            assert_eq!(fields[0].content, "**Status:** In Progress");
            assert_eq!(fields[1].content, "**Priority:** High");
            assert_eq!(fields[2].content, "**Assignee:** Ada");
        }
        _ => panic!("second element must be the fields block"),
    }
    match &message.card.elements[2] {
        CardElement::ActionBlock { url } => assert_eq!(url, "https://example/ENG-42"),
        _ => panic!("third element must be the action block"),
    }
}

#[test]
fn unassigned_issue_shows_the_placeholder() {
    let mut payload = sample_payload("create", "Issue");
    payload.data.assignee = None;
    let message = build_lark_card(&payload);
    match &message.card.elements[1] {
        CardElement::FieldsBlock { fields } => {
            assert_eq!(fields[2].content, "**Assignee:** Unassigned");
        }
        _ => panic!("second element must be the fields block"),
    }
}

#[test]
fn message_json_is_exact() {
    let payload = sample_payload("update", "Issue");
    let json = message_to_json(&build_lark_card(&payload));
    let expected = "{\"msg_type\":\"interactive\",\"card\":{\"header\":{\"template\":\"orange\",\"title\":{\"content\":\"[Linear] Updated: ENG-42\",\"tag\":\"plain_text\"}},\"elements\":[{\"tag\":\"div\",\"text\":{\"tag\":\"lark_md\",\"content\":\"**Fix bug**\"}},{\"tag\":\"div\",\"fields\":[{\"is_short\":true,\"text\":{\"tag\":\"lark_md\",\"content\":\"**Status:** In Progress\"}},{\"is_short\":true,\"text\":{\"tag\":\"lark_md\",\"content\":\"**Priority:** High\"}},{\"is_short\":true,\"text\":{\"tag\":\"lark_md\",\"content\":\"**Assignee:** Ada\"}}]},{\"tag\":\"action\",\"actions\":[{\"tag\":\"button\",\"text\":{\"tag\":\"plain_text\",\"content\":\"View in Linear\"},\"type\":\"primary\",\"url\":\"https://example/ENG-42\"}]}]}}";
    assert_eq!(json, expected);
}

#[test]
fn message_json_escapes_and_stays_valid_json() {
    let mut payload = sample_payload("create", "Issue");
    payload.data.title = "a\"b\\c\nd\te\u{1}f".to_string();
    let json = message_to_json(&build_lark_card(&payload));
    let value: serde_json::Value = serde_json::from_str(&json).unwrap();
    let content = value["card"]["elements"][0]["text"]["content"].as_str().unwrap();
    assert_eq!(content, "**a\"b\\c\nd\te\u{1}f**");
    assert_eq!(value["msg_type"].as_str().unwrap(), "interactive");
}

#[test]
fn valid_signature_and_issue_update_is_forwarded_once() {
    let body = b"{\"type\":\"Issue\",\"action\":\"update\"}";
    let sig = signature_of("s3cr3t", body);
    let step = webhook_accept("s3cr3t", body, Some(&sig));
    assert!(matches!(step, WebhookStep::NeedsPayload));

    let payload = sample_payload("update", "Issue");
    match webhook_plan(Some(&payload)) {
        WebhookPlan::Send(json) => {
            assert!(json.contains("[Linear] Updated: ENG-42"));
            assert!(json.contains("\"template\":\"orange\""));
            assert!(json.contains("**Status:** In Progress"));
            assert!(json.contains("**Priority:** High"));
            assert!(json.contains("**Assignee:** Ada"));
        }
        WebhookPlan::Respond(code) => panic!("expected a send, got a bare {code} response"),
    }
}

#[test]
fn missing_signature_answers_unauthorized() {
    let body = b"{\"type\":\"Issue\",\"action\":\"update\"}";
    let step = webhook_accept("s3cr3t", body, None);
    assert!(matches!(step, WebhookStep::Reject(401)));
}

#[test]
fn invalid_signature_answers_unauthorized() {
    let body = b"{\"type\":\"Issue\",\"action\":\"update\"}";
    let step = webhook_accept("s3cr3t", body, Some("deadbeef"));
    assert!(matches!(step, WebhookStep::Reject(401)));
}

#[test]
fn comment_event_is_accepted_but_not_forwarded() {
    let body = b"{\"type\":\"Comment\",\"action\":\"create\"}";
    let sig = signature_of("s3cr3t", body);
    let step = webhook_accept("s3cr3t", body, Some(&sig));
    assert!(matches!(step, WebhookStep::NeedsPayload));

    let payload = sample_payload("create", "Comment");
    match webhook_plan(Some(&payload)) {
        WebhookPlan::Respond(code) => assert_eq!(code, 200),
        WebhookPlan::Send(_) => panic!("a comment event must not be forwarded"),
    }
}

#[test]
fn undecodable_body_answers_bad_request() {
    match webhook_plan(None) {
        WebhookPlan::Respond(code) => assert_eq!(code, 400),
        WebhookPlan::Send(_) => panic!("an undecodable body must not be forwarded"),
    }
}

#[test]
fn delivery_failure_still_answers_ok() {
    let failed = Outcome::Failed("connection refused".to_string());
    assert_eq!(response_after_delivery(&failed), 200);
    let rejected = Outcome::Sent(500, "server error".to_string());
    assert_eq!(response_after_delivery(&rejected), 200);
    let sent = Outcome::Sent(200, "ok".to_string());
    assert_eq!(response_after_delivery(&sent), 200);
}

#[test]
fn success_statuses_are_the_two_hundreds() {
    assert!(is_success_status(200));
    assert!(is_success_status(204));
    assert!(is_success_status(299));
    assert!(!is_success_status(199));
    assert!(!is_success_status(300));
    assert!(!is_success_status(500));
}

#[test]
fn health_answers_the_fixed_body() {
    assert_eq!(health(), "ok");
}
