use kraken_collector::collectors::email::{
    attachment_decision, check_allowed_sender, data_end_decision, data_end_reply_code,
    mail_decision, select_body_parts, AttachmentDecision, DataEndDecision, MailDecision,
};

#[test]
fn empty_allow_list_lets_everyone_in() {
    let allowed: Vec<String> = Vec::new();
    assert!(check_allowed_sender("anyone@example.com", &allowed));
}

#[test]
fn listed_fragment_admits_the_sender() {
    let allowed = vec!["@example.com".to_string(), "ops@".to_string()];
    assert!(check_allowed_sender("alice@example.com", &allowed));
    assert!(check_allowed_sender("ops@other.net", &allowed));
    assert!(!check_allowed_sender("bob@elsewhere.org", &allowed));
}

#[test]
fn unauthorized_sender_is_rejected() {
    let allowed = vec!["@example.com".to_string()];
    assert_eq!(mail_decision("eve@intruder.net", &allowed), MailDecision::RejectUnauthorized);
    assert_eq!(mail_decision("alice@example.com", &allowed), MailDecision::Accept);
}

#[test]
fn oversized_message_is_refused_before_queueing() {
    assert_eq!(data_end_decision(1_001, 1_000, true), DataEndDecision::TooLarge);
    assert_eq!(data_end_decision(1_000, 1_000, true), DataEndDecision::Accepted);
    assert_eq!(data_end_decision(500, 1_000, false), DataEndDecision::QueueUnavailable);
}

#[test]
fn reply_codes_match_the_verdicts() {
    assert_eq!(data_end_reply_code(DataEndDecision::Accepted), 250);
    assert_eq!(data_end_reply_code(DataEndDecision::TooLarge), 552);
    assert_eq!(data_end_reply_code(DataEndDecision::QueueUnavailable), 451);
}

#[test]
fn attachments_need_a_filename_and_must_fit() {
    assert_eq!(attachment_decision(0, 10, 100), AttachmentDecision::NoFilename);
    assert_eq!(attachment_decision(5, 101, 100), AttachmentDecision::TooLarge);
    assert_eq!(attachment_decision(5, 100, 100), AttachmentDecision::Take);
}

#[test]
fn first_text_and_html_parts_are_selected() {
    let parts = vec![
        ("application/pdf".to_string(), "raw".to_string()),
        ("text/html".to_string(), "<p>second</p>".to_string()),
        ("text/plain".to_string(), "first".to_string()),
        ("text/plain".to_string(), "later".to_string()),
        ("text/html".to_string(), "<p>later</p>".to_string()),
    ];
    let (text_at, html_at) = select_body_parts(&parts);
    assert_eq!(text_at, Some(2));
    assert_eq!(html_at, Some(1));
}

#[test]
fn missing_parts_select_nothing() {
    let parts = vec![("application/pdf".to_string(), "raw".to_string())];
    let (text_at, html_at) = select_body_parts(&parts);
    assert_eq!(text_at, None);
    assert_eq!(html_at, None);
}
