use std::collections::VecDeque;
use zn::batch::{flush_due, take_batch, BatchBuffer, BatchConfig};
use zn::webhooks::{
    format_discord, format_slack, generic_body, webhook_body, AlertPayload, WebhookConfig,
    WebhookType,
};

#[test]
fn test_batch_buffer_push_pop() {
    let mut buffer = BatchBuffer::new(10);

    let item = "test".to_string();
    assert!(buffer.push(item));
    assert_eq!(buffer.size(), 1);

    let popped = buffer.pop();
    assert!(popped.is_some());
    assert_eq!(buffer.size(), 0);
}

#[test]
fn test_batch_buffer_overflow() {
    let mut buffer = BatchBuffer::new(2);

    assert!(buffer.push("1".to_string()));
    assert!(buffer.push("2".to_string()));
    assert!(!buffer.push("3".to_string()));

    let stats = buffer.stats();
    assert_eq!(stats.total_dropped, 1);
    assert_eq!(stats.total_processed, 0);
}

#[test]
fn test_batch_buffer_stats() {
    let mut buffer = BatchBuffer::new(10);

    buffer.push("1".to_string());
    buffer.push("2".to_string());
    buffer.pop();

    let stats = buffer.stats();
    assert_eq!(stats.size, 1);
    assert_eq!(stats.max_size, 10);
    assert_eq!(stats.total_processed, 1);
    assert_eq!(stats.total_dropped, 0);
}

#[test]
fn buffer_is_first_in_first_out() {
    let mut buffer = BatchBuffer::new(3);
    buffer.push(1u32);
    buffer.push(2);
    buffer.push(3);
    assert_eq!(buffer.pop(), Some(1));
    buffer.push(4);
    assert_eq!(buffer.pop(), Some(2));
    assert_eq!(buffer.pop(), Some(3));
    assert_eq!(buffer.pop(), Some(4));
    assert_eq!(buffer.pop(), None);
    assert_eq!(buffer.stats().total_processed, 4);
}

#[test]
fn batches_are_taken_in_order() {
    let mut q: VecDeque<u32> = (0..5).collect();
    assert_eq!(take_batch(&mut q, 2), vec![0, 1]);
    assert_eq!(take_batch(&mut q, 10), vec![2, 3, 4]);
    assert!(take_batch(&mut q, 10).is_empty());
}

#[test]
fn batch_due_rules() {
    let c = BatchConfig::default();
    assert_eq!(c.batch_size, 32);
    assert!(flush_due(32, 32, 0, 100));
    assert!(!flush_due(5, 32, 99, 100));
    assert!(flush_due(5, 32, 100, 100));
    assert!(!flush_due(0, 32, 1000, 100));
}

fn alert(status: &str, policy: Option<&str>) -> AlertPayload {
    AlertPayload {
        event: "TOOL_CALL".to_string(),
        tool_name: "dangerous_tool".to_string(),
        status: status.to_string(),
        timestamp: "2024-01-15T10:00:00Z".to_string(),
        policy_match: policy.map(|p| p.to_string()),
        details: None,
    }
}

#[test]
fn test_alert_payload_serialization() {
    let alert = alert("DENIED", Some("default_security"));
    let json = generic_body(&alert);
    assert!(json.contains("DENIED"));
    assert!(json.contains("dangerous_tool"));
}

#[test]
fn generic_body_is_the_alert_as_json() {
    let a = alert("DENIED", Some("default_security"));
    assert_eq!(
        generic_body(&a),
        "{\"details\":null,\"event\":\"TOOL_CALL\",\"policy_match\":\"default_security\",\"status\":\"DENIED\",\"timestamp\":\"2024-01-15T10:00:00Z\",\"tool_name\":\"dangerous_tool\"}"
    );
    let v: serde_json::Value = serde_json::from_str(&generic_body(&a)).unwrap();
    assert_eq!(v["status"], "DENIED");
}

#[test]
fn slack_body_marks_denials() {
    let a = alert("DENIED", None);
    let s = format_slack(&a, 1705312800);
    assert_eq!(
        s,
        "{\"attachments\":[{\"color\":\"danger\",\"fields\":[{\"short\":true,\"title\":\"Event\",\"value\":\"TOOL_CALL\"},{\"short\":true,\"title\":\"Status\",\"value\":\"DENIED\"},{\"short\":true,\"title\":\"Tool\",\"value\":\"dangerous_tool\"},{\"short\":true,\"title\":\"Policy\",\"value\":\"N/A\"}],\"footer\":\"zn Security Proxy\",\"title\":\":no_entry: zn Security Alert\",\"ts\":1705312800}]}"
    );
    let v: serde_json::Value = serde_json::from_str(&s).unwrap();
    assert_eq!(v["attachments"][0]["ts"], 1705312800);
}

#[test]
fn discord_body_colors_by_status() {
    let allowed = format_discord(&alert("ALLOWED", Some("p")));
    let v: serde_json::Value = serde_json::from_str(&allowed).unwrap();
    assert_eq!(v["embeds"][0]["color"], 0x00FF00);
    assert_eq!(v["embeds"][0]["title"], ":white_check_mark: zn Security Alert");
    assert_eq!(v["embeds"][0]["fields"][3]["value"], "p");
    assert_eq!(v["embeds"][0]["footer"]["text"], "zn Security Proxy");
    let denied = webhook_body(WebhookType::Discord, &alert("DENIED", None), 0);
    let v: serde_json::Value = serde_json::from_str(&denied).unwrap();
    assert_eq!(v["embeds"][0]["color"], 0xFF0000);
}

#[test]
fn webhook_filters() {
    let mut c = WebhookConfig {
        url: "https://example.com/webhook".to_string(),
        webhook_type: WebhookType::Generic,
        event_filter: vec![],
        status_filter: vec!["DENIED".to_string()],
        enabled: true,
    };
    assert!(c.accepts(&alert("DENIED", None)));
    assert!(!c.accepts(&alert("ALLOWED", None)));
    c.event_filter = vec!["POLICY_DENY".to_string()];
    assert!(!c.accepts(&alert("DENIED", None)));
    c.event_filter = vec![];
    c.enabled = false;
    assert!(!c.accepts(&alert("DENIED", None)));
}
