//! Webhook alerts: which configured endpoints an alert goes to, and the
//! JSON body each kind of endpoint receives (Slack, Discord, or the alert
//! itself). Sending is network I/O and lives with the application.
//!
//! Bodies are written as serde_json writes a `Value`: compact, object keys
//! sorted.
use vstd::prelude::*;
use vstd::string::StringExecFns;
use crate::jsonrpc::{json_string, push_json_string};
use crate::text::{copy_str, decimal_i64, decimal_int, str_eq};

verus! {

/// Kind of webhook endpoint.
#[derive(Debug, Clone, Copy, PartialEq, Eq, Structural)]
pub enum WebhookType {
    /// A Slack incoming webhook.
    Slack,
    /// A Discord webhook.
    Discord,
    /// Any endpoint taking the alert as JSON.
    Generic,
}

/// Configuration of one webhook.
pub struct WebhookConfig {
    /// Where alerts are posted.
    pub url: String,
    /// Kind of endpoint.
    pub webhook_type: WebhookType,
    /// Only alerts of these events (all when empty).
    pub event_filter: Vec<String>,
    /// Only alerts of these statuses (all when empty).
    pub status_filter: Vec<String>,
    /// Whether the webhook is on.
    pub enabled: bool,
}

/// An alert about a security event.
pub struct AlertPayload {
    /// The event, such as `TOOL_CALL`.
    pub event: String,
    /// The tool concerned.
    pub tool_name: String,
    /// The outcome, such as `DENIED`.
    pub status: String,
    /// When it happened (RFC 3339).
    pub timestamp: String,
    /// The rule that matched, if any.
    pub policy_match: Option<String>,
    /// Further details, if any.
    pub details: Option<String>,
}

/// Whether a filter lets `value` through: an empty filter lets everything
/// through, another one only its own entries.
pub open spec fn filter_passes(filter: Seq<Seq<char>>, value: Seq<char>) -> bool {
    filter.len() == 0 || filter.contains(value)
}

/// Whether a webhook receives an alert: it is on and both of its filters
/// let the alert through.
pub open spec fn receives(c: WebhookConfig, alert: AlertPayload) -> bool {
    &&& c.enabled
    &&& filter_passes(c.event_filter@.map_values(|s: String| s@), alert.event@)
    &&& filter_passes(c.status_filter@.map_values(|s: String| s@), alert.status@)
}

/// Whether a filter lets `value` through.
fn passes(filter: &Vec<String>, value: &str) -> (r: bool)
    ensures
        r == filter_passes(filter@.map_values(|s: String| s@), value@),
{
    let ghost fv = filter@.map_values(|s: String| s@);
    if filter.len() == 0 {
        return true;
    }
    let mut k: usize = 0;
    while k < filter.len()
        invariant
            k <= filter@.len(),
            fv == filter@.map_values(|s: String| s@),
            forall|j: int| 0 <= j < k ==> fv[j] != value@,
        decreases filter.len() - k,
    {
        if str_eq(filter[k].as_str(), value) {
            assert(fv[k as int] == value@);
            return true;
        }
        k = k + 1;
    }
    false
}

impl WebhookConfig {
    /// Whether this webhook receives the alert.
    pub fn accepts(&self, alert: &AlertPayload) -> (r: bool)
        ensures
            r == receives(*self, *alert),
    {
        self.enabled && passes(&self.event_filter, alert.event.as_str()) && passes(
            &self.status_filter,
            alert.status.as_str(),
        )
    }
}

/// The icon of an alert: a no-entry sign for a denial, a check mark
/// otherwise.
pub open spec fn alert_icon(status: Seq<char>) -> Seq<char> {
    if status == "DENIED"@ {
        ":no_entry:"@
    } else {
        ":white_check_mark:"@
    }
}

/// The policy shown for an alert: its match, or "N/A".
pub open spec fn shown_policy(p: Option<String>) -> Seq<char> {
    match p {
        Some(s) => s@,
        None => "N/A"@,
    }
}

/// A JSON string or `null`.
pub open spec fn json_opt(o: Option<String>) -> Seq<char> {
    match o {
        Some(s) => json_string(s@),
        None => "null"@,
    }
}

/// One field of a chat message: its flag key (`short` or `inline`) set,
/// its label under `label_key`, and its value.
pub open spec fn chat_field(flag_key: Seq<char>, label_key: Seq<char>, label: Seq<char>, value: Seq<char>) -> Seq<char> {
    "{\""@ + flag_key + "\":true,\""@ + label_key + "\":"@ + json_string(label) + ",\"value\":"@
        + json_string(value) + "}"@
}

/// The four fields of a chat message: event, status, tool and policy.
pub open spec fn chat_fields(flag_key: Seq<char>, label_key: Seq<char>, a: AlertPayload) -> Seq<char> {
    "["@ + chat_field(flag_key, label_key, "Event"@, a.event@) + ","@ + chat_field(
        flag_key,
        label_key,
        "Status"@,
        a.status@,
    ) + ","@ + chat_field(flag_key, label_key, "Tool"@, a.tool_name@) + ","@ + chat_field(
        flag_key,
        label_key,
        "Policy"@,
        shown_policy(a.policy_match),
    ) + "]"@
}

/// The Slack body of an alert sent at `now_secs` (Unix seconds): one
/// attachment, red for a denial and green otherwise.
pub open spec fn slack_text(a: AlertPayload, now_secs: i64) -> Seq<char> {
    "{\"attachments\":[{\"color\":"@ + json_string(
        if a.status@ == "DENIED"@ {
            "danger"@
        } else {
            "good"@
        },
    ) + ",\"fields\":"@ + chat_fields("short"@, "title"@, a) + ",\"footer\":\"zn Security Proxy\",\"title\":"@
        + json_string(alert_icon(a.status@) + " zn Security Alert"@) + ",\"ts\":"@ + decimal_int(
        now_secs as int,
    ) + "}]}"@
}

/// The Discord body of an alert: one embed, red for a denial and green
/// otherwise.
pub open spec fn discord_text(a: AlertPayload) -> Seq<char> {
    "{\"embeds\":[{\"color\":"@ + (if a.status@ == "DENIED"@ {
        "16711680"@
    } else {
        "65280"@
    }) + ",\"fields\":"@ + chat_fields("inline"@, "name"@, a)
        + ",\"footer\":{\"text\":\"zn Security Proxy\"},\"timestamp\":"@ + json_string(a.timestamp@)
        + ",\"title\":"@ + json_string(alert_icon(a.status@) + " zn Security Alert"@) + "}]}"@
}

/// The generic body of an alert: the alert itself.
pub open spec fn generic_text(a: AlertPayload) -> Seq<char> {
    "{\"details\":"@ + json_opt(a.details) + ",\"event\":"@ + json_string(a.event@)
        + ",\"policy_match\":"@ + json_opt(a.policy_match) + ",\"status\":"@ + json_string(a.status@)
        + ",\"timestamp\":"@ + json_string(a.timestamp@) + ",\"tool_name\":"@ + json_string(
        a.tool_name@,
    ) + "}"@
}

/// Appends one field of a chat message.
fn push_chat_field(out: &mut String, flag_key: &str, label_key: &str, label: &str, value: &str)
    ensures
        final(out)@ == old(out)@ + chat_field(flag_key@, label_key@, label@, value@),
{
    out.append("{\"");
    out.append(flag_key);
    out.append("\":true,\"");
    out.append(label_key);
    out.append("\":");
    push_json_string(out, label);
    out.append(",\"value\":");
    push_json_string(out, value);
    out.append("}");
    assert(final(out)@ =~= old(out)@ + chat_field(flag_key@, label_key@, label@, value@));
}

/// Appends the four fields of a chat message.
fn push_chat_fields(out: &mut String, flag_key: &str, label_key: &str, a: &AlertPayload)
    ensures
        final(out)@ == old(out)@ + chat_fields(flag_key@, label_key@, *a),
{
    let policy = match &a.policy_match {
        Some(p) => copy_str(p.as_str()),
        None => copy_str("N/A"),
    };
    out.append("[");
    push_chat_field(out, flag_key, label_key, "Event", a.event.as_str());
    out.append(",");
    push_chat_field(out, flag_key, label_key, "Status", a.status.as_str());
    out.append(",");
    push_chat_field(out, flag_key, label_key, "Tool", a.tool_name.as_str());
    out.append(",");
    push_chat_field(out, flag_key, label_key, "Policy", policy.as_str());
    out.append("]");
    assert(final(out)@ =~= old(out)@ + chat_fields(flag_key@, label_key@, *a));
}

/// The title of an alert: its icon and the product name.
fn alert_title(status: &str) -> (t: String)
    ensures
        t@ == alert_icon(status@) + " zn Security Alert"@,
{
    let mut t = if str_eq(status, "DENIED") {
        copy_str(":no_entry:")
    } else {
        copy_str(":white_check_mark:")
    };
    t.append(" zn Security Alert");
    t
}

/// The Slack body of an alert sent at `now_secs` (Unix seconds).
pub fn format_slack(a: &AlertPayload, now_secs: i64) -> (s: String)
    ensures
        s@ == slack_text(*a, now_secs),
{
    let denied = str_eq(a.status.as_str(), "DENIED");
    let mut s = copy_str("{\"attachments\":[{\"color\":");
    push_json_string(&mut s, if denied { "danger" } else { "good" });
    s.append(",\"fields\":");
    push_chat_fields(&mut s, "short", "title", a);
    s.append(",\"footer\":\"zn Security Proxy\",\"title\":");
    let title = alert_title(a.status.as_str());
    push_json_string(&mut s, title.as_str());
    s.append(",\"ts\":");
    let ts = decimal_i64(now_secs);
    s.append(ts.as_str());
    s.append("}]}");
    s
}

/// The Discord body of an alert.
pub fn format_discord(a: &AlertPayload) -> (s: String)
    ensures
        s@ == discord_text(*a),
{
    let denied = str_eq(a.status.as_str(), "DENIED");
    let mut s = copy_str("{\"embeds\":[{\"color\":");
    s.append(if denied { "16711680" } else { "65280" });
    s.append(",\"fields\":");
    push_chat_fields(&mut s, "inline", "name", a);
    s.append(",\"footer\":{\"text\":\"zn Security Proxy\"},\"timestamp\":");
    push_json_string(&mut s, a.timestamp.as_str());
    s.append(",\"title\":");
    let title = alert_title(a.status.as_str());
    push_json_string(&mut s, title.as_str());
    s.append("}]}");
    s
}

/// Appends a JSON string or `null`.
fn push_json_opt(out: &mut String, o: &Option<String>)
    ensures
        final(out)@ == old(out)@ + json_opt(*o),
{
    match o {
        Some(s) => push_json_string(out, s.as_str()),
        None => out.append("null"),
    }
}

/// The generic body of an alert: the alert as a JSON object.
pub fn generic_body(a: &AlertPayload) -> (s: String)
    ensures
        s@ == generic_text(*a),
{
    let mut s = copy_str("{\"details\":");
    push_json_opt(&mut s, &a.details);
    s.append(",\"event\":");
    push_json_string(&mut s, a.event.as_str());
    s.append(",\"policy_match\":");
    push_json_opt(&mut s, &a.policy_match);
    s.append(",\"status\":");
    push_json_string(&mut s, a.status.as_str());
    s.append(",\"timestamp\":");
    push_json_string(&mut s, a.timestamp.as_str());
    s.append(",\"tool_name\":");
    push_json_string(&mut s, a.tool_name.as_str());
    s.append("}");
    s
}

/// The body a webhook of the given kind receives for an alert sent at
/// `now_secs` (Unix seconds).
pub fn webhook_body(kind: WebhookType, a: &AlertPayload, now_secs: i64) -> (s: String)
    ensures
        s@ == match kind {
            WebhookType::Slack => slack_text(*a, now_secs),
            WebhookType::Discord => discord_text(*a),
            WebhookType::Generic => generic_text(*a),
        },
{
    match kind {
        WebhookType::Slack => format_slack(a, now_secs),
        WebhookType::Discord => format_discord(a),
        WebhookType::Generic => generic_body(a),
    }
}

} // verus!
