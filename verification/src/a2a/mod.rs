//! Agent-to-agent (A2A) protocol support: the task methods, and the
//! virtual tool name under which an A2A call is checked against policy.
use vstd::prelude::*;
use vstd::string::StringExecFns;
use serde_json::Value;
use crate::text::{copy_str, str_eq, strip_prefixes, trim_start_matches};

verus! {

/// Sends a task to an agent.
pub const METHOD_SEND: &'static str = "tasks/send";

/// Reads a task.
pub const METHOD_GET: &'static str = "tasks/get";

/// Lists tasks.
pub const METHOD_LIST: &'static str = "tasks/list";

/// Cancels a task.
pub const METHOD_CANCEL: &'static str = "tasks/cancel";

#[verifier::external_type_specification]
#[verifier::external_body]
pub struct ExValue(Value);

/// Parameters of an A2A JSON-RPC request.
pub struct A2AParams {
    /// Target agent or topic.
    pub recipient: String,
    /// The task payload.
    pub task: Value,
    /// Optional urgency: low, normal, high or critical.
    pub priority: Option<String>,
    /// Optional correlation identifier of a thread.
    pub thread_id: Option<String>,
}

/// The A2A task methods.
pub open spec fn a2a_methods() -> Seq<Seq<char>> {
    seq![METHOD_SEND@, METHOD_GET@, METHOD_LIST@, METHOD_CANCEL@]
}

/// Whether `method` is one of the A2A task methods.
pub fn is_a2a_method(method: &str) -> (r: bool)
    ensures
        r == a2a_methods().contains(method@),
{
    let r = str_eq(method, METHOD_SEND) || str_eq(method, METHOD_GET) || str_eq(method, METHOD_LIST)
        || str_eq(method, METHOD_CANCEL);
    assert(a2a_methods()[0] == METHOD_SEND@);
    assert(a2a_methods()[1] == METHOD_GET@);
    assert(a2a_methods()[2] == METHOD_LIST@);
    assert(a2a_methods()[3] == METHOD_CANCEL@);
    r
}

/// The virtual tool name of an A2A call: `a2a:{action}:{recipient}` with a
/// nonempty recipient, else `a2a:{action}`, the action being the method
/// without its leading `tasks/` prefixes.
pub open spec fn policy_context_text(method: Seq<char>, recipient: Option<Seq<char>>) -> Seq<char> {
    let action = strip_prefixes(method, "tasks/"@);
    match recipient {
        Some(t) => if t.len() > 0 {
            "a2a:"@ + action + seq![':'] + t
        } else {
            "a2a:"@ + action
        },
        None => "a2a:"@ + action,
    }
}

/// Resolves the virtual tool name of an A2A call for policy checking,
/// given its method and the `recipient` string member of its parameters
/// (if it has one; reading it from the JSON is the caller's part): routes
/// to a named recipient as `a2a:{action}:{recipient}`, others as
/// `a2a:{action}`.
pub fn resolve_policy_context(method: &str, recipient: Option<&str>) -> (s: String)
    ensures
        s@ == policy_context_text(method@, match recipient {
            Some(t) => Some(t@),
            None => None,
        }),
{
    let action = trim_start_matches(method, "tasks/");
    let mut s = copy_str("a2a:");
    s.append(action.as_str());
    match recipient {
        Some(t) => {
            if t.unicode_len() > 0 {
                s.append(":");
                s.append(t);
                proof {
                    reveal_strlit(":");
                }
                assert(s@ =~= "a2a:"@ + action@ + seq![':'] + t@);
            }
        },
        None => {},
    }
    s
}

} // verus!
