//! MCP server pool policy: which commands may be launched as MCP servers,
//! which environment variables a server configuration may not set, how a
//! connection is made and retried, and which responses are cached.
//! Launching, connecting and talking to servers is I/O and lives with the
//! application.
use vstd::prelude::*;
use std::collections::HashMap;
use std::path::Path;
use crate::text::{
    all_ascii, ascii_upper, copy_str, str_eq, strip_suffixes, to_lowercase,
    to_uppercase, trim_end_matches, unicode_lowercase, unicode_uppercase,
};

verus! {

/// Configuration of an MCP server.
pub struct McpServerConfig {
    /// Command to execute (stdio transport).
    pub command: Option<String>,
    /// Command line arguments.
    pub args: Vec<String>,
    /// Environment variables.
    pub env: HashMap<String, String>,
    /// URL of the server (WebSocket transport).
    pub url: Option<String>,
}

/// The commands that may be launched as MCP servers.
pub open spec fn allowed_commands() -> Seq<Seq<char>> {
    seq![
        "node"@,
        "npx"@,
        "python"@,
        "python3"@,
        "uvx"@,
        "uv"@,
        "cargo"@,
        "deno"@,
        "bun"@,
    ]
}

/// The base name of a command file name: lowercased, then without trailing
/// `.exe` and then without trailing `.cmd` extensions.
pub open spec fn command_base(name: Seq<char>) -> Seq<char> {
    strip_suffixes(strip_suffixes(unicode_lowercase(name), ".exe"@), ".cmd"@)
}

/// Why a command was refused.
#[derive(Debug, Clone, Copy, PartialEq, Eq, Structural)]
pub enum CommandError {
    /// The command is not in the allowed list.
    NotAllowed,
}

/// The message of a refusal of `command`, naming the allowed commands.
pub open spec fn not_allowed_message(command: Seq<char>) -> Seq<char> {
    "Command '"@ + command
        + "' is not in the allowed list. Allowed: [\"node\", \"npx\", \"python\", \"python3\", \"uvx\", \"uv\", \"cargo\", \"deno\", \"bun\"]"@
}

impl CommandError {
    /// The message of the refusal of `command`.
    pub fn message(&self, command: &str) -> (s: String)
        ensures
            s@ == not_allowed_message(command@),
    {
        let mut s = copy_str("Command '");
        s.append(command);
        s.append(
            "' is not in the allowed list. Allowed: [\"node\", \"npx\", \"python\", \"python3\", \"uvx\", \"uv\", \"cargo\", \"deno\", \"bun\"]",
        );
        s
    }
}

/// Whether a command file name is allowed: its base name is one of the
/// allowed commands.
pub fn check_command_name(name: &str) -> (r: Result<(), CommandError>)
    ensures
        r is Ok <==> allowed_commands().contains(command_base(name@)),
        r matches Err(e) ==> e == CommandError::NotAllowed,
{
    let lower = to_lowercase(name);
    let no_exe = trim_end_matches(lower.as_str(), ".exe");
    let base = trim_end_matches(no_exe.as_str(), ".cmd");
    let allowed = vec!["node", "npx", "python", "python3", "uvx", "uv", "cargo", "deno", "bun"];
    assert(allowed@.map_values(|a: &str| a@) =~= allowed_commands());
    let mut k: usize = 0;
    while k < allowed.len()
        invariant
            k <= allowed@.len(),
            allowed@.map_values(|a: &str| a@) == allowed_commands(),
            base@ == command_base(name@),
            forall|j: int| 0 <= j < k ==> allowed_commands()[j] != base@,
        decreases allowed.len() - k,
    {
        if str_eq(base.as_str(), allowed[k]) {
            assert(allowed_commands()[k as int] == base@);
            return Ok(());
        }
        k = k + 1;
    }
    Err(CommandError::NotAllowed)
}

/// Whether `s` names no directory and no drive: no `/`, `\` or `:`, and not
/// empty, `.` or `..`.
pub open spec fn plain_file_name(s: Seq<char>) -> bool {
    &&& s.len() > 0
    &&& s != "."@ && s != ".."@
    &&& forall|k: int| 0 <= k < s.len() ==> (#[trigger] s[k]) != '/' && s[k] != '\\' && s[k] != ':'
}

/// The text of `p` after its last `/`.
pub open spec fn after_last_slash(p: Seq<char>) -> Seq<char>
    decreases p.len(),
{
    if p.len() == 0 {
        p
    } else if p.last() == '/' {
        Seq::empty()
    } else {
        after_last_slash(p.drop_last()).push(p.last())
    }
}

/// A path separator on some platform.
pub open spec fn is_sep(c: char) -> bool {
    c == '/' || c == '\\'
}

/// Whether a path is read the same way on every platform up to its last
/// component: it is not empty, does not start with `\` (which can open a
/// verbatim or device prefix, in which `/` does not separate) and does not
/// start with two separators (which open a UNC prefix on Windows).
pub open spec fn prefix_free(p: Seq<char>) -> bool {
    &&& p.len() > 0
    &&& p[0] != '\\'
    &&& !(p.len() >= 2 && is_sep(p[0]) && is_sep(p[1]))
}

/// `p` without its trailing `/` characters.
pub open spec fn trim_trailing_slashes(p: Seq<char>) -> Seq<char>
    decreases p.len(),
{
    if p.len() > 0 && p.last() == '/' {
        trim_trailing_slashes(p.drop_last())
    } else {
        p
    }
}

/// The file name of a command path, where it does not depend on the
/// platform: a plain name is its own file name; otherwise, for a path read
/// alike everywhere (see [`prefix_free`]), trailing `/` characters are
/// ignored, and what remains is the file name when it is a plain name, or
/// else its text after the last `/` when that is a plain name (`/`
/// separates components on every platform).
pub open spec fn command_file_name(p: Seq<char>) -> Option<Seq<char>> {
    let q = trim_trailing_slashes(p);
    if plain_file_name(p) {
        Some(p)
    } else if prefix_free(p) && plain_file_name(q) {
        Some(q)
    } else if prefix_free(p) && q.contains('/') && plain_file_name(after_last_slash(q)) {
        Some(after_last_slash(q))
    } else {
        None
    }
}

/// Whether a path has no file name on any platform: it is empty, `.`, `..`
/// or `/`, or a path read alike everywhere that ends in `/..`.
pub open spec fn no_file_name(p: Seq<char>) -> bool {
    ||| p.len() == 0
    ||| p == "."@
    ||| p == ".."@
    ||| p == "/"@
    ||| (prefix_free(p) && p.len() >= 3 && p.subrange(p.len() - 3, p.len() as int) == "/.."@)
}

/// The two claims of [`path_file_name`] never meet: no path both has a
/// file name by [`command_file_name`] and has none by [`no_file_name`].
pub proof fn lemma_file_name_claims_disjoint(p: Seq<char>)
    ensures
        !(command_file_name(p) is Some && no_file_name(p)),
{
    if no_file_name(p) && p.len() >= 3 && p.subrange(p.len() - 3, p.len() as int) == "/.."@ {
        reveal_strlit("/..");
        let n = p.len() as int;
        let t = p.subrange(n - 3, n);
        assert(t[0] == p[n - 3] && t[1] == p[n - 2] && t[2] == p[n - 1]);
        assert(p[n - 1] == '.' && p[n - 2] == '.' && p[n - 3] == '/');
        assert(p.drop_last().drop_last().last() == '/');
        assert(after_last_slash(p.drop_last().drop_last()) == Seq::<char>::empty());
        assert(p.drop_last().last() == '.');
        assert(after_last_slash(p.drop_last()) =~= seq!['.']);
        assert(after_last_slash(p) =~= seq!['.', '.']);
        reveal_strlit("..");
        assert(seq!['.', '.'] =~= ".."@);
        assert(!plain_file_name(after_last_slash(p)));
        assert(p.contains('/'));
        assert(plain_file_name(p) == false) by {
            assert(p[n - 3] == '/');
        }
        assert(trim_trailing_slashes(p) == p);
    }
    if p == "."@ || p == ".."@ || p == "/"@ {
        reveal_strlit(".");
        reveal_strlit("..");
        reveal_strlit("/");
        if p == "/"@ {
            assert(trim_trailing_slashes(p.drop_last()) == p.drop_last());
            assert(!p.drop_last().contains('/'));
        } else {
            assert(!p.contains('/'));
        }
    }
}

/// `Path::new(path).file_name()` as a string: the last component of the
/// path when it is a normal component (and valid Unicode). Which characters
/// separate components depends on the platform; the contract claims the
/// file name only where [`command_file_name`] gives it, and its absence
/// where [`no_file_name`] holds.
#[verifier::external_body]
fn path_file_name(path: &str) -> (r: Option<String>)
    ensures
        command_file_name(path@) is Some ==> (r is Some && r->Some_0@ == command_file_name(
            path@,
        )->Some_0),
        no_file_name(path@) ==> r is None,
{
    Path::new(path).file_name().and_then(|n| n.to_str()).map(|n| n.to_string())
}

/// Validates that a command is in the allowed list: its file name (the
/// command itself when it has none), lowercased and without `.exe` and
/// `.cmd` extensions, must be an allowed command. Which part of a path is
/// its file name depends on the platform; where it does not, the contract
/// states the outcome.
pub fn validate_command(command: &str) -> (r: Result<(), CommandError>)
    ensures
        command_file_name(command@) matches Some(n) ==> (r is Ok <==> allowed_commands().contains(
            command_base(n),
        )),
        no_file_name(command@) ==> (r is Ok <==> allowed_commands().contains(
            command_base(command@),
        )),
        r matches Err(e) ==> e == CommandError::NotAllowed,
{
    match path_file_name(command) {
        Some(name) => check_command_name(name.as_str()),
        None => check_command_name(command),
    }
}

/// The environment variables a server configuration may not set (loader,
/// search path and shell variables).
pub open spec fn blocked_env_vars() -> Seq<Seq<char>> {
    seq![
        "LD_PRELOAD"@,
        "LD_LIBRARY_PATH"@,
        "DYLD_INSERT_LIBRARIES"@,
        "DYLD_LIBRARY_PATH"@,
        "PATH"@,
        "HOME"@,
        "USERPROFILE"@,
        "SHELL"@,
        "COMSPEC"@,
    ]
}

/// Whether a server configuration may set the environment variable
/// `name`: its uppercase is none of the blocked variables.
pub fn is_safe_env_var(name: &str) -> (r: bool)
    ensures
        r == !blocked_env_vars().contains(unicode_uppercase(name@)),
        all_ascii(name@) ==> r == !blocked_env_vars().contains(
            name@.map_values(|c: char| ascii_upper(c)),
        ),
{
    let upper = to_uppercase(name);
    let blocked = vec![
        "LD_PRELOAD",
        "LD_LIBRARY_PATH",
        "DYLD_INSERT_LIBRARIES",
        "DYLD_LIBRARY_PATH",
        "PATH",
        "HOME",
        "USERPROFILE",
        "SHELL",
        "COMSPEC",
    ];
    assert(blocked@.map_values(|a: &str| a@) =~= blocked_env_vars());
    let mut k: usize = 0;
    while k < blocked.len()
        invariant
            k <= blocked@.len(),
            blocked@.map_values(|a: &str| a@) == blocked_env_vars(),
            upper@ == unicode_uppercase(name@),
            all_ascii(name@) ==> upper@ == name@.map_values(|c: char| ascii_upper(c)),
            forall|j: int| 0 <= j < k ==> blocked_env_vars()[j] != upper@,
        decreases blocked.len() - k,
    {
        if str_eq(upper.as_str(), blocked[k]) {
            assert(blocked_env_vars()[k as int] == upper@);
            return false;
        }
        k = k + 1;
    }
    true
}


/// How a connection to an MCP server is made.
#[derive(Debug, PartialEq, Eq)]
pub enum Transport {
    /// A WebSocket to the URL.
    WebSocket(String),
    /// A spawned process running the command, over its stdin and stdout.
    Stdio(String),
}

/// Why no connection to an MCP server can be planned.
#[derive(Debug, PartialEq, Eq)]
pub enum ConnectError {
    /// The command is not an allowed one.
    NotAllowed,
    /// The configuration has neither a command nor a URL.
    NoTransport,
}

/// The transport of a connection to an MCP server: the URL when there is
/// one, else the command, which must be allowed.
pub fn plan_connection(config: &McpServerConfig) -> (r: Result<Transport, ConnectError>)
    ensures
        config.url matches Some(u) ==> (r matches Ok(Transport::WebSocket(v)) && v@ == u@),
        config.url is None && config.command is None ==> r == Err::<Transport, ConnectError>(ConnectError::NoTransport),
        config.url is None && config.command is Some && plain_file_name(config.command->Some_0@) ==> (r is Ok
            <==> allowed_commands().contains(command_base(config.command->Some_0@))),
        config.url is None && config.command is Some ==> (r matches Ok(t) ==> t matches Transport::Stdio(c) && c@ == config.command->Some_0@),
        r matches Err(e) ==> (e == ConnectError::NotAllowed <==> config.command is Some),
{
    match &config.url {
        Some(u) => Ok(Transport::WebSocket(copy_str(u.as_str()))),
        None => match &config.command {
            Some(c) => match validate_command(c.as_str()) {
                Ok(()) => Ok(Transport::Stdio(copy_str(c.as_str()))),
                Err(_) => Err(ConnectError::NotAllowed),
            },
            None => Err(ConnectError::NoTransport),
        },
    }
}

/// Most attempts made to open a WebSocket to an MCP server.
pub const MAX_CONNECT_ATTEMPTS: u32 = 5;

/// After failed WebSocket attempt number `attempt` (counting from 1), made
/// after waiting `delay_ms` before it: the wait before the next attempt
/// (twice the last one), or `None` once the attempts are used up.
pub fn retry_delay(attempt: u32, delay_ms: u64) -> (r: Option<u64>)
    ensures
        attempt >= MAX_CONNECT_ATTEMPTS ==> r is None,
        attempt < MAX_CONNECT_ATTEMPTS ==> r == Some(if delay_ms <= u64::MAX / 2 {
            (2 * delay_ms) as u64
        } else {
            u64::MAX
        }),
{
    if attempt >= MAX_CONNECT_ATTEMPTS {
        None
    } else if delay_ms <= u64::MAX / 2 {
        Some(2 * delay_ms)
    } else {
        Some(u64::MAX)
    }
}

/// Whether a response from an MCP server is stored in the result cache:
/// the call has an agent, and the response is a non-empty JSON-RPC result.
pub fn should_cache_response(agent_id: Option<&str>, response: &str) -> (r: bool)
    ensures
        r == (agent_id is Some && response@.len() > 0 && crate::text::contains(response@, "\"result\""@)),
{
    agent_id.is_some() && response.unicode_len() > 0 && crate::text::str_contains(response, "\"result\"")
}


/// Whether a server listed in an MCP configuration file is loaded: it needs
/// a command or a URL, and a command must be allowed, even beside a URL.
pub fn admit_server_entry(command: Option<&str>, url: Option<&str>) -> (r: Result<(), ConnectError>)
    ensures
        command is None && url is None ==> r == Err::<(), ConnectError>(ConnectError::NoTransport),
        command is None && url is Some ==> r is Ok,
        command is Some && plain_file_name(command->Some_0@) ==> (r is Ok <==> allowed_commands().contains(
            command_base(command->Some_0@),
        )),
        command is Some ==> (r is Err ==> r == Err::<(), ConnectError>(ConnectError::NotAllowed)),
{
    match command {
        None => match url {
            None => Err(ConnectError::NoTransport),
            Some(_) => Ok(()),
        },
        Some(c) => match validate_command(c) {
            Ok(()) => Ok(()),
            Err(_) => Err(ConnectError::NotAllowed),
        },
    }
}

} // verus!
