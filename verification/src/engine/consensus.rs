//! M-of-N consensus authorization: a call of a critical tool waits until M
//! distinct witnesses (policies, the neural judge, administrators) have
//! signed it; the approval is then consumed by the one call it was given
//! for.
//!
//! Times are nanoseconds since the Unix epoch (UTC).
use vstd::prelude::*;
use dashmap::DashMap;
use crate::clock::{new_uuid, utc_now_nanos};
use crate::config::ConsensusConfig;
use crate::hashing::{default_hash, hash_str, hex_string, hex_text};
use crate::text::{chars_of, copy_str, str_eq};

verus! {

/// Who signs an action.
#[derive(Debug)]
pub enum WitnessType {
    /// A deterministic policy, by name.
    DeterministicPolicy(String),
    /// The neural judge.
    NeuralJudge,
    /// An administrator, by name.
    HumanAdmin(String),
}

/// A witness as (kind, name): two signatures by the same key are the same
/// witness.
pub open spec fn witness_key(w: WitnessType) -> (int, Seq<char>) {
    match w {
        WitnessType::DeterministicPolicy(n) => (0, n@),
        WitnessType::NeuralJudge => (1, Seq::empty()),
        WitnessType::HumanAdmin(u) => (2, u@),
    }
}

/// One signature of an action.
pub struct Signature {
    /// Who signed.
    pub witness: WitnessType,
    /// When.
    pub timestamp: i64,
    /// Free-form metadata.
    pub metadata: Option<String>,
}

/// A signature as (witness, time, metadata).
pub open spec fn signature_view(s: Signature) -> ((int, Seq<char>), i64, Option<Seq<char>>) {
    (
        witness_key(s.witness),
        s.timestamp,
        match s.metadata {
            Some(m) => Some(m@),
            None => None,
        },
    )
}

/// State of an action awaiting consensus.
#[derive(Debug, Clone, Copy, PartialEq, Eq, Structural)]
pub enum ActionStatus {
    /// Waiting for signatures.
    Pending,
    /// Signed by enough witnesses.
    Approved,
    /// Refused.
    Denied,
    /// Timed out.
    Expired,
}

/// An action awaiting (or given) consensus.
pub struct AuthorizableAction {
    /// Its identifier.
    pub id: String,
    /// The agent that asked for it.
    pub agent_id: String,
    /// The tool called.
    pub tool_name: String,
    /// Hash of the arguments, so that an approval covers exactly this call.
    pub arguments_hash: String,
    /// When it was proposed.
    pub timestamp: i64,
    /// The signatures so far.
    pub signatures: Vec<Signature>,
    /// How many signatures approve it.
    pub required_m: u32,
    /// Its state.
    pub status: ActionStatus,
}

/// The abstract content of an action.
pub struct ActionView {
    /// Its identifier.
    pub id: Seq<char>,
    /// The agent that asked for it.
    pub agent_id: Seq<char>,
    /// The tool called.
    pub tool_name: Seq<char>,
    /// Hash of the arguments.
    pub arguments_hash: Seq<char>,
    /// When it was proposed.
    pub timestamp: i64,
    /// The signatures so far.
    pub signatures: Seq<((int, Seq<char>), i64, Option<Seq<char>>)>,
    /// How many signatures approve it.
    pub required_m: u32,
    /// Its state.
    pub status: ActionStatus,
}

impl View for AuthorizableAction {
    type V = ActionView;

    open spec fn view(&self) -> ActionView {
        ActionView {
            id: self.id@,
            agent_id: self.agent_id@,
            tool_name: self.tool_name@,
            arguments_hash: self.arguments_hash@,
            timestamp: self.timestamp,
            signatures: self.signatures@.map_values(|s: Signature| signature_view(s)),
            required_m: self.required_m,
            status: self.status,
        }
    }
}

/// What a pending-action map holds: each action by its key.
pub uninterp spec fn pending_contents(m: DashMap<String, AuthorizableAction>) -> Map<Seq<char>, ActionView>;

/// `DashMap::new`: an empty map.
#[verifier::external_body]
fn pending_new() -> (r: DashMap<String, AuthorizableAction>)
    ensures
        pending_contents(r) =~= Map::empty(),
{
    DashMap::new()
}

/// `DashMap::remove`: takes the action of `key` out of the map.
#[verifier::external_body]
fn pending_take(m: &mut DashMap<String, AuthorizableAction>, key: &str) -> (r: Option<AuthorizableAction>)
    ensures
        r is None <==> !pending_contents(*old(m)).contains_key(key@),
        r matches Some(a) ==> pending_contents(*old(m))[key@] == a@,
        pending_contents(*final(m)) == pending_contents(*old(m)).remove(key@),
{
    m.remove(key).map(|(_, a)| a)
}

/// `DashMap::insert`: stores the action under `key`, replacing any.
#[verifier::external_body]
fn pending_put(m: &mut DashMap<String, AuthorizableAction>, key: &str, a: AuthorizableAction)
    ensures
        pending_contents(*final(m)) == pending_contents(*old(m)).insert(key@, a@),
{
    m.insert(key.to_string(), a);
}

/// `DashMap::iter`, keeping the keys: every key of the map once, in the
/// map's own (unspecified) order.
#[verifier::external_body]
fn pending_keys(m: &DashMap<String, AuthorizableAction>) -> (r: Vec<String>)
    ensures
        forall|i: int| 0 <= i < r@.len() ==> pending_contents(*m).contains_key(#[trigger] r@[i]@),
        forall|k: Seq<char>|
            #[trigger] pending_contents(*m).contains_key(k) ==> exists|i: int|
                0 <= i < r@.len() && r@[i]@ == k,
        forall|i: int, j: int| 0 <= i < j < r@.len() ==> (#[trigger] r@[i])@ != (#[trigger] r@[j])@,
{
    m.iter().map(|e| e.key().clone()).collect()
}

/// `DashMap::get`, keeping the status: the status of the action of `key`.
#[verifier::external_body]
fn pending_status(m: &DashMap<String, AuthorizableAction>, key: &str) -> (r: Option<ActionStatus>)
    ensures
        r is None <==> !pending_contents(*m).contains_key(key@),
        r matches Some(s) ==> pending_contents(*m)[key@].status == s,
{
    m.get(key).map(|a| a.status)
}

/// Whether `pattern` covers `tool`: a pattern ending in `*` covers the
/// tools that start with the rest of it, any other pattern the tool of its
/// exact name.
pub open spec fn pattern_covers(pattern: Seq<char>, tool: Seq<char>) -> bool {
    if pattern.len() > 0 && pattern.last() == '*' {
        pattern.len() - 1 <= tool.len() && tool.take(pattern.len() - 1) == pattern.drop_last()
    } else {
        tool == pattern
    }
}

/// Whether a tool is critical: some pattern of `patterns` covers it.
pub open spec fn is_critical(patterns: Seq<Seq<char>>, tool: Seq<char>) -> bool {
    exists|i: int| 0 <= i < patterns.len() && pattern_covers(#[trigger] patterns[i], tool)
}

/// The hash recorded for arguments: the lowercase hexadecimal
/// `DefaultHasher` hash of their text.
pub open spec fn arguments_digest(arguments: Seq<char>) -> Seq<char> {
    hex_text(default_hash(arguments) as nat)
}

/// A newly proposed action.
pub open spec fn proposed_action(
    id: Seq<char>,
    agent_id: Seq<char>,
    tool_name: Seq<char>,
    arguments: Seq<char>,
    now: i64,
    required_m: u32,
) -> ActionView {
    ActionView {
        id,
        agent_id,
        tool_name,
        arguments_hash: arguments_digest(arguments),
        timestamp: now,
        signatures: Seq::empty(),
        required_m,
        status: ActionStatus::Pending,
    }
}

/// Whether the witness `w` has signed `a`.
pub open spec fn has_signed(a: ActionView, w: (int, Seq<char>)) -> bool {
    exists|i: int| 0 <= i < a.signatures.len() && (#[trigger] a.signatures[i]).0 == w
}

/// `a` after the witness `w` signs at `now`: a witness that already signed
/// changes nothing; otherwise the signature is added, and with enough
/// signatures the action is approved.
pub open spec fn signed(a: ActionView, w: (int, Seq<char>), now: i64) -> ActionView {
    if has_signed(a, w) {
        a
    } else {
        let sigs = a.signatures.push((w, now, None::<Seq<char>>));
        ActionView {
            signatures: sigs,
            status: if sigs.len() >= a.required_m {
                ActionStatus::Approved
            } else {
                a.status
            },
            ..a
        }
    }
}

/// Whether `a` is an approval of this very call.
pub open spec fn approves(a: ActionView, agent_id: Seq<char>, tool_name: Seq<char>, arguments: Seq<char>) -> bool {
    &&& a.status == ActionStatus::Approved
    &&& a.agent_id == agent_id
    &&& a.tool_name == tool_name
    &&& a.arguments_hash == arguments_digest(arguments)
}

/// The M-of-N consensus manager.
pub struct ConsensusManager {
    pending: DashMap<String, AuthorizableAction>,
    config: ConsensusConfig,
}

impl ConsensusManager {
    /// The actions by identifier.
    pub closed spec fn actions(&self) -> Map<Seq<char>, ActionView> {
        pending_contents(self.pending)
    }

    /// Whether consensus is on.
    pub closed spec fn enabled_spec(&self) -> bool {
        self.config.enabled
    }

    /// The critical tool patterns.
    pub closed spec fn critical_spec(&self) -> Seq<Seq<char>> {
        self.config.critical_tools@.map_values(|t: String| t@)
    }

    /// How many signatures approve an action.
    pub closed spec fn required_spec(&self) -> u32 {
        self.config.required_signatures
    }

    /// The invariant: every action is stored under its own identifier.
    pub open spec fn wf(&self) -> bool {
        forall|k: Seq<char>| #[trigger] self.actions().contains_key(k) ==> self.actions()[k].id == k
    }

    /// A manager with no actions.
    pub fn new(config: ConsensusConfig) -> (c: Self)
        ensures
            c.wf(),
            c.actions() == Map::<Seq<char>, ActionView>::empty(),
            c.enabled_spec() == config.enabled,
            c.critical_spec() == config.critical_tools@.map_values(|t: String| t@),
            c.required_spec() == config.required_signatures,
    {
        ConsensusManager { pending: pending_new(), config }
    }

    /// Whether a tool is critical under the configured patterns.
    fn tool_is_critical(&self, tool_name: &str) -> (r: bool)
        ensures
            r == is_critical(self.critical_spec(), tool_name@),
    {
        let ghost pats = self.critical_spec();
        let tool = chars_of(tool_name);
        let mut k: usize = 0;
        while k < self.config.critical_tools.len()
            invariant
                k <= pats.len(),
                pats == self.config.critical_tools@.map_values(|t: String| t@),
                tool@ == tool_name@,
                forall|j: int| 0 <= j < k ==> !pattern_covers(#[trigger] pats[j], tool_name@),
            decreases self.config.critical_tools.len() - k,
        {
            let pattern = chars_of(self.config.critical_tools[k].as_str());
            assert(pattern@ == pats[k as int]);
            let n = pattern.len();
            let covers = if n > 0 && pattern[n - 1] == '*' {
                if n - 1 <= tool.len() {
                    let mut i: usize = 0;
                    let mut same = true;
                    while i < n - 1
                        invariant
                            n - 1 <= tool@.len(),
                            n == pattern@.len(),
                            i <= n - 1,
                            same == (forall|j: int| 0 <= j < i ==> tool@[j] == pattern@[j]),
                        decreases n - 1 - i,
                    {
                        if tool[i] != pattern[i] {
                            same = false;
                        }
                        i = i + 1;
                    }
                    proof {
                        if same {
                            assert(tool@.take(n - 1) =~= pattern@.drop_last());
                        } else {
                            let j = choose|j: int| 0 <= j < n - 1 && tool@[j] != pattern@[j];
                            assert(tool@.take(n - 1)[j] != pattern@.drop_last()[j]);
                        }
                    }
                    same
                } else {
                    false
                }
            } else {
                crate::text::chars_eq(&tool, &pattern)
            };
            if covers {
                return true;
            }
            k = k + 1;
        }
        false
    }

    /// Registers an action for a call of a critical tool, under the
    /// identifier `id` and proposed at `now`, and returns the identifier;
    /// returns nothing (registering nothing) when consensus is off or the
    /// tool is not critical.
    pub fn register_action(
        &mut self,
        id: String,
        agent_id: &str,
        tool_name: &str,
        arguments: &str,
        now: i64,
    ) -> (r: Option<String>)
        requires
            old(self).wf(),
        ensures
            final(self).wf(),
            final(self).enabled_spec() == old(self).enabled_spec(),
            final(self).critical_spec() == old(self).critical_spec(),
            final(self).required_spec() == old(self).required_spec(),
            r is Some <==> old(self).enabled_spec() && is_critical(old(self).critical_spec(), tool_name@),
            r matches Some(x) ==> x@ == id@ && final(self).actions() == old(self).actions().insert(
                id@,
                proposed_action(id@, agent_id@, tool_name@, arguments@, now, old(self).required_spec()),
            ),
            r is None ==> final(self).actions() == old(self).actions(),
    {
        if !self.config.enabled {
            return None;
        }
        if !self.tool_is_critical(tool_name) {
            return None;
        }
        let args_hash = hex_string(hash_str(arguments));
        let action = AuthorizableAction {
            id: copy_str(id.as_str()),
            agent_id: copy_str(agent_id),
            tool_name: copy_str(tool_name),
            arguments_hash: args_hash,
            timestamp: now,
            signatures: Vec::new(),
            required_m: self.config.required_signatures,
            status: ActionStatus::Pending,
        };
        assert(action@.signatures =~= Seq::<((int, Seq<char>), i64, Option<Seq<char>>)>::empty());
        pending_put(&mut self.pending, id.as_str(), action);
        Some(id)
    }

    /// Registers an action for a call of a critical tool under a fresh
    /// random identifier, proposed now, and returns the identifier; nothing
    /// when consensus is off or the tool is not critical.
    pub fn propose_action(&mut self, agent_id: &str, tool_name: &str, arguments: &str) -> (r: Option<String>)
        requires
            old(self).wf(),
        ensures
            final(self).wf(),
            final(self).enabled_spec() == old(self).enabled_spec(),
            final(self).critical_spec() == old(self).critical_spec(),
            final(self).required_spec() == old(self).required_spec(),
            r is Some <==> old(self).enabled_spec() && is_critical(old(self).critical_spec(), tool_name@),
            r matches Some(x) ==> x@.len() == 36 && exists|now: i64|
                final(self).actions() == old(self).actions().insert(
                    x@,
                    #[trigger] proposed_action(x@, agent_id@, tool_name@, arguments@, now, old(self).required_spec()),
                ),
            r is None ==> final(self).actions() == old(self).actions(),
    {
        let id = new_uuid();
        let now = match utc_now_nanos() {
            Some(t) => t,
            None => i64::MAX,
        };
        self.register_action(id, agent_id, tool_name, arguments, now)
    }

    /// Adds the signature of `witness`, made at `now`, to the action `id`
    /// and returns the action's status: an error when there is no such
    /// action; no change when that witness already signed.
    pub fn add_signature(&mut self, action_id: &str, witness: WitnessType, now: i64) -> (r: Result<
        ActionStatus,
        String,
    >)
        requires
            old(self).wf(),
        ensures
            final(self).wf(),
            final(self).enabled_spec() == old(self).enabled_spec(),
            final(self).critical_spec() == old(self).critical_spec(),
            final(self).required_spec() == old(self).required_spec(),
            r is Err <==> !old(self).actions().contains_key(action_id@),
            r matches Err(m) ==> m@ == "Action not found or already processed"@ && final(self).actions() == old(self).actions(),
            r matches Ok(s) ==> {
                let a = signed(old(self).actions()[action_id@], witness_key(witness), now);
                &&& final(self).actions() == old(self).actions().insert(action_id@, a)
                &&& s == a.status
            },
    {
        match pending_take(&mut self.pending, action_id) {
            None => {
                assert(self.actions() =~= old(self).actions());
                Err(copy_str("Action not found or already processed"))
            },
            Some(mut action) => {
                let ghost a0 = action@;
                let ghost w = witness_key(witness);
                let mut k: usize = 0;
                let mut dup = false;
                while k < action.signatures.len()
                    invariant
                        k <= action.signatures@.len(),
                        a0 == action@,
                        w == witness_key(witness),
                        dup == (exists|j: int| 0 <= j < k && (#[trigger] a0.signatures[j]).0 == w),
                    decreases action.signatures.len() - k,
                {
                    let same = same_witness(&action.signatures[k].witness, &witness);
                    assert(a0.signatures[k as int].0 == witness_key(action.signatures@[k as int].witness));
                    if same {
                        dup = true;
                    }
                    k = k + 1;
                }
                if dup {
                    let status = action.status;
                    pending_put(&mut self.pending, action_id, action);
                    assert(self.actions() =~= old(self).actions().insert(action_id@, a0));
                    return Ok(status);
                }
                action.signatures.push(Signature { witness, timestamp: now, metadata: None });
                assert(action@.signatures =~= a0.signatures.push((w, now, None::<Seq<char>>)));
                if action.signatures.len() >= action.required_m as usize {
                    action.status = ActionStatus::Approved;
                }
                let status = action.status;
                pending_put(&mut self.pending, action_id, action);
                Ok(status)
            },
        }
    }

    /// Adds the signature of `witness`, made now, to the action `id`; see
    /// [`ConsensusManager::add_signature`].
    pub fn sign_action(&mut self, action_id: &str, witness: WitnessType) -> (r: Result<ActionStatus, String>)
        requires
            old(self).wf(),
        ensures
            final(self).wf(),
            final(self).enabled_spec() == old(self).enabled_spec(),
            final(self).critical_spec() == old(self).critical_spec(),
            final(self).required_spec() == old(self).required_spec(),
            r is Err <==> !old(self).actions().contains_key(action_id@),
            r matches Err(m) ==> final(self).actions() == old(self).actions(),
            r matches Ok(s) ==> exists|now: i64|
                final(self).actions() == old(self).actions().insert(
                    action_id@,
                    #[trigger] signed(old(self).actions()[action_id@], witness_key(witness), now),
                ) && s == signed(old(self).actions()[action_id@], witness_key(witness), now).status,
    {
        let now = match utc_now_nanos() {
            Some(t) => t,
            None => i64::MAX,
        };
        self.add_signature(action_id, witness, now)
    }

    /// Denies the action `id`: an error when there is no such action.
    pub fn deny_action(&mut self, action_id: &str, reason: &str) -> (r: Result<(), String>)
        requires
            old(self).wf(),
        ensures
            final(self).wf(),
            final(self).enabled_spec() == old(self).enabled_spec(),
            final(self).critical_spec() == old(self).critical_spec(),
            final(self).required_spec() == old(self).required_spec(),
            r is Err <==> !old(self).actions().contains_key(action_id@),
            r matches Err(m) ==> m@ == "Action not found"@ && final(self).actions() == old(self).actions(),
            r is Ok ==> final(self).actions() == old(self).actions().insert(
                action_id@,
                ActionView { status: ActionStatus::Denied, ..old(self).actions()[action_id@] },
            ),
    {
        match pending_take(&mut self.pending, action_id) {
            None => {
                assert(self.actions() =~= old(self).actions());
                Err(copy_str("Action not found"))
            },
            Some(mut action) => {
                action.status = ActionStatus::Denied;
                pending_put(&mut self.pending, action_id, action);
                Ok(())
            },
        }
    }

    /// Whether an approval of this very call exists; the approval found is
    /// consumed, so that it cannot be used twice. Which one is consumed,
    /// when several match, is the map's choice.
    pub fn check_approval(&mut self, agent_id: &str, tool_name: &str, arguments: &str) -> (r: bool)
        requires
            old(self).wf(),
        ensures
            final(self).wf(),
            final(self).enabled_spec() == old(self).enabled_spec(),
            final(self).critical_spec() == old(self).critical_spec(),
            final(self).required_spec() == old(self).required_spec(),
            r == exists|k: Seq<char>|
                #[trigger] old(self).actions().contains_key(k) && approves(
                    old(self).actions()[k],
                    agent_id@,
                    tool_name@,
                    arguments@,
                ),
            r ==> exists|k: Seq<char>|
                #[trigger] old(self).actions().contains_key(k) && approves(
                    old(self).actions()[k],
                    agent_id@,
                    tool_name@,
                    arguments@,
                ) && final(self).actions() == old(self).actions().remove(k),
            !r ==> final(self).actions() == old(self).actions(),
    {
        let hash = hex_string(hash_str(arguments));
        let keys = pending_keys(&self.pending);
        let ghost m0 = self.actions();
        let mut i: usize = 0;
        while i < keys.len()
            invariant
                self.wf(),
                self.actions() == m0,
                m0 == old(self).actions(),
                self.config == old(self).config,
                i <= keys@.len(),
                hash@ == arguments_digest(arguments@),
                forall|j: int| 0 <= j < keys@.len() ==> m0.contains_key(#[trigger] keys@[j]@),
                forall|k: Seq<char>|
                    #[trigger] m0.contains_key(k) ==> exists|j: int| 0 <= j < keys@.len() && keys@[j]@ == k,
                forall|j: int|
                    0 <= j < i ==> !approves(m0[#[trigger] keys@[j]@], agent_id@, tool_name@, arguments@),
            decreases keys.len() - i,
        {
            let key = keys[i].as_str();
            match pending_take(&mut self.pending, key) {
                None => {
                    assert(false);
                },
                Some(action) => {
                    let hit = action.status == ActionStatus::Approved && str_eq(
                        action.agent_id.as_str(),
                        agent_id,
                    ) && str_eq(action.tool_name.as_str(), tool_name) && str_eq(
                        action.arguments_hash.as_str(),
                        hash.as_str(),
                    );
                    if hit {
                        assert(approves(m0[keys@[i as int]@], agent_id@, tool_name@, arguments@));
                        return true;
                    }
                    pending_put(&mut self.pending, key, action);
                    assert(self.actions() =~= m0);
                },
            }
            i = i + 1;
        }
        proof {
            assert forall|k: Seq<char>| #[trigger] m0.contains_key(k) implies !approves(
                m0[k],
                agent_id@,
                tool_name@,
                arguments@,
            ) by {
                let j = choose|j: int| 0 <= j < keys@.len() && keys@[j]@ == k;
                assert(!approves(m0[keys@[j]@], agent_id@, tool_name@, arguments@));
            }
        }
        false
    }

    /// The status of the action `id`, if there is one.
    pub fn get_status(&self, action_id: &str) -> (r: Option<ActionStatus>)
        ensures
            r is None <==> !self.actions().contains_key(action_id@),
            r matches Some(s) ==> self.actions()[action_id@].status == s,
    {
        pending_status(&self.pending, action_id)
    }

    /// Copies of the pending actions, in the map's own order.
    pub fn list_pending(&mut self) -> (v: Vec<AuthorizableAction>)
        requires
            old(self).wf(),
        ensures
            final(self).wf(),
            final(self).enabled_spec() == old(self).enabled_spec(),
            final(self).critical_spec() == old(self).critical_spec(),
            final(self).required_spec() == old(self).required_spec(),
            final(self).actions() == old(self).actions(),
            forall|i: int|
                0 <= i < v@.len() ==> old(self).actions().contains_key((#[trigger] v@[i])@.id)
                    && old(self).actions()[v@[i]@.id] == v@[i]@ && v@[i]@.status
                    == ActionStatus::Pending,
            forall|k: Seq<char>|
                #[trigger] old(self).actions().contains_key(k) && old(self).actions()[k].status
                    == ActionStatus::Pending ==> exists|i: int| 0 <= i < v@.len() && v@[i]@.id == k,
            forall|i: int, j: int| 0 <= i < j < v@.len() ==> (#[trigger] v@[i])@.id != (
            #[trigger] v@[j])@.id,
    {
        let keys = pending_keys(&self.pending);
        let ghost m0 = self.actions();
        let mut v: Vec<AuthorizableAction> = Vec::new();
        let mut i: usize = 0;
        while i < keys.len()
            invariant
                self.wf(),
                self.actions() == m0,
                m0 == old(self).actions(),
                self.config == old(self).config,
                i <= keys@.len(),
                forall|j: int| 0 <= j < keys@.len() ==> m0.contains_key(#[trigger] keys@[j]@),
                forall|k: Seq<char>|
                    #[trigger] m0.contains_key(k) ==> exists|j: int| 0 <= j < keys@.len() && keys@[j]@ == k,
                forall|j: int, l: int| 0 <= j < l < keys@.len() ==> (#[trigger] keys@[j])@ != (
                #[trigger] keys@[l])@,
                forall|p: int|
                    0 <= p < v@.len() ==> m0.contains_key((#[trigger] v@[p])@.id) && m0[v@[p]@.id]
                        == v@[p]@ && v@[p]@.status == ActionStatus::Pending && exists|j: int|
                        0 <= j < i && keys@[j]@ == v@[p]@.id,
                forall|j: int|
                    0 <= j < i && m0[#[trigger] keys@[j]@].status == ActionStatus::Pending ==> exists|
                        p: int,
                    | 0 <= p < v@.len() && v@[p]@.id == keys@[j]@,
                forall|p: int, q: int| 0 <= p < q < v@.len() ==> (#[trigger] v@[p])@.id != (
                #[trigger] v@[q])@.id,
            decreases keys.len() - i,
        {
            let key = keys[i].as_str();
            let ghost v0 = v@;
            match pending_take(&mut self.pending, key) {
                None => {
                    assert(false);
                },
                Some(action) => {
                    if action.status == ActionStatus::Pending {
                        let c = copy_action(&action);
                        proof {
                            assert(c@.id == keys@[i as int]@);
                            assert forall|p: int| 0 <= p < v@.len() implies (#[trigger] v@[p])@.id
                                != c@.id by {
                                let j = choose|j: int| 0 <= j < i && keys@[j]@ == v@[p]@.id;
                            }
                        }
                        v.push(c);
                    }
                    pending_put(&mut self.pending, key, action);
                    assert(self.actions() =~= m0);
                },
            }
            proof {
                assert forall|j: int|
                    0 <= j < i + 1 && m0[#[trigger] keys@[j]@].status == ActionStatus::Pending implies exists|
                        p: int,
                    | 0 <= p < v@.len() && v@[p]@.id == keys@[j]@ by {
                    if j < i {
                        let p = choose|p: int| 0 <= p < v0.len() && v0[p]@.id == keys@[j]@;
                        assert(v@[p] == v0[p]);
                    } else {
                        assert(v@[v@.len() - 1]@.id == keys@[j]@);
                    }
                }
            }
            i = i + 1;
        }
        proof {
            assert forall|k: Seq<char>|
                #[trigger] m0.contains_key(k) && m0[k].status == ActionStatus::Pending implies exists|
                    p: int,
                | 0 <= p < v@.len() && v@[p]@.id == k by {
                let j = choose|j: int| 0 <= j < keys@.len() && keys@[j]@ == k;
                assert(m0[keys@[j]@].status == ActionStatus::Pending);
            }
        }
        v
    }
}

/// Whether two witnesses are the same witness.
fn same_witness(a: &WitnessType, b: &WitnessType) -> (r: bool)
    ensures
        r == (witness_key(*a) == witness_key(*b)),
{
    match (a, b) {
        (WitnessType::DeterministicPolicy(n1), WitnessType::DeterministicPolicy(n2)) => str_eq(
            n1.as_str(),
            n2.as_str(),
        ),
        (WitnessType::NeuralJudge, WitnessType::NeuralJudge) => true,
        (WitnessType::HumanAdmin(u1), WitnessType::HumanAdmin(u2)) => str_eq(u1.as_str(), u2.as_str()),
        _ => false,
    }
}

/// A copy of a witness.
fn copy_witness(w: &WitnessType) -> (c: WitnessType)
    ensures
        witness_key(c) == witness_key(*w),
{
    match w {
        WitnessType::DeterministicPolicy(n) => WitnessType::DeterministicPolicy(copy_str(n.as_str())),
        WitnessType::NeuralJudge => WitnessType::NeuralJudge,
        WitnessType::HumanAdmin(u) => WitnessType::HumanAdmin(copy_str(u.as_str())),
    }
}

/// A copy of an action.
pub fn copy_action(a: &AuthorizableAction) -> (c: AuthorizableAction)
    ensures
        c@ == a@,
{
    let mut signatures: Vec<Signature> = Vec::new();
    let ghost sv = a.signatures@.map_values(|s: Signature| signature_view(s));
    let mut k: usize = 0;
    while k < a.signatures.len()
        invariant
            k <= a.signatures@.len(),
            sv == a.signatures@.map_values(|s: Signature| signature_view(s)),
            signatures@.map_values(|s: Signature| signature_view(s)) == sv.take(k as int),
        decreases a.signatures.len() - k,
    {
        let s = &a.signatures[k];
        let metadata = match &s.metadata {
            Some(m) => Some(copy_str(m.as_str())),
            None => None,
        };
        let c = Signature { witness: copy_witness(&s.witness), timestamp: s.timestamp, metadata };
        let ghost before = signatures@.map_values(|s: Signature| signature_view(s));
        assert(signature_view(c) == sv[k as int]);
        signatures.push(c);
        assert(signatures@.map_values(|s: Signature| signature_view(s)) =~= before.push(
            signature_view(c),
        ));
        assert(sv.take(k + 1) =~= sv.take(k as int).push(sv[k as int]));
        k = k + 1;
    }
    assert(sv.take(k as int) =~= sv);
    AuthorizableAction {
        id: copy_str(a.id.as_str()),
        agent_id: copy_str(a.agent_id.as_str()),
        tool_name: copy_str(a.tool_name.as_str()),
        arguments_hash: copy_str(a.arguments_hash.as_str()),
        timestamp: a.timestamp,
        signatures,
        required_m: a.required_m,
        status: a.status,
    }
}

/// Law: an approval is given once M distinct witnesses have signed a
/// pending action: signing by a new witness that brings the count to the
/// requirement approves it, and a second signature by the same witness
/// changes nothing.
pub proof fn lemma_signing(a: ActionView, w: (int, Seq<char>), now: i64, later: i64)
    ensures
        !has_signed(a, w) && a.signatures.len() + 1 >= a.required_m ==> signed(a, w, now).status
            == ActionStatus::Approved,
        has_signed(signed(a, w, now), w),
        signed(signed(a, w, now), w, later) == signed(a, w, now),
{
    if !has_signed(a, w) {
        let b = signed(a, w, now);
        assert(b.signatures[b.signatures.len() - 1].0 == w);
    }
}


/// Law: administrators with different names are different witnesses. On
/// an action that neither has signed, a signature by `HumanAdmin(u1)` and
/// then one by `HumanAdmin(u2)`, with `u1` and `u2` different names, add
/// two signatures, and approve the action once the count reaches the
/// requirement: with `required_m == 2` and no signature before, the second
/// approves it.
pub proof fn lemma_distinct_admins_both_count(a: ActionView, u1: String, u2: String, t1: i64, t2: i64)
    requires
        u1@ != u2@,
        !has_signed(a, witness_key(WitnessType::HumanAdmin(u1))),
        !has_signed(a, witness_key(WitnessType::HumanAdmin(u2))),
    ensures
        ({
            let b = signed(a, witness_key(WitnessType::HumanAdmin(u1)), t1);
            let c = signed(b, witness_key(WitnessType::HumanAdmin(u2)), t2);
            &&& b.signatures.len() == a.signatures.len() + 1
            &&& c.signatures.len() == a.signatures.len() + 2
            &&& a.signatures.len() + 2 >= a.required_m ==> c.status == ActionStatus::Approved
            &&& a.signatures.len() == 0 && a.required_m == 2 ==> c.status == ActionStatus::Approved
        }),
{
    let w1 = witness_key(WitnessType::HumanAdmin(u1));
    let w2 = witness_key(WitnessType::HumanAdmin(u2));
    assert(w1 != w2);
    let b = signed(a, w1, t1);
    assert forall|i: int| 0 <= i < b.signatures.len() implies (#[trigger] b.signatures[i]).0 != w2 by {
        if i < a.signatures.len() {
            assert(b.signatures[i] == a.signatures[i]);
        }
    }
    assert(!has_signed(b, w2));
}

} // verus!
