//! The script-execution harness: everything the host decides around one run
//! of the engine. The driver performs the outside work (parsing flags with
//! the engine's parser, resolving the module, running the worker) and hands
//! each result back as a plain value; the functions here say what follows
//! from it — which arguments reach the engine, which environment settings
//! are established first, when the package-client identifier is set, and
//! which exit code and diagnostic line each outcome produces.

use crate::text::str_eq;
use crate::text::strip_error_prefix;
use crate::text::stripped_message;
use vstd::prelude::*;

verus! {

/// One failed run, classified as the error taxonomy asks: an error raised by
/// executed script code (kept in the engine's formatted form), a dependency
/// snapshot that failed its integrity check against the lockfile, or
/// anything else.
pub enum HostError {
    Script { message: String },
    SnapshotIntegrity { message: String },
    Other { message: String },
}

pub open spec fn spec_message(e: HostError) -> Seq<char> {
    match e {
        HostError::Script { message } => message@,
        HostError::SnapshotIntegrity { message } => message@,
        HostError::Other { message } => message@,
    }
}

/// The exit code of a failed run: `10` exactly for an integrity failure,
/// the generic `1` for everything else.
pub open spec fn spec_exit_code(e: HostError) -> int {
    if e is SnapshotIntegrity {
        10
    } else {
        1
    }
}

/// The diagnostic line shown for a failure: a single `error: ` prefix in
/// front of the message with any `error: ` prefixes of its own removed.
pub open spec fn diagnostic_text(m: Seq<char>) -> Seq<char> {
    "error: "@ + strip_error_prefix(m)
}

impl HostError {
    /// Exit code of this failure: `10` if and only if the dependency
    /// snapshot failed its integrity check, else `1`; never `0`.
    pub fn exit_code(&self) -> (c: i32)
        ensures
            c as int == spec_exit_code(*self),
            c == 10 <==> *self is SnapshotIntegrity,
            c != 0,
    {
        match self {
            HostError::SnapshotIntegrity { .. } => 10,
            _ => 1,
        }
    }

    /// The diagnostic line for this failure.
    pub fn diagnostic_line(&self) -> (r: String)
        ensures
            r@ == diagnostic_text(spec_message(*self)),
    {
        let m: &String = match self {
            HostError::Script { message } => message,
            HostError::SnapshotIntegrity { message } => message,
            HostError::Other { message } => message,
        };
        let stripped = stripped_message(m.as_str());
        let mut out = String::from_str("error: ");
        out.append(stripped.as_str());
        out
    }
}

/// Law: a failure diagnostic carries the error's message — the line is the
/// fixed `error: ` prefix followed by a suffix of the message itself.
pub proof fn lemma_diagnostic_carries_message(m: Seq<char>)
    ensures
        diagnostic_text(m) == "error: "@ + strip_error_prefix(m),
        exists|k: int| 0 <= k <= m.len() && strip_error_prefix(m) == m.skip(k),
{
    crate::text::lemma_stripped_is_suffix(m);
}

/// What one engine run came to: the script ran to completion with an exit
/// code of its own, or it failed.
pub enum RunOutcome {
    Completed { code: i32 },
    Failed { error: HostError },
}

/// What the host reports when a run (or a usage error before one) is over.
pub struct Report {
    pub exit_code: i32,
    pub diagnostic: Option<String>,
}

/// Turns an outcome into the report the operator sees: a completed run keeps
/// the script's own exit code and carries no diagnostic; a failed run exits
/// non-zero — `10` exactly for a snapshot-integrity failure — with a
/// diagnostic line that carries the error's message.
pub fn report_outcome(outcome: &RunOutcome) -> (r: Report)
    ensures
        outcome matches RunOutcome::Completed { code } ==> r.exit_code == code && r.diagnostic
            is None,
        outcome matches RunOutcome::Failed { error } ==> {
            &&& r.exit_code as int == spec_exit_code(*error)
            &&& r.exit_code != 0
            &&& r.diagnostic matches Some(d) && d@ == diagnostic_text(spec_message(*error))
        },
{
    match outcome {
        RunOutcome::Completed { code } => Report { exit_code: *code, diagnostic: None },
        RunOutcome::Failed { error } => Report {
            exit_code: error.exit_code(),
            diagnostic: Some(error.diagnostic_line()),
        },
    }
}

/// What the harness does with a path argument: an empty path is rejected
/// before any engine component is built; any other path becomes the
/// argument vector handed to the engine's own flag parser.
pub enum RunPlan {
    NoInput,
    Execute { args: Vec<String> },
}

/// Plans one run. The path is rejected if and only if it is empty; otherwise
/// the plan carries exactly the vector `["deno", "run", path]`.
pub fn plan_run(path: &str) -> (p: RunPlan)
    ensures
        p is NoInput <==> path@.len() == 0,
        p matches RunPlan::Execute { args } ==> {
            &&& args@.len() == 3
            &&& args@[0]@ == "deno"@
            &&& args@[1]@ == "run"@
            &&& args@[2]@ == path@
        },
{
    if path.is_empty() {
        RunPlan::NoInput
    } else {
        let mut args: Vec<String> = Vec::new();
        args.push(String::from_str("deno"));
        args.push(String::from_str("run"));
        args.push(String::from_str(path));
        RunPlan::Execute { args }
    }
}

/// What the harness reports for an empty path argument.
pub fn no_input_message() -> (s: String)
    ensures
        s@ == "no input provided"@,
{
    String::from_str("no input provided")
}

/// The host state the harness threads through a run: whether the outbound
/// package-client identifier has been established.
#[derive(Clone, Copy, Debug, PartialEq, Eq, Structural)]
pub struct HostState {
    pub npm_user_agent_set: bool,
}

impl HostState {
    /// A fresh process: no identifier set yet.
    pub fn new() -> (s: HostState)
        ensures
            !s.npm_user_agent_set,
    {
        HostState { npm_user_agent_set: false }
    }
}

/// The one side effect the harness may ask the driver for while resolving a
/// main module.
#[derive(Clone, Copy, Debug, PartialEq, Eq, Structural)]
pub enum SideAction {
    SetNpmUserAgent,
    NoAction,
}

/// The transition one scheme observation makes: the identifier is requested
/// exactly when the scheme marks a managed dependency and it is not yet set,
/// and the flag records that it is set from then on.
pub open spec fn scheme_step(
    pre: HostState,
    scheme: Seq<char>,
    action: SideAction,
    post: HostState,
) -> bool {
    &&& (action == SideAction::SetNpmUserAgent <==> (scheme == "npm"@ && !pre.npm_user_agent_set))
    &&& post.npm_user_agent_set == (pre.npm_user_agent_set || scheme == "npm"@)
}

/// Observes the resolved main module's scheme. Asks the driver to set the
/// package-client identifier exactly when the scheme is `npm` and it has not
/// been set before, so the side effect runs at most once per process.
pub fn note_main_module_scheme(state: &mut HostState, scheme: &str) -> (a: SideAction)
    ensures
        scheme_step(*old(state), scheme@, a, *final(state)),
{
    if str_eq(scheme, "npm") {
        if state.npm_user_agent_set {
            SideAction::NoAction
        } else {
            state.npm_user_agent_set = true;
            SideAction::SetNpmUserAgent
        }
    } else {
        SideAction::NoAction
    }
}

/// A whole run's worth of scheme observations: `states` threads the host
/// state through, one [`scheme_step`] per observation.
pub open spec fn valid_trace(
    states: Seq<HostState>,
    schemes: Seq<Seq<char>>,
    actions: Seq<SideAction>,
) -> bool {
    &&& states.len() == schemes.len() + 1
    &&& actions.len() == schemes.len()
    &&& forall|i: int|
        0 <= i < schemes.len() ==> scheme_step(states[i], schemes[i], #[trigger] actions[i], states[i + 1])
}

proof fn lemma_flag_stays(
    states: Seq<HostState>,
    schemes: Seq<Seq<char>>,
    actions: Seq<SideAction>,
    k: int,
    l: int,
)
    requires
        valid_trace(states, schemes, actions),
        0 <= k <= l < states.len(),
        states[k].npm_user_agent_set,
    ensures
        states[l].npm_user_agent_set,
    decreases l - k,
{
    if k < l {
        assert(scheme_step(states[k], schemes[k], actions[k], states[k + 1]));
        lemma_flag_stays(states, schemes, actions, k + 1, l);
    }
}

/// Law: over any run, the package-client identifier is set at most once —
/// once a step asks for it, no later step does.
pub proof fn lemma_user_agent_set_at_most_once(
    states: Seq<HostState>,
    schemes: Seq<Seq<char>>,
    actions: Seq<SideAction>,
    i: int,
    j: int,
)
    requires
        valid_trace(states, schemes, actions),
        0 <= i < j < actions.len(),
        actions[i] == SideAction::SetNpmUserAgent,
    ensures
        actions[j] != SideAction::SetNpmUserAgent,
{
    assert(scheme_step(states[i], schemes[i], actions[i], states[i + 1]));
    lemma_flag_stays(states, schemes, actions, i + 1, j);
    assert(scheme_step(states[j], schemes[j], actions[j], states[j + 1]));
}

/// How the engine's own flag parsing went, as the driver reports it:
/// parsed, a version-display request, or malformed flags with the parser's
/// message.
pub enum FlagParse {
    Parsed,
    VersionRequested,
    Malformed { message: String },
}

/// What a parse result settles before any script runs: nothing for a clean
/// parse; exit `0` and no diagnostic for a version request; exit `1` with a
/// diagnostic line for malformed flags.
pub fn usage_report(p: &FlagParse) -> (r: Option<Report>)
    ensures
        (p is Parsed <==> r is None),
        p is VersionRequested ==> (r matches Some(rep) && rep.exit_code == 0 && rep.diagnostic
            is None),
        p matches FlagParse::Malformed { message } ==> (r matches Some(rep) && {
            &&& rep.exit_code == 1
            &&& rep.diagnostic matches Some(d) && d@ == diagnostic_text(message@)
        }),
{
    match p {
        FlagParse::Parsed => None,
        FlagParse::VersionRequested => Some(Report { exit_code: 0, diagnostic: None }),
        FlagParse::Malformed { message } => {
            let err = HostError::Other { message: message.clone() };
            Some(Report { exit_code: 1, diagnostic: Some(err.diagnostic_line()) })
        },
    }
}

/// The notice shown when the removed catch-all unstable flag was given:
/// present exactly then, pointing at the granular flags that replaced it.
pub fn legacy_unstable_notice(legacy_flag_enabled: bool) -> (r: Option<String>)
    ensures
        r is Some <==> legacy_flag_enabled,
        r matches Some(s) ==> s@
            == "The `--unstable` flag has been removed in Deno 2.0. Use granular `--unstable-*` flags instead.\nLearn more at: https://docs.deno.com/runtime/manual/tools/unstable_flags"@,
{
    if legacy_flag_enabled {
        Some(
            String::from_str(
                "The `--unstable` flag has been removed in Deno 2.0. Use granular `--unstable-*` flags instead.\nLearn more at: https://docs.deno.com/runtime/manual/tools/unstable_flags",
            ),
        )
    } else {
        None
    }
}

/// The engine-tuning flags used when none are given: the language-server
/// subcommand raises the old-space bound; every other run disables harmony
/// import assertions.
pub fn default_v8_flags(lsp_subcommand: bool) -> (v: Vec<String>)
    ensures
        v@.len() == 1,
        lsp_subcommand ==> v@[0]@ == "--max-old-space-size=3072"@,
        !lsp_subcommand ==> v@[0]@ == "--no-harmony-import-assertions"@,
{
    let mut v: Vec<String> = Vec::new();
    if lsp_subcommand {
        v.push(String::from_str("--max-old-space-size=3072"));
    } else {
        v.push(String::from_str("--no-harmony-import-assertions"));
    }
    v
}

/// The engine cache directory the host configures: the `deno_dir`
/// subdirectory of the working directory.
pub fn cache_dir_path(cwd: &str) -> (p: String)
    ensures
        p@ == cwd@ + "/deno_dir"@,
{
    let mut p = String::from_str(cwd);
    p.append("/deno_dir");
    p
}

/// The ambient configuration established before any engine component is
/// built: the cache-directory variable, then the permission-tracing toggle.
pub fn startup_env_settings(cwd: &str) -> (v: Vec<(String, String)>)
    ensures
        v@.len() == 2,
        v@[0].0@ == "DENO_DIR"@,
        v@[0].1@ == cwd@ + "/deno_dir"@,
        v@[1].0@ == "DENO_TRACE_PERMISSIONS"@,
        v@[1].1@ == "1"@,
{
    let mut v: Vec<(String, String)> = Vec::new();
    v.push((String::from_str("DENO_DIR"), cache_dir_path(cwd)));
    v.push((String::from_str("DENO_TRACE_PERMISSIONS"), String::from_str("1")));
    v
}

} // verus!
