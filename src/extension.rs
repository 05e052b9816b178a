//! The adapter: where `mozuku-lsp` is found, how it is launched, and the
//! initialization options it is handed.
use vstd::prelude::*;
use zed_extension_api::serde_json;
use zed_extension_api::settings::LspSettings;
use zed_extension_api::{Command, LanguageServerId, Worktree};

use crate::host::server_name;
use crate::json::{
    empty_object, is_empty_object, is_singleton_object, json_entries, json_object_of,
    singleton_object,
};

verus! {

/// The executable name looked up on the search path.
pub const SERVER_BINARY: &'static str = "mozuku-lsp";

/// The key under which the server expects its initialization options.
pub const OPTIONS_KEY: &'static str = "mozuku";

/// The error reported when the executable is not on the search path.
pub const NOT_FOUND_MESSAGE: &'static str = "Could not find `mozuku-lsp` binary in your PATH. Please build it and ensure its location is added to your system's PATH.";

/// The key under which the server expects its initialization options.
pub open spec fn options_key() -> Seq<char> {
    "mozuku"@
}

/// The error reported when the executable is not on the search path.
pub open spec fn not_found_message() -> Seq<char> {
    "Could not find `mozuku-lsp` binary in your PATH. Please build it and ensure its location is added to your system's PATH."@
}

/// `c` runs the executable at `path` with no arguments and no environment
/// overrides.
pub open spec fn launches(c: Command, path: Seq<char>) -> bool {
    &&& c.command@ == path
    &&& c.args@.len() == 0
    &&& c.env@.len() == 0
}

/// What resolving the launch command gives for the outcome of the
/// search-path lookup.
pub open spec fn command_outcome(found: Option<String>, r: Result<Command, String>) -> bool {
    match found {
        Some(path) => r is Ok && launches(r->Ok_0, path@),
        None => r is Err && r->Err_0@ == not_found_message(),
    }
}

/// `v` is `{"mozuku": <configured>}`, or `{"mozuku": {}}` when nothing was
/// configured.
pub open spec fn wraps_options(v: serde_json::Value, configured: Option<serde_json::Value>) -> bool {
    match configured {
        Some(inner) => is_singleton_object(v, options_key(), inner),
        None => {
            &&& json_object_of(v) is Some
            &&& json_entries(json_object_of(v)->0).dom() == set![options_key()]
            &&& is_empty_object(json_entries(json_object_of(v)->0)[options_key()])
        },
    }
}

/// What producing the initialization options gives for the outcome of the
/// settings lookup: the lookup's error unchanged, or the wrapped options.
pub open spec fn init_options_outcome(
    settings: Result<Option<serde_json::Value>, String>,
    r: Result<Option<serde_json::Value>, String>,
) -> bool {
    match settings {
        Err(e) => r == Err::<Option<serde_json::Value>, String>(e),
        Ok(configured) => r is Ok && r->Ok_0 is Some && wraps_options(r->Ok_0->0, configured),
    }
}

/// The adapter. It holds no state: every answer depends on its inputs alone.
pub struct MoZukuExtension;

impl MoZukuExtension {
    /// Creates the adapter; this never fails.
    pub fn new() -> (r: MoZukuExtension)
        ensures
            r == MoZukuExtension,
    {
        MoZukuExtension
    }

    /// Looks `mozuku-lsp` up on the worktree's search path.
    fn binary_path(&mut self, worktree: &Worktree) -> (r: Result<String, String>)
        ensures
            *final(self) == *old(self),
            r is Err ==> r->Err_0@ == not_found_message(),
    {
        resolve_binary_path(worktree.which(SERVER_BINARY))
    }

    /// The command that starts the language server: the executable found on
    /// the search path, with no arguments and no environment overrides, or the
    /// not-found error.
    pub fn language_server_command(
        &mut self,
        _language_server_id: &LanguageServerId,
        worktree: &Worktree,
    ) -> (r: Result<Command, String>)
        ensures
            *final(self) == *old(self),
            r is Ok ==> r->Ok_0.args@.len() == 0 && r->Ok_0.env@.len() == 0,
            r is Err ==> r->Err_0@ == not_found_message(),
    {
        match self.binary_path(worktree) {
            Ok(path) => Ok(command_for_path(path)),
            Err(e) => Err(e),
        }
    }

    /// The initialization options for the language server: the configured
    /// options nested under `"mozuku"` (an empty object when none are
    /// configured), or the host's settings error unchanged.
    pub fn language_server_initialization_options(
        &mut self,
        language_server_id: &LanguageServerId,
        worktree: &Worktree,
    ) -> (r: Result<Option<serde_json::Value>, String>)
        ensures
            *final(self) == *old(self),
            r is Ok ==> r->Ok_0 is Some && json_object_of(r->Ok_0->0) is Some
                && json_entries(json_object_of(r->Ok_0->0)->0).dom() == set![options_key()],
    {
        let settings = match LspSettings::for_worktree(server_name(language_server_id), worktree) {
            Ok(s) => Ok(s.initialization_options),
            Err(e) => Err(e),
        };
        init_options_from(settings)
    }
}

/// The executable's path from the outcome of the search-path lookup, or the
/// not-found error.
pub fn resolve_binary_path(found: Option<String>) -> (r: Result<String, String>)
    ensures
        match found {
            Some(path) => r == Ok::<String, String>(path),
            None => r is Err && r->Err_0@ == not_found_message(),
        },
{
    match found {
        Some(path) => Ok(path),
        None => Err(NOT_FOUND_MESSAGE.to_string()),
    }
}

/// The command that runs the executable at `path`, with no arguments and no
/// environment overrides.
pub fn command_for_path(path: String) -> (r: Command)
    ensures
        launches(r, path@),
{
    Command { command: path, args: Vec::new(), env: Vec::new() }
}

/// The launch command from the outcome of the search-path lookup.
pub fn command_from_lookup(found: Option<String>) -> (r: Result<Command, String>)
    ensures
        command_outcome(found, r),
{
    match resolve_binary_path(found) {
        Ok(path) => Ok(command_for_path(path)),
        Err(e) => Err(e),
    }
}

/// Nests the configured options under `"mozuku"`; absent options become `{}`.
pub fn wrap_init_options(configured: Option<serde_json::Value>) -> (r: serde_json::Value)
    ensures
        wraps_options(r, configured),
{
    let inner = match configured {
        Some(v) => v,
        None => empty_object(),
    };
    let r = singleton_object(OPTIONS_KEY, inner);
    proof {
        assert(map![options_key() => inner].dom() =~= set![options_key()]);
    }
    r
}

/// The initialization options from the outcome of the settings lookup.
pub fn init_options_from(settings: Result<Option<serde_json::Value>, String>) -> (r: Result<
    Option<serde_json::Value>,
    String,
>)
    ensures
        init_options_outcome(settings, r),
{
    match settings {
        Ok(configured) => Ok(Some(wrap_init_options(configured))),
        Err(e) => Err(e),
    }
}

/// What the host reads of a launch command: executable, arguments and
/// environment overrides.
pub open spec fn command_view(c: Command) -> (Seq<char>, Seq<String>, Seq<(String, String)>) {
    (c.command@, c.args@, c.env@)
}

/// `a` and `b` are objects with the same keys, and under each key the same
/// value, or an empty object in both.
pub open spec fn same_members(a: serde_json::Value, b: serde_json::Value) -> bool {
    &&& json_object_of(a) is Some
    &&& json_object_of(b) is Some
    &&& json_entries(json_object_of(a)->0).dom() == json_entries(json_object_of(b)->0).dom()
    &&& forall|k: Seq<char>|
        #![trigger json_entries(json_object_of(a)->0)[k]]
        json_entries(json_object_of(a)->0).dom().contains(k) ==> {
            ||| json_entries(json_object_of(a)->0)[k] == json_entries(json_object_of(b)->0)[k]
            ||| is_empty_object(json_entries(json_object_of(a)->0)[k]) && is_empty_object(
                json_entries(json_object_of(b)->0)[k],
            )
        }
}

/// Resolving the launch command twice from the same lookup outcome gives the
/// same command both times, or the same error.
pub proof fn lemma_command_idempotent(
    found: Option<String>,
    r1: Result<Command, String>,
    r2: Result<Command, String>,
)
    requires
        command_outcome(found, r1),
        command_outcome(found, r2),
    ensures
        match (r1, r2) {
            (Ok(c1), Ok(c2)) => command_view(c1) == command_view(c2),
            (Err(e1), Err(e2)) => e1@ == e2@,
            _ => false,
        },
{
    if let (Ok(c1), Ok(c2)) = (r1, r2) {
        assert(c1.args@ =~= c2.args@);
        assert(c1.env@ =~= c2.env@);
    }
}

/// Producing the initialization options twice from the same settings gives
/// the same error both times, or two objects with the same members.
pub proof fn lemma_init_options_idempotent(
    settings: Result<Option<serde_json::Value>, String>,
    r1: Result<Option<serde_json::Value>, String>,
    r2: Result<Option<serde_json::Value>, String>,
)
    requires
        init_options_outcome(settings, r1),
        init_options_outcome(settings, r2),
    ensures
        match (r1, r2) {
            (Ok(Some(a)), Ok(Some(b))) => same_members(a, b),
            (Err(e1), Err(e2)) => e1 == e2,
            _ => false,
        },
{
    if let Ok(configured) = settings {
        let a = r1->Ok_0->0;
        let b = r2->Ok_0->0;
        let key = options_key();
        assert(json_entries(json_object_of(a)->0).dom() =~= set![key]);
        assert(json_entries(json_object_of(b)->0).dom() =~= set![key]);
        assert forall|k: Seq<char>|
            #![trigger json_entries(json_object_of(a)->0)[k]]
            json_entries(json_object_of(a)->0).dom().contains(k) implies {
            ||| json_entries(json_object_of(a)->0)[k] == json_entries(json_object_of(b)->0)[k]
            ||| is_empty_object(json_entries(json_object_of(a)->0)[k]) && is_empty_object(
                json_entries(json_object_of(b)->0)[k],
            )
        } by {
            assert(k == key);
        }
    }
}

} // verus!
