//! The host's types and the two lookups the adapter asks of it.
use vstd::prelude::*;
use zed_extension_api::settings::{CommandSettings, LspSettings};
use zed_extension_api::{Command, LanguageServerId, Worktree};

verus! {

/// The host's worktree handle; opaque here.
#[verifier::external_type_specification]
#[verifier::external_body]
pub struct ExWorktree(Worktree);

/// The host's identifier of a language server; opaque here.
#[verifier::external_type_specification]
#[verifier::external_body]
pub struct ExLanguageServerId(LanguageServerId);

/// The binary settings of a language server; the adapter does not read them.
#[verifier::external_type_specification]
#[verifier::external_body]
pub struct ExCommandSettings(CommandSettings);

/// A language server's settings, with their public fields.
#[verifier::external_type_specification]
pub struct ExLspSettings(LspSettings);

/// The command the host runs: executable, arguments, environment overrides.
#[verifier::external_type_specification]
pub struct ExCommand(Command);

/// Relies on the host's `Worktree::which`: the search-path lookup of an
/// executable name. What it finds depends on the user's system, so nothing is
/// promised of it.
pub assume_specification[ Worktree::which ](w: &Worktree, binary_name: &str) -> Option<String>;

/// Relies on `LspSettings::for_worktree`: the host's settings for a language
/// server in a worktree, or the host's error. Both depend on the user's
/// configuration, so nothing is promised of them.
pub assume_specification[ LspSettings::for_worktree ](language_server_name: &str, worktree: &Worktree) -> Result<LspSettings, String>;

/// Relies on `LanguageServerId`'s `AsRef<str>`: the identifier's text.
#[verifier::external_body]
pub(crate) fn server_name(id: &LanguageServerId) -> &str {
    id.as_ref()
}

} // verus!
