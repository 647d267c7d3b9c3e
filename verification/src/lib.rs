//! Generation of token-issuance invocations for a cache administration
//! binary, driven by a declarative user/permission configuration.
//!
//! The configuration maps each user to a list of cache-pattern rules, each
//! rule carrying a list of permissions. Permission names may be aggregate
//! aliases, which expand to a fixed list of base permissions. From a parsed
//! configuration the library builds, per user, the argument list of one
//! `make-token` invocation of the administration binary.

use vstd::prelude::*;

pub mod command;
pub mod config;
pub mod example;
pub mod permissions;
pub mod toml_io;

use crate::config::ConfigError;
use crate::config::Configuration;
use crate::config::lemma_build_users_names;
use crate::config::spec_build_users;
use crate::toml_io::toml_user_entries;

verus! {

/// Command-line options of the tool: what to run, for whom, and whether to
/// only show the command.
pub struct Args {
    /// Show the command but do not actually run it.
    pub dry_run: bool,
    /// Binary to call with the generated arguments.
    pub program: String,
    /// Duration of validity for the generated tokens.
    pub validity: String,
    /// Path of the file with the user configuration in it.
    pub file: String,
    /// Name of the user to issue a token for.
    pub name: String,
}

/// Load a configuration from the text of a configuration file: parse the
/// nested mapping, then interpret every permission name, expanding
/// aliases. Fails with `Parse` where the text is not a well-formed nested
/// mapping, and with `UnknownPermission` on the first permission name
/// outside the vocabulary; a loaded configuration has unique user names.
pub fn load_configuration(text: &str) -> (r: Result<Configuration, ConfigError>)
    ensures
        match toml_user_entries(text@) {
            None => r matches Err(e) && e matches ConfigError::Parse(_),
            Some(es) => match spec_build_users(es) {
                Ok(uvs) => r matches Ok(c) && c@ == uvs && c.wf(),
                Err(u) => r matches Err(ConfigError::UnknownPermission(s)) && s@ == u,
            },
        },
{
    let raw = match crate::toml_io::parse_toml_users(text) {
        Ok(raw) => raw,
        Err(e) => {
            let message = crate::toml_io::toml_error_message(&e);
            return Err(ConfigError::Parse(message));
        },
    };
    let config = crate::config::build_configuration(&raw);
    proof {
        let es = raw.deep_view();
        if spec_build_users(es) is Ok {
            lemma_build_users_names(es);
            let uvs = spec_build_users(es)->Ok_0;
            assert forall|i: int, j: int|
                0 <= i < j < uvs.len() implies uvs[i].name != uvs[j].name by {
                assert(uvs[i].name == es[i].0);
                assert(uvs[j].name == es[j].0);
                assert(es[i].0 != es[j].0);
            }
        }
    }
    config
}

} // verus!
