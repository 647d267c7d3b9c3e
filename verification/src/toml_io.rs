//! The bridge to the TOML parser: the configuration file format is a
//! nested mapping `user -> pattern -> [permission names]`, read here into
//! raw entries whose permission names the rest of the library interprets.

use vstd::prelude::*;

use crate::config::RawUserEntries;
use crate::config::RawUserEntriesView;
use std::collections::BTreeMap;

verus! {

#[verifier::external_type_specification]
#[verifier::external_body]
pub struct ExTomlDeError(toml::de::Error);

/// The raw user entries that the file format assigns to a text: one entry
/// per user in ascending name order, each with its `(pattern, permission
/// names)` pairs in ascending pattern order; `None` where the text is not
/// a well-formed nested mapping of the format.
pub uninterp spec fn toml_user_entries(s: Seq<char>) -> Option<RawUserEntriesView>;

/// Relies on toml::from_str: deserializes TOML text into a nested ordered
/// map of user name to pattern to permission-name list. The outcome is a
/// function of the text alone, and the keys of each map are unique and in
/// ascending order, so the entries carry no duplicate user names.
#[verifier::external_body]
pub(crate) fn parse_toml_users(s: &str) -> (r: Result<RawUserEntries, toml::de::Error>)
    ensures
        match r {
            Ok(v) => toml_user_entries(s@) == Some(v.deep_view()),
            Err(_) => toml_user_entries(s@) is None,
        },
        r matches Ok(v) ==> (forall|i: int, j: int|
            0 <= i < j < v.deep_view().len() ==> v.deep_view()[i].0 != v.deep_view()[j].0),
{
    let parsed: BTreeMap<String, BTreeMap<String, Vec<String>>> = match toml::from_str(s) {
        Ok(parsed) => parsed,
        Err(e) => {
            return Err(e);
        },
    };
    Ok(parsed.into_iter().map(|(name, rules)| (name, rules.into_iter().collect())).collect())
}

/// Relies on toml::de::Error::message: a human-readable description of
/// what went wrong while parsing.
#[verifier::external_body]
pub(crate) fn toml_error_message(e: &toml::de::Error) -> (r: String) {
    e.message().to_owned()
}

} // verus!
