//! Rendering raw entries as configuration-file text, and a canonical
//! example configuration for use as a template.

use vstd::prelude::*;

use crate::config::RawUserEntries;
use crate::config::RawUserEntriesView;
use crate::config::CacheRule;
use crate::config::CacheRuleView;
use crate::config::Configuration;
use crate::config::UserConfig;
use crate::config::UserConfigView;
use crate::permissions::CachePermissions;

verus! {

/// A string in double quotes, as the file format writes keys and
/// permission names.
pub open spec fn spec_quoted(s: Seq<char>) -> Seq<char> {
    "\""@ + s + "\""@
}

/// The tail of a rendered permission-name list: every further name with
/// its separator.
pub open spec fn spec_render_names_rest(ns: Seq<Seq<char>>) -> Seq<char>
    decreases ns.len(),
{
    if ns.len() == 0 {
        Seq::empty()
    } else {
        ", "@ + spec_quoted(ns[0]) + spec_render_names_rest(ns.subrange(1, ns.len() as int))
    }
}

/// A rendered permission-name list: the quoted names, comma-separated.
pub open spec fn spec_render_names(ns: Seq<Seq<char>>) -> Seq<char> {
    if ns.len() == 0 {
        Seq::empty()
    } else {
        spec_quoted(ns[0]) + spec_render_names_rest(ns.subrange(1, ns.len() as int))
    }
}

/// One rendered rule line: the quoted pattern, an equals sign, and the
/// bracketed permission-name list.
pub open spec fn spec_render_rule(pattern: Seq<char>, ns: Seq<Seq<char>>) -> Seq<char> {
    spec_quoted(pattern) + " = ["@ + spec_render_names(ns) + "]\n"@
}

/// The rendered rule lines of one user, in order.
pub open spec fn spec_render_rules(rs: Seq<(Seq<char>, Seq<Seq<char>>)>) -> Seq<char>
    decreases rs.len(),
{
    if rs.len() == 0 {
        Seq::empty()
    } else {
        spec_render_rule(rs[0].0, rs[0].1) + spec_render_rules(rs.subrange(1, rs.len() as int))
    }
}

/// One rendered user: a quoted table header, then the user's rule lines.
pub open spec fn spec_render_user(name: Seq<char>, rs: Seq<(Seq<char>, Seq<Seq<char>>)>) -> Seq<
    char,
> {
    "[\""@ + name + "\"]\n"@ + spec_render_rules(rs)
}

/// The full rendered text of raw entries, user by user in order.
pub open spec fn spec_render_users(us: RawUserEntriesView) -> Seq<char>
    decreases us.len(),
{
    if us.len() == 0 {
        Seq::empty()
    } else {
        spec_render_user(us[0].0, us[0].1) + spec_render_users(us.subrange(1, us.len() as int))
    }
}

/// Render a permission-name list as the file format writes it.
fn render_names(ns: &Vec<String>) -> (r: String)
    ensures
        r@ == spec_render_names(ns.deep_view()),
{
    let ghost all: Seq<Seq<char>> = ns.deep_view();
    let mut out: String = String::new();
    if ns.len() == 0 {
        proof {
            assert(out@ =~= spec_render_names(all));
        }
        return out;
    }
    out.append("\"");
    out.append(ns[0].as_str());
    out.append("\"");
    proof {
        assert(ns@[0]@ == all[0]);
        assert(out@ =~= spec_quoted(all[0]));
    }
    let mut k: usize = 1;
    while k < ns.len()
        invariant
            1 <= k <= ns.len(),
            all == ns.deep_view(),
            all.len() == ns@.len(),
            spec_render_names(all) =~= out@ + spec_render_names_rest(
                all.subrange(k as int, all.len() as int),
            ),
        decreases ns.len() - k,
    {
        let ghost suffix = all.subrange(k as int, all.len() as int);
        proof {
            assert(suffix[0] == all[k as int]);
            assert(ns@[k as int]@ == all[k as int]);
            assert(suffix.subrange(1, suffix.len() as int) =~= all.subrange(
                k as int + 1,
                all.len() as int,
            ));
        }
        out.append(", ");
        out.append("\"");
        out.append(ns[k].as_str());
        out.append("\"");
        k = k + 1;
    }
    proof {
        assert(spec_render_names_rest(all.subrange(k as int, all.len() as int)) =~= Seq::<
            char,
        >::empty());
        assert(out@ + Seq::<char>::empty() =~= out@);
    }
    out
}

/// Render one user's rule lines as the file format writes them.
fn render_rules(rs: &Vec<(String, Vec<String>)>) -> (r: String)
    ensures
        r@ == spec_render_rules(rs.deep_view()),
{
    let ghost all: Seq<(Seq<char>, Seq<Seq<char>>)> = rs.deep_view();
    let mut out: String = String::new();
    let mut j: usize = 0;
    proof {
        assert(all.subrange(0, all.len() as int) =~= all);
    }
    while j < rs.len()
        invariant
            0 <= j <= rs.len(),
            all == rs.deep_view(),
            all.len() == rs@.len(),
            spec_render_rules(all) =~= out@ + spec_render_rules(
                all.subrange(j as int, all.len() as int),
            ),
        decreases rs.len() - j,
    {
        let ghost suffix = all.subrange(j as int, all.len() as int);
        proof {
            assert(suffix[0] == all[j as int]);
            assert(rs@[j as int].0@ == all[j as int].0);
            assert(rs@[j as int].1.deep_view() == all[j as int].1);
            assert(suffix.subrange(1, suffix.len() as int) =~= all.subrange(
                j as int + 1,
                all.len() as int,
            ));
        }
        out.append("\"");
        out.append(rs[j].0.as_str());
        out.append("\"");
        out.append(" = [");
        let names = render_names(&rs[j].1);
        out.append(names.as_str());
        out.append("]\n");
        j = j + 1;
    }
    proof {
        assert(spec_render_rules(all.subrange(j as int, all.len() as int)) =~= Seq::<
            char,
        >::empty());
        assert(out@ + Seq::<char>::empty() =~= out@);
    }
    out
}

/// Render raw entries as a full configuration file: one table per user,
/// one line per rule. What this produces, the loader parses back.
pub fn render_raw_entries(us: &RawUserEntries) -> (r: String)
    ensures
        r@ == spec_render_users(us.deep_view()),
{
    let ghost all: RawUserEntriesView = us.deep_view();
    let mut out: String = String::new();
    let mut i: usize = 0;
    proof {
        assert(all.subrange(0, all.len() as int) =~= all);
    }
    while i < us.len()
        invariant
            0 <= i <= us.len(),
            all == us.deep_view(),
            all.len() == us@.len(),
            spec_render_users(all) =~= out@ + spec_render_users(
                all.subrange(i as int, all.len() as int),
            ),
        decreases us.len() - i,
    {
        let ghost suffix = all.subrange(i as int, all.len() as int);
        proof {
            assert(suffix[0] == all[i as int]);
            assert(us@[i as int].0@ == all[i as int].0);
            assert(us@[i as int].1.deep_view() == all[i as int].1);
            assert(suffix.subrange(1, suffix.len() as int) =~= all.subrange(
                i as int + 1,
                all.len() as int,
            ));
        }
        out.append("[\"");
        out.append(us[i].0.as_str());
        out.append("\"]\n");
        let rules = render_rules(&us[i].1);
        out.append(rules.as_str());
        i = i + 1;
    }
    proof {
        assert(spec_render_users(all.subrange(i as int, all.len() as int)) =~= Seq::<
            char,
        >::empty());
        assert(out@ + Seq::<char>::empty() =~= out@);
    }
    out
}

/// The raw entries of the canonical example configuration: two users, one
/// with plain permissions, one with an alias.
pub open spec fn spec_example_entries() -> RawUserEntriesView {
    seq![
        ("alice"@, seq![("alice-*"@, seq!["push"@, "pull"@])]),
        ("bob"@, seq![("bob-cache"@, seq!["admin"@])]),
    ]
}

/// The configuration that the example describes, aliases expanded.
pub open spec fn spec_example_config() -> Seq<UserConfigView> {
    seq![
        (UserConfigView {
            name: "alice"@,
            rules: seq![
                (CacheRuleView {
                    pattern: "alice-*"@,
                    permissions: seq![CachePermissions::Push, CachePermissions::Pull],
                }),
            ],
        }),
        (UserConfigView {
            name: "bob"@,
            rules: seq![
                (CacheRuleView {
                    pattern: "bob-cache"@,
                    permissions: seq![
                        CachePermissions::Create,
                        CachePermissions::Configure,
                        CachePermissions::ConfigureCacheRetention,
                        CachePermissions::DestroyCache,
                    ],
                }),
            ],
        }),
    ]
}

/// Build the raw entries of the example configuration.
pub fn example_raw_entries() -> (r: RawUserEntries)
    ensures
        r.deep_view() == spec_example_entries(),
{
    let mut alice_names: Vec<String> = Vec::new();
    alice_names.push("push".to_owned());
    alice_names.push("pull".to_owned());
    let mut alice_rules: Vec<(String, Vec<String>)> = Vec::new();
    alice_rules.push(("alice-*".to_owned(), alice_names));
    let mut bob_names: Vec<String> = Vec::new();
    bob_names.push("admin".to_owned());
    let mut bob_rules: Vec<(String, Vec<String>)> = Vec::new();
    bob_rules.push(("bob-cache".to_owned(), bob_names));
    let mut users: RawUserEntries = Vec::new();
    users.push(("alice".to_owned(), alice_rules));
    users.push(("bob".to_owned(), bob_rules));
    proof {
        assert(users.deep_view() =~~= spec_example_entries());
    }
    users
}

/// The text of the example configuration file.
pub fn example_config_text() -> (r: String)
    ensures
        r@ == spec_render_users(spec_example_entries()),
{
    let entries = example_raw_entries();
    render_raw_entries(&entries)
}

/// Build the configuration that the example describes.
pub fn example_configuration() -> (c: Configuration)
    ensures
        c@ == spec_example_config(),
{
    let mut alice_perms: Vec<CachePermissions> = Vec::new();
    alice_perms.push(CachePermissions::Push);
    alice_perms.push(CachePermissions::Pull);
    let mut alice_rules: Vec<CacheRule> = Vec::new();
    alice_rules.push(CacheRule { pattern: "alice-*".to_owned(), permissions: alice_perms });
    let mut bob_perms: Vec<CachePermissions> = Vec::new();
    bob_perms.push(CachePermissions::Create);
    bob_perms.push(CachePermissions::Configure);
    bob_perms.push(CachePermissions::ConfigureCacheRetention);
    bob_perms.push(CachePermissions::DestroyCache);
    let mut bob_rules: Vec<CacheRule> = Vec::new();
    bob_rules.push(CacheRule { pattern: "bob-cache".to_owned(), permissions: bob_perms });
    let mut users: Vec<UserConfig> = Vec::new();
    users.push(UserConfig { name: "alice".to_owned(), rules: alice_rules });
    users.push(UserConfig { name: "bob".to_owned(), rules: bob_rules });
    let c = Configuration { users };
    proof {
        assert(c@ =~~= spec_example_config());
    }
    c
}

} // verus!
