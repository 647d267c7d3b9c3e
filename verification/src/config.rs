//! The configuration model: per-user cache rules, built from the raw
//! user/pattern/permission-string entries of a configuration file by
//! parsing each permission name and expanding aliases.

use vstd::prelude::*;

use crate::permissions::CachePermissions;
use crate::permissions::CachePermissionsExtended;
use crate::permissions::base_as_extended;
use crate::permissions::lemma_base_expands_to_singleton;
use crate::permissions::spec_expand;

verus! {

/// Raw entries of a configuration file, structure checked but permission
/// names not yet interpreted: one `(user name, rules)` pair per user, each
/// rule a `(pattern, permission names)` pair.
pub type RawUserEntries = Vec<(String, Vec<(String, Vec<String>)>)>;

/// The view of [`RawUserEntries`]: everything as sequences of characters.
pub type RawUserEntriesView = Seq<(Seq<char>, Seq<(Seq<char>, Seq<Seq<char>>)>)>;

/// A cache rule: a cache-name pattern together with the permissions granted
/// on caches matching it. The pattern is opaque to this tool; the target
/// binary interprets it.
#[derive(Debug, Clone, PartialEq, Eq)]
pub struct CacheRule {
    pub pattern: String,
    pub permissions: Vec<CachePermissions>,
}

/// Mathematical view of a [`CacheRule`].
#[verifier::ext_equal]
pub struct CacheRuleView {
    pub pattern: Seq<char>,
    pub permissions: Seq<CachePermissions>,
}

impl View for CacheRule {
    type V = CacheRuleView;

    open spec fn view(&self) -> CacheRuleView {
        (CacheRuleView { pattern: self.pattern@, permissions: self.permissions@ })
    }
}

/// One user's configuration: the user's identity and the ordered list of
/// cache rules granted to it.
#[derive(Debug, Clone, PartialEq, Eq)]
pub struct UserConfig {
    pub name: String,
    pub rules: Vec<CacheRule>,
}

/// Mathematical view of a [`UserConfig`].
#[verifier::ext_equal]
pub struct UserConfigView {
    pub name: Seq<char>,
    pub rules: Seq<CacheRuleView>,
}

impl View for UserConfig {
    type V = UserConfigView;

    open spec fn view(&self) -> UserConfigView {
        (UserConfigView { name: self.name@, rules: self.rules@.map_values(|r: CacheRule| r@) })
    }
}

/// The full configuration loaded from one file, in file order.
#[derive(Debug, Clone, PartialEq, Eq)]
pub struct Configuration {
    pub users: Vec<UserConfig>,
}

impl View for Configuration {
    type V = Seq<UserConfigView>;

    open spec fn view(&self) -> Seq<UserConfigView> {
        self.users@.map_values(|u: UserConfig| u@)
    }
}

impl Configuration {
    /// User identities are unique within a configuration.
    pub open spec fn wf(&self) -> bool {
        forall|i: int, j: int|
            0 <= i < j < self@.len() ==> self@[i].name != self@[j].name
    }
}

/// Why a configuration could not be built.
#[derive(Debug, Clone, PartialEq, Eq)]
pub enum ConfigError {
    /// A permission name in the file is not in the extended vocabulary.
    UnknownPermission(String),
    /// The file is not well-formed for the configuration format; the
    /// parser's description of the failure is kept.
    Parse(String),
}

/// The permission name a string must carry to parse as a given extended
/// permission: the hyphenated-lowercase convention of the file format.
pub open spec fn spec_permission_name(e: CachePermissionsExtended) -> Seq<char> {
    match e {
        CachePermissionsExtended::Push => "push"@,
        CachePermissionsExtended::Pull => "pull"@,
        CachePermissionsExtended::Delete => "delete"@,
        CachePermissionsExtended::Create => "create"@,
        CachePermissionsExtended::Configure => "configure"@,
        CachePermissionsExtended::ConfigureCacheRetention => "configure-cache-retention"@,
        CachePermissionsExtended::DestroyCache => "destroy-cache"@,
        CachePermissionsExtended::All => "all"@,
        CachePermissionsExtended::Admin => "admin"@,
        CachePermissionsExtended::Use => "use"@,
    }
}

/// Interpretation of one permission string: the extended permission it
/// names, or `None` if it is not in the vocabulary.
pub open spec fn spec_parse_permission(s: Seq<char>) -> Option<CachePermissionsExtended> {
    if s == spec_permission_name(CachePermissionsExtended::Push) {
        Some(CachePermissionsExtended::Push)
    } else if s == spec_permission_name(CachePermissionsExtended::Pull) {
        Some(CachePermissionsExtended::Pull)
    } else if s == spec_permission_name(CachePermissionsExtended::Delete) {
        Some(CachePermissionsExtended::Delete)
    } else if s == spec_permission_name(CachePermissionsExtended::Create) {
        Some(CachePermissionsExtended::Create)
    } else if s == spec_permission_name(CachePermissionsExtended::Configure) {
        Some(CachePermissionsExtended::Configure)
    } else if s == spec_permission_name(CachePermissionsExtended::ConfigureCacheRetention) {
        Some(CachePermissionsExtended::ConfigureCacheRetention)
    } else if s == spec_permission_name(CachePermissionsExtended::DestroyCache) {
        Some(CachePermissionsExtended::DestroyCache)
    } else if s == spec_permission_name(CachePermissionsExtended::All) {
        Some(CachePermissionsExtended::All)
    } else if s == spec_permission_name(CachePermissionsExtended::Admin) {
        Some(CachePermissionsExtended::Admin)
    } else if s == spec_permission_name(CachePermissionsExtended::Use) {
        Some(CachePermissionsExtended::Use)
    } else {
        None
    }
}

/// Whether two strings hold the same characters.
fn str_eq(a: &str, b: &str) -> (r: bool)
    ensures
        r == (a@ == b@),
{
    let a_owned: String = a.to_owned();
    let b_owned: String = b.to_owned();
    a_owned == b_owned
}

/// Parse one permission string into the extended vocabulary.
pub fn parse_permission(s: &str) -> (r: Option<CachePermissionsExtended>)
    ensures
        r == spec_parse_permission(s@),
{
    if str_eq(s, "push") {
        Some(CachePermissionsExtended::Push)
    } else if str_eq(s, "pull") {
        Some(CachePermissionsExtended::Pull)
    } else if str_eq(s, "delete") {
        Some(CachePermissionsExtended::Delete)
    } else if str_eq(s, "create") {
        Some(CachePermissionsExtended::Create)
    } else if str_eq(s, "configure") {
        Some(CachePermissionsExtended::Configure)
    } else if str_eq(s, "configure-cache-retention") {
        Some(CachePermissionsExtended::ConfigureCacheRetention)
    } else if str_eq(s, "destroy-cache") {
        Some(CachePermissionsExtended::DestroyCache)
    } else if str_eq(s, "all") {
        Some(CachePermissionsExtended::All)
    } else if str_eq(s, "admin") {
        Some(CachePermissionsExtended::Admin)
    } else if str_eq(s, "use") {
        Some(CachePermissionsExtended::Use)
    } else {
        None
    }
}

/// The base permissions named by a list of permission strings, in order,
/// aliases expanded in place; or the first string that is not a permission.
pub open spec fn spec_expand_strings(ss: Seq<Seq<char>>) -> Result<
    Seq<CachePermissions>,
    Seq<char>,
>
    decreases ss.len(),
{
    if ss.len() == 0 {
        Ok(Seq::empty())
    } else {
        match spec_parse_permission(ss[0]) {
            None => Err(ss[0]),
            Some(e) => match spec_expand_strings(ss.subrange(1, ss.len() as int)) {
                Ok(rest) => Ok(spec_expand(e) + rest),
                Err(u) => Err(u),
            },
        }
    }
}

/// Expand a list of permission strings into base permissions, in order.
/// Fails on the first string that is not in the extended vocabulary,
/// naming it.
pub fn expand_permission_strings(ss: &Vec<String>) -> (r: Result<
    Vec<CachePermissions>,
    ConfigError,
>)
    ensures
        match spec_expand_strings(ss.deep_view()) {
            Ok(ps) => r matches Ok(v) && v@ == ps,
            Err(u) => r matches Err(ConfigError::UnknownPermission(s)) && s@ == u,
        },
{
    let ghost all: Seq<Seq<char>> = ss.deep_view();
    let mut acc: Vec<CachePermissions> = Vec::new();
    let mut i: usize = 0;
    proof {
        assert(all.subrange(0, all.len() as int) =~= all);
        if spec_expand_strings(all) is Ok {
            let whole = spec_expand_strings(all)->Ok_0;
            assert(Seq::<CachePermissions>::empty() + whole =~= whole);
        }
    }
    while i < ss.len()
        invariant
            0 <= i <= ss.len(),
            all == ss.deep_view(),
            all.len() == ss@.len(),
            spec_expand_strings(all) == match spec_expand_strings(
                all.subrange(i as int, all.len() as int),
            ) {
                Ok(rest) => Ok::<Seq<CachePermissions>, Seq<char>>(acc@ + rest),
                Err(u) => Err::<Seq<CachePermissions>, Seq<char>>(u),
            },
        decreases ss.len() - i,
    {
        let ghost suffix = all.subrange(i as int, all.len() as int);
        let ghost suffix_rest = all.subrange(i as int + 1, all.len() as int);
        proof {
            assert(suffix[0] == all[i as int]);
            assert(ss@[i as int]@ == all[i as int]);
            assert(suffix.subrange(1, suffix.len() as int) =~= suffix_rest);
        }
        match parse_permission(ss[i].as_str()) {
            None => {
                proof {
                    assert(spec_expand_strings(suffix) == Err::<Seq<CachePermissions>, Seq<char>>(
                        all[i as int],
                    ));
                }
                return Err(ConfigError::UnknownPermission(ss[i].clone()));
            },
            Some(e) => {
                let ghost acc_before = acc@;
                let mut expanded = e.expand();
                acc.append(&mut expanded);
                proof {
                    if spec_expand_strings(suffix_rest) is Ok {
                        let rest = spec_expand_strings(suffix_rest)->Ok_0;
                        assert(acc_before + (spec_expand(e) + rest) =~= acc@ + rest);
                    }
                }
                i = i + 1;
            },
        }
    }
    proof {
        assert(all.subrange(i as int, all.len() as int) =~= Seq::<Seq<char>>::empty());
        assert(acc@ + Seq::<CachePermissions>::empty() =~= acc@);
    }
    Ok(acc)
}

/// The cache rules described by a user's raw `(pattern, permission names)`
/// entries, in order; or the first string that is not a permission.
pub open spec fn spec_build_rules(rs: Seq<(Seq<char>, Seq<Seq<char>>)>) -> Result<
    Seq<CacheRuleView>,
    Seq<char>,
>
    decreases rs.len(),
{
    if rs.len() == 0 {
        Ok(Seq::empty())
    } else {
        match spec_expand_strings(rs[0].1) {
            Err(u) => Err(u),
            Ok(ps) => match spec_build_rules(rs.subrange(1, rs.len() as int)) {
                Ok(rest) => Ok(
                    seq![(CacheRuleView { pattern: rs[0].0, permissions: ps })] + rest,
                ),
                Err(u) => Err(u),
            },
        }
    }
}

/// Build one user's rule list from its raw entries, expanding every
/// permission name; fails on the first unknown permission name.
pub fn build_rules(rs: &Vec<(String, Vec<String>)>) -> (r: Result<Vec<CacheRule>, ConfigError>)
    ensures
        match spec_build_rules(rs.deep_view()) {
            Ok(rvs) => r matches Ok(v) && v@.map_values(|c: CacheRule| c@) == rvs,
            Err(u) => r matches Err(ConfigError::UnknownPermission(s)) && s@ == u,
        },
{
    let ghost all: Seq<(Seq<char>, Seq<Seq<char>>)> = rs.deep_view();
    let mut acc: Vec<CacheRule> = Vec::new();
    let mut i: usize = 0;
    proof {
        assert(all.subrange(0, all.len() as int) =~= all);
        if spec_build_rules(all) is Ok {
            let whole = spec_build_rules(all)->Ok_0;
            assert(acc@.map_values(|c: CacheRule| c@) + whole =~= whole);
        }
    }
    while i < rs.len()
        invariant
            0 <= i <= rs.len(),
            all == rs.deep_view(),
            all.len() == rs@.len(),
            spec_build_rules(all) == match spec_build_rules(
                all.subrange(i as int, all.len() as int),
            ) {
                Ok(rest) => Ok::<Seq<CacheRuleView>, Seq<char>>(
                    acc@.map_values(|c: CacheRule| c@) + rest,
                ),
                Err(u) => Err::<Seq<CacheRuleView>, Seq<char>>(u),
            },
        decreases rs.len() - i,
    {
        let ghost suffix = all.subrange(i as int, all.len() as int);
        let ghost suffix_rest = all.subrange(i as int + 1, all.len() as int);
        proof {
            assert(suffix[0] == all[i as int]);
            assert(rs@[i as int].1.deep_view() == all[i as int].1);
            assert(rs@[i as int].0@ == all[i as int].0);
            assert(suffix.subrange(1, suffix.len() as int) =~= suffix_rest);
        }
        let permissions = match expand_permission_strings(&rs[i].1) {
            Ok(ps) => ps,
            Err(e) => {
                return Err(e);
            },
        };
        let rule = CacheRule { pattern: rs[i].0.clone(), permissions };
        let ghost acc_before = acc@.map_values(|c: CacheRule| c@);
        acc.push(rule);
        proof {
            assert(acc@.map_values(|c: CacheRule| c@) =~= acc_before + seq![rule@]);
            if spec_build_rules(suffix_rest) is Ok {
                let rest = spec_build_rules(suffix_rest)->Ok_0;
                assert(acc_before + (seq![rule@] + rest) =~= acc@.map_values(
                    |c: CacheRule| c@,
                ) + rest);
            }
        }
        i = i + 1;
    }
    proof {
        assert(all.subrange(i as int, all.len() as int) =~= Seq::<
            (Seq<char>, Seq<Seq<char>>),
        >::empty());
        assert(acc@.map_values(|c: CacheRule| c@) + Seq::<CacheRuleView>::empty() =~= acc@
            .map_values(|c: CacheRule| c@));
    }
    Ok(acc)
}

/// The configuration described by a file's raw user entries, in order;
/// or the first string that is not a permission.
pub open spec fn spec_build_users(us: RawUserEntriesView) -> Result<
    Seq<UserConfigView>,
    Seq<char>,
>
    decreases us.len(),
{
    if us.len() == 0 {
        Ok(Seq::empty())
    } else {
        match spec_build_rules(us[0].1) {
            Err(u) => Err(u),
            Ok(rules) => match spec_build_users(us.subrange(1, us.len() as int)) {
                Ok(rest) => Ok(seq![(UserConfigView { name: us[0].0, rules })] + rest),
                Err(u) => Err(u),
            },
        }
    }
}

/// Build a [`Configuration`] from a file's raw user entries, expanding
/// every permission name; fails on the first unknown permission name.
pub fn build_configuration(us: &RawUserEntries) -> (r: Result<Configuration, ConfigError>)
    ensures
        match spec_build_users(us.deep_view()) {
            Ok(uvs) => r matches Ok(c) && c@ == uvs,
            Err(u) => r matches Err(ConfigError::UnknownPermission(s)) && s@ == u,
        },
{
    let ghost all: RawUserEntriesView = us.deep_view();
    let mut acc: Vec<UserConfig> = Vec::new();
    let mut i: usize = 0;
    proof {
        assert(all.subrange(0, all.len() as int) =~= all);
        if spec_build_users(all) is Ok {
            let whole = spec_build_users(all)->Ok_0;
            assert(acc@.map_values(|u: UserConfig| u@) + whole =~= whole);
        }
    }
    while i < us.len()
        invariant
            0 <= i <= us.len(),
            all == us.deep_view(),
            all.len() == us@.len(),
            spec_build_users(all) == match spec_build_users(
                all.subrange(i as int, all.len() as int),
            ) {
                Ok(rest) => Ok::<Seq<UserConfigView>, Seq<char>>(
                    acc@.map_values(|u: UserConfig| u@) + rest,
                ),
                Err(u) => Err::<Seq<UserConfigView>, Seq<char>>(u),
            },
        decreases us.len() - i,
    {
        let ghost suffix = all.subrange(i as int, all.len() as int);
        let ghost suffix_rest = all.subrange(i as int + 1, all.len() as int);
        proof {
            assert(suffix[0] == all[i as int]);
            assert(us@[i as int].1.deep_view() == all[i as int].1);
            assert(us@[i as int].0@ == all[i as int].0);
            assert(suffix.subrange(1, suffix.len() as int) =~= suffix_rest);
        }
        let rules = match build_rules(&us[i].1) {
            Ok(rules) => rules,
            Err(e) => {
                return Err(e);
            },
        };
        let user = UserConfig { name: us[i].0.clone(), rules };
        let ghost acc_before = acc@.map_values(|u: UserConfig| u@);
        acc.push(user);
        proof {
            assert(acc@.map_values(|u: UserConfig| u@) =~= acc_before + seq![user@]);
            if spec_build_users(suffix_rest) is Ok {
                let rest = spec_build_users(suffix_rest)->Ok_0;
                assert(acc_before + (seq![user@] + rest) =~= acc@.map_values(
                    |u: UserConfig| u@,
                ) + rest);
            }
        }
        i = i + 1;
    }
    proof {
        assert(all.subrange(i as int, all.len() as int) =~= Seq::<
            (Seq<char>, Seq<(Seq<char>, Seq<Seq<char>>)>),
        >::empty());
        assert(acc@.map_values(|u: UserConfig| u@) + Seq::<UserConfigView>::empty() =~= acc@
            .map_values(|u: UserConfig| u@));
    }
    Ok(Configuration { users: acc })
}

/// The canonical permission names of a list of base permissions: each
/// base permission under its own (non-alias) name.
pub open spec fn spec_permissions_to_names(ps: Seq<CachePermissions>) -> Seq<Seq<char>> {
    ps.map_values(|p: CachePermissions| spec_permission_name(base_as_extended(p)))
}

/// The raw entries that re-encode a rule list with canonical permission
/// names.
pub open spec fn spec_rules_to_raw(rs: Seq<CacheRuleView>) -> Seq<(Seq<char>, Seq<Seq<char>>)> {
    rs.map_values(|r: CacheRuleView| (r.pattern, spec_permissions_to_names(r.permissions)))
}

/// The raw entries that re-encode a configuration with canonical
/// permission names: what a generated configuration file contains.
pub open spec fn spec_users_to_raw(us: Seq<UserConfigView>) -> RawUserEntriesView {
    us.map_values(|u: UserConfigView| (u.name, spec_rules_to_raw(u.rules)))
}

/// Every permission name of the vocabulary parses back to the permission
/// it names.
pub proof fn lemma_permission_name_parses(e: CachePermissionsExtended)
    ensures
        spec_parse_permission(spec_permission_name(e)) == Some(e),
{
    reveal_strlit("push");
    reveal_strlit("pull");
    reveal_strlit("delete");
    reveal_strlit("create");
    reveal_strlit("configure");
    reveal_strlit("configure-cache-retention");
    reveal_strlit("destroy-cache");
    reveal_strlit("all");
    reveal_strlit("admin");
    reveal_strlit("use");
    assert("push"@.len() == 4 && "pull"@.len() == 4 && "delete"@.len() == 6 && "create"@.len()
        == 6 && "configure"@.len() == 9 && "configure-cache-retention"@.len() == 25
        && "destroy-cache"@.len() == 13 && "all"@.len() == 3 && "admin"@.len() == 5
        && "use"@.len() == 3);
    assert("push"@ != "pull"@) by {
        assert("push"@[2] == 's' && "pull"@[2] == 'l');
    }
    assert("delete"@ != "create"@) by {
        assert("delete"@[0] == 'd' && "create"@[0] == 'c');
    }
    assert("all"@ != "use"@) by {
        assert("all"@[0] == 'a' && "use"@[0] == 'u');
    }
    match e {
        CachePermissionsExtended::Push => {
            assert(spec_parse_permission("push"@) == Some(CachePermissionsExtended::Push));
        },
        CachePermissionsExtended::Pull => {
            assert(spec_parse_permission("pull"@) == Some(CachePermissionsExtended::Pull));
        },
        CachePermissionsExtended::Delete => {
            assert(spec_parse_permission("delete"@) == Some(CachePermissionsExtended::Delete));
        },
        CachePermissionsExtended::Create => {
            assert(spec_parse_permission("create"@) == Some(CachePermissionsExtended::Create));
        },
        CachePermissionsExtended::Configure => {
            assert(spec_parse_permission("configure"@) == Some(
                CachePermissionsExtended::Configure,
            ));
        },
        CachePermissionsExtended::ConfigureCacheRetention => {
            assert(spec_parse_permission("configure-cache-retention"@) == Some(
                CachePermissionsExtended::ConfigureCacheRetention,
            ));
        },
        CachePermissionsExtended::DestroyCache => {
            assert(spec_parse_permission("destroy-cache"@) == Some(
                CachePermissionsExtended::DestroyCache,
            ));
        },
        CachePermissionsExtended::All => {
            assert(spec_parse_permission("all"@) == Some(CachePermissionsExtended::All));
        },
        CachePermissionsExtended::Admin => {
            assert(spec_parse_permission("admin"@) == Some(CachePermissionsExtended::Admin));
        },
        CachePermissionsExtended::Use => {
            assert(spec_parse_permission("use"@) == Some(CachePermissionsExtended::Use));
        },
    }
}

/// Canonical permission names expand back to exactly the permissions they
/// encode.
pub proof fn lemma_permission_names_round_trip(ps: Seq<CachePermissions>)
    ensures
        spec_expand_strings(spec_permissions_to_names(ps)) == Ok::<_, Seq<char>>(ps),
    decreases ps.len(),
{
    let ns = spec_permissions_to_names(ps);
    if ps.len() == 0 {
        assert(ns =~= Seq::<Seq<char>>::empty());
        assert(ps =~= Seq::<CachePermissions>::empty());
    } else {
        let e = base_as_extended(ps[0]);
        lemma_permission_name_parses(e);
        assert(ns[0] == spec_permission_name(e));
        let ps_rest = ps.subrange(1, ps.len() as int);
        lemma_permission_names_round_trip(ps_rest);
        assert(ns.subrange(1, ns.len() as int) =~= spec_permissions_to_names(ps_rest));
        assert(spec_expand_strings(ns.subrange(1, ns.len() as int)) == Ok::<_, Seq<char>>(
            ps_rest,
        ));
        lemma_base_expands_to_singleton(ps[0]);
        assert(spec_expand(e) + ps_rest =~= ps);
        assert(spec_expand_strings(ns) == Ok::<_, Seq<char>>(spec_expand(e) + ps_rest));
    }
}

/// Raw entries that re-encode a rule list build back to exactly that rule
/// list.
pub proof fn lemma_rules_round_trip(rs: Seq<CacheRuleView>)
    ensures
        spec_build_rules(spec_rules_to_raw(rs)) == Ok::<_, Seq<char>>(rs),
    decreases rs.len(),
{
    let raw = spec_rules_to_raw(rs);
    if rs.len() == 0 {
        assert(raw =~= Seq::<(Seq<char>, Seq<Seq<char>>)>::empty());
        assert(rs =~= Seq::<CacheRuleView>::empty());
    } else {
        assert(raw[0] == (rs[0].pattern, spec_permissions_to_names(rs[0].permissions)));
        lemma_permission_names_round_trip(rs[0].permissions);
        let rs_rest = rs.subrange(1, rs.len() as int);
        lemma_rules_round_trip(rs_rest);
        assert(raw.subrange(1, raw.len() as int) =~= spec_rules_to_raw(rs_rest));
        assert(rs[0] == (CacheRuleView {
            pattern: rs[0].pattern,
            permissions: rs[0].permissions,
        }));
        assert(seq![rs[0]] + rs_rest =~= rs);
    }
}

/// The round trip of the example generator: re-encoding a configuration
/// with canonical permission names and building a configuration from the
/// result yields the same configuration — same users in the same order,
/// same patterns, same expanded permission lists.
pub proof fn lemma_config_round_trip(us: Seq<UserConfigView>)
    ensures
        spec_build_users(spec_users_to_raw(us)) == Ok::<_, Seq<char>>(us),
    decreases us.len(),
{
    let raw = spec_users_to_raw(us);
    if us.len() == 0 {
        assert(raw =~= Seq::<(Seq<char>, Seq<(Seq<char>, Seq<Seq<char>>)>)>::empty());
        assert(us =~= Seq::<UserConfigView>::empty());
    } else {
        assert(raw[0] == (us[0].name, spec_rules_to_raw(us[0].rules)));
        lemma_rules_round_trip(us[0].rules);
        let us_rest = us.subrange(1, us.len() as int);
        lemma_config_round_trip(us_rest);
        assert(raw.subrange(1, raw.len() as int) =~= spec_users_to_raw(us_rest));
        assert(us[0] == (UserConfigView { name: us[0].name, rules: us[0].rules }));
        assert(seq![us[0]] + us_rest =~= us);
    }
}

/// Building a configuration keeps the user names of the raw entries, in
/// order: expansion touches only permission lists.
pub proof fn lemma_build_users_names(us: RawUserEntriesView)
    requires
        spec_build_users(us) is Ok,
    ensures
        spec_build_users(us)->Ok_0.len() == us.len(),
        forall|i: int| 0 <= i < us.len() ==> spec_build_users(us)->Ok_0[i].name == us[i].0,
    decreases us.len(),
{
    if us.len() > 0 {
        let rest = us.subrange(1, us.len() as int);
        lemma_build_users_names(rest);
        let built = spec_build_users(us)->Ok_0;
        let rest_built = spec_build_users(rest)->Ok_0;
        assert forall|i: int| 1 <= i < us.len() implies built[i].name == us[i].0 by {
            assert(built[i] == rest_built[i - 1]);
            assert(rest[i - 1] == us[i]);
        }
    }
}

/// The rule list of the first user with the given name, if any.
pub open spec fn spec_lookup(users: Seq<UserConfigView>, name: Seq<char>) -> Option<
    Seq<CacheRuleView>,
>
    decreases users.len(),
{
    if users.len() == 0 {
        None
    } else if users[0].name == name {
        Some(users[0].rules)
    } else {
        spec_lookup(users.subrange(1, users.len() as int), name)
    }
}

impl Configuration {
    /// The rules of the named user, or `None` if the configuration does
    /// not mention that user.
    pub fn find_user(&self, name: &str) -> (r: Option<&Vec<CacheRule>>)
        ensures
            match spec_lookup(self@, name@) {
                Some(rules) => r matches Some(v) && v@.map_values(|c: CacheRule| c@) == rules,
                None => r is None,
            },
    {
        let ghost all: Seq<UserConfigView> = self@;
        let mut i: usize = 0;
        proof {
            assert(all.subrange(0, all.len() as int) =~= all);
        }
        while i < self.users.len()
            invariant
                0 <= i <= self.users.len(),
                all == self@,
                all.len() == self.users@.len(),
                spec_lookup(all, name@) == spec_lookup(
                    all.subrange(i as int, all.len() as int),
                    name@,
                ),
            decreases self.users.len() - i,
        {
            let ghost suffix = all.subrange(i as int, all.len() as int);
            proof {
                assert(suffix[0] == all[i as int]);
                assert(suffix.subrange(1, suffix.len() as int) =~= all.subrange(
                    i as int + 1,
                    all.len() as int,
                ));
            }
            if str_eq(self.users[i].name.as_str(), name) {
                return Some(&self.users[i].rules);
            }
            i = i + 1;
        }
        proof {
            assert(all.subrange(i as int, all.len() as int) =~= Seq::<UserConfigView>::empty());
        }
        None
    }
}

} // verus!
