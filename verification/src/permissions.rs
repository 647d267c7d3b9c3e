//! The permission vocabulary: base permissions understood by the
//! administration binary, the extended vocabulary with aggregate aliases,
//! and the expansion of aliases into base permissions.

use vstd::prelude::*;

verus! {

/// The canonical, minimal permission vocabulary accepted by the target
/// binary. Each variant maps one-to-one to a command-line flag.
#[derive(Clone, Copy, PartialEq, Eq, Structural, Debug)]
pub enum CachePermissions {
    Push,
    Pull,
    Delete,
    Create,
    Configure,
    ConfigureCacheRetention,
    DestroyCache,
}

/// The permission vocabulary accepted in configuration files: every base
/// permission, plus aggregate aliases that each expand to a fixed, ordered
/// list of base permissions.
#[derive(Clone, Copy, PartialEq, Eq, Structural, Debug)]
pub enum CachePermissionsExtended {
    Push,
    Pull,
    Delete,
    Create,
    Configure,
    ConfigureCacheRetention,
    DestroyCache,
    All,
    Admin,
    Use,
}

/// The command-line flag that grants a base permission.
pub open spec fn spec_flag(p: CachePermissions) -> Seq<char> {
    match p {
        CachePermissions::Push => "--push"@,
        CachePermissions::Pull => "--pull"@,
        CachePermissions::Delete => "--delete"@,
        CachePermissions::Create => "--create-cache"@,
        CachePermissions::Configure => "--configure-cache"@,
        CachePermissions::ConfigureCacheRetention => "--configure-cache-retention"@,
        CachePermissions::DestroyCache => "--destroy-cache"@,
    }
}

impl CachePermissions {
    /// The command-line flag string for this permission.
    pub fn to_atticadm_flag(&self) -> (r: &'static str)
        ensures
            r@ == spec_flag(*self),
    {
        match self {
            CachePermissions::Push => "--push",
            CachePermissions::Pull => "--pull",
            CachePermissions::Delete => "--delete",
            CachePermissions::Create => "--create-cache",
            CachePermissions::Configure => "--configure-cache",
            CachePermissions::ConfigureCacheRetention => "--configure-cache-retention",
            CachePermissions::DestroyCache => "--destroy-cache",
        }
    }
}

/// Ordered expansion of an extended permission into base permissions: base
/// permissions expand to the singleton of themselves, aliases to a fixed,
/// hand-maintained ordered list.
pub open spec fn spec_expand(e: CachePermissionsExtended) -> Seq<CachePermissions> {
    match e {
        CachePermissionsExtended::Push => seq![CachePermissions::Push],
        CachePermissionsExtended::Pull => seq![CachePermissions::Pull],
        CachePermissionsExtended::Delete => seq![CachePermissions::Delete],
        CachePermissionsExtended::Create => seq![CachePermissions::Create],
        CachePermissionsExtended::Configure => seq![CachePermissions::Configure],
        CachePermissionsExtended::ConfigureCacheRetention => seq![
            CachePermissions::ConfigureCacheRetention,
        ],
        CachePermissionsExtended::DestroyCache => seq![CachePermissions::DestroyCache],
        CachePermissionsExtended::All => seq![
            CachePermissions::Push,
            CachePermissions::Pull,
            CachePermissions::Delete,
            CachePermissions::Create,
            CachePermissions::Configure,
            CachePermissions::ConfigureCacheRetention,
            CachePermissions::DestroyCache,
        ],
        CachePermissionsExtended::Admin => seq![
            CachePermissions::Create,
            CachePermissions::Configure,
            CachePermissions::ConfigureCacheRetention,
            CachePermissions::DestroyCache,
        ],
        CachePermissionsExtended::Use => seq![CachePermissions::Push, CachePermissions::Pull],
    }
}

/// The inclusion of the base vocabulary in the extended one: every base
/// permission is also an extended permission.
pub open spec fn base_as_extended(p: CachePermissions) -> CachePermissionsExtended {
    match p {
        CachePermissions::Push => CachePermissionsExtended::Push,
        CachePermissions::Pull => CachePermissionsExtended::Pull,
        CachePermissions::Delete => CachePermissionsExtended::Delete,
        CachePermissions::Create => CachePermissionsExtended::Create,
        CachePermissions::Configure => CachePermissionsExtended::Configure,
        CachePermissions::ConfigureCacheRetention => CachePermissionsExtended::ConfigureCacheRetention,
        CachePermissions::DestroyCache => CachePermissionsExtended::DestroyCache,
    }
}

/// Expansion always yields at least one base permission: every extended
/// permission, alias or not, has a non-empty defined expansion.
pub proof fn lemma_expansion_nonempty(e: CachePermissionsExtended)
    ensures
        spec_expand(e).len() > 0,
{
    match e {
        CachePermissionsExtended::Push => assert(spec_expand(e).len() == 1),
        CachePermissionsExtended::Pull => assert(spec_expand(e).len() == 1),
        CachePermissionsExtended::Delete => assert(spec_expand(e).len() == 1),
        CachePermissionsExtended::Create => assert(spec_expand(e).len() == 1),
        CachePermissionsExtended::Configure => assert(spec_expand(e).len() == 1),
        CachePermissionsExtended::ConfigureCacheRetention => assert(spec_expand(e).len() == 1),
        CachePermissionsExtended::DestroyCache => assert(spec_expand(e).len() == 1),
        CachePermissionsExtended::All => assert(spec_expand(e).len() == 7),
        CachePermissionsExtended::Admin => assert(spec_expand(e).len() == 4),
        CachePermissionsExtended::Use => assert(spec_expand(e).len() == 2),
    }
}

/// A non-alias extended permission expands to exactly the singleton list
/// of the corresponding base permission.
pub proof fn lemma_base_expands_to_singleton(p: CachePermissions)
    ensures
        spec_expand(base_as_extended(p)) =~= seq![p],
{
}

/// The expansion of "all" is deterministic and order-stable, as every
/// spec-level list is, and contains every base permission exactly once:
/// it has one entry per base permission and no entry twice.
pub proof fn lemma_all_expansion_complete()
    ensures
        spec_expand(CachePermissionsExtended::All).len() == 7,
        forall|p: CachePermissions| spec_expand(CachePermissionsExtended::All).contains(p),
        forall|i: int, j: int|
            0 <= i < j < spec_expand(CachePermissionsExtended::All).len() ==> spec_expand(
                CachePermissionsExtended::All,
            )[i] != spec_expand(CachePermissionsExtended::All)[j],
{
    let all = spec_expand(CachePermissionsExtended::All);
    assert forall|p: CachePermissions| all.contains(p) by {
        match p {
            CachePermissions::Push => assert(all[0] == p),
            CachePermissions::Pull => assert(all[1] == p),
            CachePermissions::Delete => assert(all[2] == p),
            CachePermissions::Create => assert(all[3] == p),
            CachePermissions::Configure => assert(all[4] == p),
            CachePermissions::ConfigureCacheRetention => assert(all[5] == p),
            CachePermissions::DestroyCache => assert(all[6] == p),
        }
    }
}

/// No expansion names a base permission twice: the expansions of the
/// aliases are duplicate-free by construction.
pub proof fn lemma_expansion_no_duplicates(e: CachePermissionsExtended)
    ensures
        forall|i: int, j: int|
            0 <= i < j < spec_expand(e).len() ==> spec_expand(e)[i] != spec_expand(e)[j],
{
}

impl CachePermissionsExtended {
    /// Expand this extended permission into its ordered list of base
    /// permissions.
    pub fn expand(&self) -> (r: Vec<CachePermissions>)
        ensures
            r@ == spec_expand(*self),
    {
        let mut r: Vec<CachePermissions> = Vec::new();
        match self {
            CachePermissionsExtended::Push => {
                r.push(CachePermissions::Push);
            },
            CachePermissionsExtended::Pull => {
                r.push(CachePermissions::Pull);
            },
            CachePermissionsExtended::Delete => {
                r.push(CachePermissions::Delete);
            },
            CachePermissionsExtended::Create => {
                r.push(CachePermissions::Create);
            },
            CachePermissionsExtended::Configure => {
                r.push(CachePermissions::Configure);
            },
            CachePermissionsExtended::ConfigureCacheRetention => {
                r.push(CachePermissions::ConfigureCacheRetention);
            },
            CachePermissionsExtended::DestroyCache => {
                r.push(CachePermissions::DestroyCache);
            },
            CachePermissionsExtended::All => {
                r.push(CachePermissions::Push);
                r.push(CachePermissions::Pull);
                r.push(CachePermissions::Delete);
                r.push(CachePermissions::Create);
                r.push(CachePermissions::Configure);
                r.push(CachePermissions::ConfigureCacheRetention);
                r.push(CachePermissions::DestroyCache);
            },
            CachePermissionsExtended::Admin => {
                r.push(CachePermissions::Create);
                r.push(CachePermissions::Configure);
                r.push(CachePermissions::ConfigureCacheRetention);
                r.push(CachePermissions::DestroyCache);
            },
            CachePermissionsExtended::Use => {
                r.push(CachePermissions::Push);
                r.push(CachePermissions::Pull);
            },
        }
        proof {
            assert(r@ =~= spec_expand(*self));
        }
        r
    }
}

} // verus!
