use attic_tokens::permissions::CachePermissions;
use attic_tokens::permissions::CachePermissionsExtended;

#[test]
fn flags_are_the_fixed_bijection() {
    assert_eq!(CachePermissions::Push.to_atticadm_flag(), "--push");
    assert_eq!(CachePermissions::Pull.to_atticadm_flag(), "--pull");
    assert_eq!(CachePermissions::Delete.to_atticadm_flag(), "--delete");
    assert_eq!(CachePermissions::Create.to_atticadm_flag(), "--create-cache");
    assert_eq!(CachePermissions::Configure.to_atticadm_flag(), "--configure-cache");
    assert_eq!(
        CachePermissions::ConfigureCacheRetention.to_atticadm_flag(),
        "--configure-cache-retention"
    );
    assert_eq!(CachePermissions::DestroyCache.to_atticadm_flag(), "--destroy-cache");
}

#[test]
fn base_variants_expand_to_singletons() {
    assert_eq!(CachePermissionsExtended::Push.expand(), vec![CachePermissions::Push]);
    assert_eq!(CachePermissionsExtended::Pull.expand(), vec![CachePermissions::Pull]);
    assert_eq!(CachePermissionsExtended::Delete.expand(), vec![CachePermissions::Delete]);
    assert_eq!(CachePermissionsExtended::Create.expand(), vec![CachePermissions::Create]);
    assert_eq!(CachePermissionsExtended::Configure.expand(), vec![CachePermissions::Configure]);
    assert_eq!(
        CachePermissionsExtended::ConfigureCacheRetention.expand(),
        vec![CachePermissions::ConfigureCacheRetention]
    );
    assert_eq!(
        CachePermissionsExtended::DestroyCache.expand(),
        vec![CachePermissions::DestroyCache]
    );
}

#[test]
fn all_expands_to_every_base_permission_once() {
    let expanded = CachePermissionsExtended::All.expand();
    assert_eq!(
        expanded,
        vec![
            CachePermissions::Push,
            CachePermissions::Pull,
            CachePermissions::Delete,
            CachePermissions::Create,
            CachePermissions::Configure,
            CachePermissions::ConfigureCacheRetention,
            CachePermissions::DestroyCache,
        ]
    );
    let again = CachePermissionsExtended::All.expand();
    assert_eq!(expanded, again);
}

#[test]
fn admin_and_use_expand_to_their_subsets() {
    assert_eq!(
        CachePermissionsExtended::Admin.expand(),
        vec![
            CachePermissions::Create,
            CachePermissions::Configure,
            CachePermissions::ConfigureCacheRetention,
            CachePermissions::DestroyCache,
        ]
    );
    assert_eq!(
        CachePermissionsExtended::Use.expand(),
        vec![CachePermissions::Push, CachePermissions::Pull]
    );
}

#[test]
fn every_expansion_is_nonempty() {
    let variants = vec![
        CachePermissionsExtended::Push,
        CachePermissionsExtended::Pull,
        CachePermissionsExtended::Delete,
        CachePermissionsExtended::Create,
        CachePermissionsExtended::Configure,
        CachePermissionsExtended::ConfigureCacheRetention,
        CachePermissionsExtended::DestroyCache,
        CachePermissionsExtended::All,
        CachePermissionsExtended::Admin,
        CachePermissionsExtended::Use,
    ];
    for v in variants {
        assert!(!v.expand().is_empty());
    }
}
