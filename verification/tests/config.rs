use attic_tokens::config::CacheRule;
use attic_tokens::config::ConfigError;
use attic_tokens::config::Configuration;
use attic_tokens::config::UserConfig;
use attic_tokens::config::parse_permission;
use attic_tokens::load_configuration;
use attic_tokens::permissions::CachePermissions;
use attic_tokens::permissions::CachePermissionsExtended;

#[test]
fn permission_names_parse() {
    assert_eq!(parse_permission("push"), Some(CachePermissionsExtended::Push));
    assert_eq!(parse_permission("pull"), Some(CachePermissionsExtended::Pull));
    assert_eq!(parse_permission("delete"), Some(CachePermissionsExtended::Delete));
    assert_eq!(parse_permission("create"), Some(CachePermissionsExtended::Create));
    assert_eq!(parse_permission("configure"), Some(CachePermissionsExtended::Configure));
    assert_eq!(
        parse_permission("configure-cache-retention"),
        Some(CachePermissionsExtended::ConfigureCacheRetention)
    );
    assert_eq!(parse_permission("destroy-cache"), Some(CachePermissionsExtended::DestroyCache));
    assert_eq!(parse_permission("all"), Some(CachePermissionsExtended::All));
    assert_eq!(parse_permission("admin"), Some(CachePermissionsExtended::Admin));
    assert_eq!(parse_permission("use"), Some(CachePermissionsExtended::Use));
}

#[test]
fn unknown_permission_names_do_not_parse() {
    assert_eq!(parse_permission("fly"), None);
    assert_eq!(parse_permission("Push"), None);
    assert_eq!(parse_permission(""), None);
    assert_eq!(parse_permission("all "), None);
}

#[test]
fn loads_a_nested_mapping() {
    let config = load_configuration("[alice]\n\"alice-*\" = [\"push\", \"pull\"]\n").unwrap();
    let expected = Configuration {
        users: vec![UserConfig {
            name: "alice".to_owned(),
            rules: vec![CacheRule {
                pattern: "alice-*".to_owned(),
                permissions: vec![CachePermissions::Push, CachePermissions::Pull],
            }],
        }],
    };
    assert_eq!(config, expected);
}

#[test]
fn aliases_are_expanded_while_loading() {
    let config = load_configuration("[ops]\n\"*\" = [\"all\"]\n").unwrap();
    assert_eq!(config.users.len(), 1);
    assert_eq!(config.users[0].name, "ops");
    assert_eq!(
        config.users[0].rules,
        vec![CacheRule {
            pattern: "*".to_owned(),
            permissions: vec![
                CachePermissions::Push,
                CachePermissions::Pull,
                CachePermissions::Delete,
                CachePermissions::Create,
                CachePermissions::Configure,
                CachePermissions::ConfigureCacheRetention,
                CachePermissions::DestroyCache,
            ],
        }]
    );
}

#[test]
fn empty_text_loads_an_empty_configuration() {
    let config = load_configuration("").unwrap();
    assert_eq!(config.users.len(), 0);
}

#[test]
fn unknown_permission_is_a_hard_error() {
    let r = load_configuration("[alice]\n\"alice-*\" = [\"push\", \"fly\"]\n");
    assert_eq!(r, Err(ConfigError::UnknownPermission("fly".to_owned())));
}

#[test]
fn malformed_structure_is_a_hard_error() {
    let r = load_configuration("alice = \"not a table\"\n");
    assert!(matches!(r, Err(ConfigError::Parse(_))));
    let r = load_configuration("[alice\n");
    assert!(matches!(r, Err(ConfigError::Parse(_))));
    let r = load_configuration("[alice]\n\"alice-*\" = 3\n");
    assert!(matches!(r, Err(ConfigError::Parse(_))));
}

#[test]
fn find_user_sees_only_configured_users() {
    let config = load_configuration(
        "[alice]\n\"alice-*\" = [\"push\"]\n[bob]\n\"bob-*\" = [\"use\"]\n",
    )
    .unwrap();
    let alice = config.find_user("alice").unwrap();
    assert_eq!(alice.len(), 1);
    assert_eq!(alice[0].pattern, "alice-*");
    let bob = config.find_user("bob").unwrap();
    assert_eq!(bob[0].permissions, vec![CachePermissions::Push, CachePermissions::Pull]);
    assert!(config.find_user("carol").is_none());
}
