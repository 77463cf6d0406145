use canonical_store::registry::{to_ascii_lowercase, CanonicalStoreRegistry};

#[test]
fn registering_leaves_the_default_unset() {
    let mut reg: CanonicalStoreRegistry<&str, &str> = CanonicalStoreRegistry::new();
    assert!(reg.default_store().is_none());
    reg.register("Postgres", "primary", "pg-primary");
    reg.register_full("mysql", "blue", "my-blue", "my-blue-full");
    assert!(reg.default_store().is_none());
    assert!(reg.default_full_store().is_none());
    assert_eq!(reg.set_default("postgres", "primary"), Ok(()));
    assert_eq!(reg.default_store(), Some(&"pg-primary"));
    assert!(reg.default_full_store().is_none());
}

#[test]
fn lookups_ignore_label_case() {
    let mut reg: CanonicalStoreRegistry<u32, u32> = CanonicalStoreRegistry::new();
    reg.register("PostgreS", "primary", 1);
    assert_eq!(reg.get("postgres", "primary"), Some(&1));
    assert_eq!(reg.get("POSTGRES", "primary"), Some(&1));
    assert_eq!(reg.get("postgres", "PRIMARY"), None);
    assert_eq!(reg.get("mysql", "primary"), None);
}

#[test]
fn re_registering_a_key_replaces_the_store() {
    let mut reg: CanonicalStoreRegistry<u32, u32> = CanonicalStoreRegistry::new();
    reg.register("mysql", "a", 1);
    reg.register("MYSQL", "a", 2);
    assert_eq!(reg.get("mysql", "a"), Some(&2));
    assert_eq!(reg.all().len(), 1);
}

#[test]
fn set_default_refuses_unregistered_keys() {
    let mut reg: CanonicalStoreRegistry<u32, u32> = CanonicalStoreRegistry::new();
    reg.register("postgres", "primary", 1);
    reg.register("mysql", "blue", 2);
    assert_eq!(
        reg.set_default("Sqlite", "x"),
        Err("canonical store 'Sqlite:x' is not registered".to_string())
    );
    assert_eq!(reg.default_store(), None);
    assert_eq!(reg.set_default("MySQL", "blue"), Ok(()));
    assert_eq!(reg.default_store(), Some(&2));
}

#[test]
fn full_registration_feeds_both_views() {
    let mut reg: CanonicalStoreRegistry<u32, &str> = CanonicalStoreRegistry::new();
    reg.register_full("sqlite", "mem", 7, "sqlite-full");
    assert_eq!(reg.get("sqlite", "mem"), Some(&7));
    assert_eq!(reg.get_full("SQLite", "mem"), Some(&"sqlite-full"));
    assert_eq!(reg.default_full_store(), None);
    assert_eq!(reg.set_default("sqlite", "mem"), Ok(()));
    assert_eq!(reg.default_full_store(), Some(&"sqlite-full"));
    reg.register("sqlite", "mem", 8);
    assert_eq!(reg.get("sqlite", "mem"), Some(&8));
    assert_eq!(reg.get_full("sqlite", "mem"), Some(&"sqlite-full"));
}

#[test]
fn registered_keys_are_sorted() {
    let mut reg: CanonicalStoreRegistry<u32, u32> = CanonicalStoreRegistry::new();
    reg.register("sqlite", "b", 1);
    reg.register("MySQL", "z", 2);
    reg.register("mysql", "a", 3);
    reg.register("postgres", "primary", 4);
    let keys = reg.registered_keys();
    let expected: Vec<(String, String)> = vec![
        ("mysql".to_string(), "a".to_string()),
        ("mysql".to_string(), "z".to_string()),
        ("postgres".to_string(), "primary".to_string()),
        ("sqlite".to_string(), "b".to_string()),
    ];
    assert_eq!(keys, expected);
    let all: Vec<u32> = reg.all().into_iter().copied().collect();
    assert_eq!(all, vec![3, 2, 4, 1]);
}

#[test]
fn lowercasing_touches_only_ascii_letters() {
    assert_eq!(to_ascii_lowercase("MySQL-Ä_9"), "mysql-Ä_9");
}
