use sim_core::catalog::Catalog;
use sim_core::error::ErrorCode;
use sim_core::BUILTIN_ENGINE_ID;

fn ids(list: &[&str]) -> Vec<String> {
    list.iter().map(|s| s.to_string()).collect()
}

#[test]
fn the_first_configuration_starts_active() {
    let c = Catalog::from_ids(ids(&[BUILTIN_ENGINE_ID, "other"])).unwrap();
    assert_eq!(c.active_id(), BUILTIN_ENGINE_ID);
    assert_eq!(c.active_index(), 0);
    assert_eq!(c.len(), 2);
    assert_eq!(c.list_ids(), ids(&[BUILTIN_ENGINE_ID, "other"]));
}

#[test]
fn an_empty_catalog_is_refused() {
    let e = Catalog::from_ids(Vec::new()).unwrap_err();
    assert_eq!(e.code, ErrorCode::InvalidConfig);
    assert_eq!(e.message, "a catalog needs at least one configuration");
}

#[test]
fn a_repeated_id_is_refused_naming_the_first_repeat() {
    let e = Catalog::from_ids(ids(&["a", "b", "c", "b", "a"])).unwrap_err();
    assert_eq!(e.code, ErrorCode::InvalidConfig);
    assert_eq!(e.message, "duplicate configuration id `b`");
}

#[test]
fn selecting_a_known_id_makes_it_active() {
    let mut c = Catalog::from_ids(ids(&["a", "b", "c"])).unwrap();
    assert!(c.contains("c"));
    c.select("c").unwrap();
    assert_eq!(c.active_id(), "c");
    assert_eq!(c.active_index(), 2);
    c.select("c").unwrap();
    assert_eq!(c.active_id(), "c", "selecting the active id keeps it active");
}

#[test]
fn an_unknown_id_is_refused_and_changes_nothing() {
    let mut c = Catalog::from_ids(ids(&["a", "b"])).unwrap();
    c.select("b").unwrap();
    assert!(!c.contains("zzz"));
    let e = c.select("zzz").unwrap_err();
    assert_eq!(e.code, ErrorCode::UnknownConfigId);
    assert_eq!(e.message, "no engine configuration with id `zzz`");
    assert_eq!(c.active_id(), "b");
    assert_eq!(c.position("a"), Some(0));
    assert_eq!(c.position("zzz"), None);
}
