//! Configuration assembly and its defaults.

use modrinth_downloader::configuration::{default_loader, default_mod_path, Configuration};

#[test]
fn defaults_fill_the_optional_fields() {
    let c = Configuration::from_parts(
        None,
        "1.20.1".to_string(),
        None,
        vec!["sodium".to_string(), "lithium".to_string()],
    );
    assert_eq!(c.mod_path, "/minecraft/mods");
    assert_eq!(c.loader, "fabric");
    assert_eq!(c.version, "1.20.1");
    assert_eq!(c.mod_ids, vec!["sodium".to_string(), "lithium".to_string()]);
}

#[test]
fn given_fields_are_kept_as_given() {
    let c = Configuration::from_parts(
        Some("/data/mods".to_string()),
        "1.19.4".to_string(),
        Some("quilt".to_string()),
        vec![],
    );
    assert_eq!(c.mod_path, "/data/mods");
    assert_eq!(c.loader, "quilt");
    assert_eq!(c.version, "1.19.4");
    assert!(c.mod_ids.is_empty());
}

#[test]
fn the_default_values_themselves() {
    assert_eq!(default_mod_path(), "/minecraft/mods");
    assert_eq!(default_loader(), "fabric");
}
