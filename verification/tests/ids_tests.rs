use mod_manager_core::normalize_id;
use mod_manager_core::registry::RegistryError;

#[test]
fn empty_input_is_rejected() {
    assert!(matches!(normalize_id(""), Err(RegistryError::InvalidId(_))));
}

#[test]
fn whitespace_only_input_is_rejected() {
    assert!(matches!(normalize_id("   "), Err(RegistryError::InvalidId(_))));
}

#[test]
fn over_long_input_is_rejected() {
    let long = "a".repeat(201);
    assert!(matches!(normalize_id(&long), Err(RegistryError::InvalidId(_))));
}

#[test]
fn max_length_input_is_accepted() {
    let just_fits = "a".repeat(200);
    assert_eq!(normalize_id(&just_fits).unwrap(), just_fits);
}

#[test]
fn input_is_trimmed_and_lowercased() {
    assert_eq!(normalize_id("  ModWorkShop ").unwrap(), "modworkshop");
}

#[test]
fn plain_alphabet_is_accepted_verbatim() {
    assert_eq!(normalize_id("pay.day_2-mods").unwrap(), "pay.day_2-mods");
}

#[test]
fn single_inner_colon_is_accepted() {
    assert_eq!(normalize_id("plugin:nexus").unwrap(), "plugin:nexus");
}

#[test]
fn leading_colon_is_rejected() {
    assert!(matches!(normalize_id(":abc"), Err(RegistryError::InvalidId(_))));
}

#[test]
fn trailing_colon_is_rejected() {
    assert!(matches!(normalize_id("abc:"), Err(RegistryError::InvalidId(_))));
}

#[test]
fn second_colon_is_rejected() {
    assert!(matches!(normalize_id("a:b:c"), Err(RegistryError::InvalidId(_))));
    assert!(matches!(normalize_id("a::b"), Err(RegistryError::InvalidId(_))));
}

#[test]
fn inner_whitespace_is_rejected() {
    assert!(matches!(normalize_id("a b"), Err(RegistryError::InvalidId(_))));
}

#[test]
fn other_symbols_are_rejected() {
    assert!(matches!(normalize_id("mods/files"), Err(RegistryError::InvalidId(_))));
    assert!(matches!(normalize_id("hello!"), Err(RegistryError::InvalidId(_))));
}

#[test]
fn normalization_is_idempotent() {
    let once = normalize_id("  Mixed.Case_01 ").unwrap();
    let twice = normalize_id(&once).unwrap();
    assert_eq!(once, twice);
    let colon_once = normalize_id("Plugin:Nexus").unwrap();
    assert_eq!(normalize_id(&colon_once).unwrap(), colon_once);
}
