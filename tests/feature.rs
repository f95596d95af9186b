use librazer::descriptor::{find_by_model, find_by_pid, supported};
use librazer::feature::{
    features_known, validate_features, ALL_FEATURES, BATTERYCARE, FAN, KBDBACKLIGHT, LIDLOGO, LIGHTSALWAYSON, PERF,
};

#[test]
fn test_feature_constants() {
    assert_eq!(BATTERYCARE, "battery-care");
    assert_eq!(LIDLOGO, "lid-logo");
    assert_eq!(LIGHTSALWAYSON, "lights-always-on");
    assert_eq!(KBDBACKLIGHT, "kbd-backlight");
    assert_eq!(FAN, "fan");
    assert_eq!(PERF, "perf");
}

#[test]
fn test_all_features_contains_all() {
    assert!(ALL_FEATURES.contains(&"battery-care"));
    assert!(ALL_FEATURES.contains(&"lid-logo"));
    assert!(ALL_FEATURES.contains(&"lights-always-on"));
    assert!(ALL_FEATURES.contains(&"kbd-backlight"));
    assert!(ALL_FEATURES.contains(&"fan"));
    assert!(ALL_FEATURES.contains(&"perf"));
    assert_eq!(ALL_FEATURES.len(), 6);
}

#[test]
fn test_validate_features_accepts_valid() {
    // Should not panic
    validate_features(&["battery-care", "fan", "perf"]);
    assert!(features_known(&["battery-care", "fan", "perf"]));
}

#[test]
fn validate_features_tells_valid_from_invalid() {
    assert!(features_known(&["battery-care", "fan", "perf"]));
    assert!(features_known(&[]));
    assert!(!features_known(&["fan", "turbo"]));
    assert!(!features_known(&["Fan"]));
    assert!(!features_known(&["perf "]));
}

#[test]
fn every_catalog_entry_declares_known_features() {
    let all = supported();
    assert!(!all.is_empty());
    for d in &all {
        assert!(features_known(d.features), "{}", d.name);
        assert!(d.model_number_prefix.starts_with("RZ09-"));
    }
}

#[test]
fn catalog_lookup_by_model_prefix_and_pid() {
    let d = find_by_model("RZ09-0483T").unwrap();
    assert_eq!(d.pid, 0x029f);
    let d = find_by_model("RZ09-0483T3X").unwrap();
    assert_eq!(d.pid, 0x029f);
    assert!(find_by_model("RZ09-0483").is_none());
    assert!(find_by_model("RZ09-9999999").is_none());
    assert_eq!(find_by_pid(0x029d).unwrap().model_number_prefix, "RZ09-0482X");
    assert!(find_by_pid(0xabcd).is_none());
}
