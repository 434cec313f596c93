use scarb_eject::metadata::{Cfg, Package};
use scarb_eject::settings::{CfgEntry, CfgSet, Edition, ExperimentalFeatures, Warning};
use scarb_eject::values::{
    cfg_conversion_outcome, declares_feature, native_cfg_set, scarb_cfg_set_to_cairo,
    scarb_package_edition, scarb_package_experimental_features,
};

fn package(edition: Option<&str>, features: &[&str]) -> Package {
    Package {
        id: "pkg 0.1.0".to_string(),
        name: "pkg".to_string(),
        version: "0.1.0".to_string(),
        edition: edition.map(|e| e.to_string()),
        experimental_features: features.iter().map(|f| f.to_string()).collect(),
    }
}

fn entry(key: &str, value: Option<&str>) -> CfgEntry {
    CfgEntry { key: key.to_string(), value: value.map(|v| v.to_string()) }
}

#[test]
fn known_editions_are_read_by_name() {
    let cases = [
        ("2023_01", Edition::V2023_01),
        ("2023_10", Edition::V2023_10),
        ("2023_11", Edition::V2023_11),
        ("2024_07", Edition::V2024_07),
    ];
    for (name, expected) in cases {
        let p = package(Some(name), &[]);
        assert_eq!(scarb_package_edition(&Some(&p), "crate"), (expected, None));
    }
}

#[test]
fn absent_package_gives_the_default_edition_without_warning() {
    assert_eq!(scarb_package_edition(&None, "crate"), (Edition::V2023_01, None));
}

#[test]
fn absent_edition_gives_the_default_edition_without_warning() {
    let p = package(None, &[]);
    assert_eq!(scarb_package_edition(&Some(&p), "crate"), (Edition::V2023_01, None));
}

#[test]
fn unknown_edition_gives_the_default_edition_and_a_warning() {
    for name in ["", "2024", "2024-07", "v2024_07", "V2024_07", "2024_07 ", "latest"] {
        let p = package(Some(name), &[]);
        let (edition, warning) = scarb_package_edition(&Some(&p), "my_crate");
        assert_eq!(edition, Edition::V2023_01);
        assert_eq!(warning, Some(Warning::UnknownEdition { crate_name: "my_crate".to_string() }));
    }
}

#[test]
fn warnings_read_as_lines_of_text() {
    let edition = Warning::UnknownEdition { crate_name: "my_crate".to_string() };
    assert_eq!(edition.message(), "failed to parse edition of package: my_crate");
    let cfg = Warning::IncompatibleCfg { crate_name: "my_crate".to_string() };
    assert_eq!(
        cfg.message(),
        "scarb metadata cfg did not convert identically to cairo one for crate: my_crate"
    );
}

#[test]
fn features_are_on_exactly_where_named() {
    let none = ExperimentalFeatures {
        negative_impls: false,
        associated_item_constraints: false,
        coupons: false,
    };
    assert_eq!(scarb_package_experimental_features(&None), none);
    let p = package(None, &[]);
    assert_eq!(scarb_package_experimental_features(&Some(&p)), none);
    let p = package(None, &["coupons"]);
    assert_eq!(
        scarb_package_experimental_features(&Some(&p)),
        ExperimentalFeatures { coupons: true, ..none }
    );
    let p = package(None, &["negative_impls", "associated_item_constraints"]);
    assert_eq!(
        scarb_package_experimental_features(&Some(&p)),
        ExperimentalFeatures {
            negative_impls: true,
            associated_item_constraints: true,
            coupons: false
        }
    );
    let p = package(None, &["coupons", "negative_impls", "associated_item_constraints"]);
    assert_eq!(
        scarb_package_experimental_features(&Some(&p)),
        ExperimentalFeatures {
            negative_impls: true,
            associated_item_constraints: true,
            coupons: true
        }
    );
}

#[test]
fn unknown_feature_names_count_for_nothing() {
    let p = package(None, &["warp_drive", "Coupons", "coupon", "negative-impls"]);
    assert_eq!(
        scarb_package_experimental_features(&Some(&p)),
        ExperimentalFeatures {
            negative_impls: false,
            associated_item_constraints: false,
            coupons: false
        }
    );
}

#[test]
fn a_feature_is_declared_where_the_list_holds_its_name() {
    let features = vec!["a".to_string(), "coupons".to_string()];
    assert!(declares_feature(&features, "coupons"));
    assert!(declares_feature(&features, "a"));
    assert!(!declares_feature(&features, "coupon"));
    assert!(!declares_feature(&vec![], "coupons"));
}

#[test]
fn flags_convert_to_the_compilers_form() {
    let flags = vec![
        Cfg::Name("test".to_string()),
        Cfg::KV("target".to_string(), "starknet-contract".to_string()),
    ];
    let (set, warning) = scarb_cfg_set_to_cairo(&flags, "crate");
    assert_eq!(warning, None);
    assert_eq!(
        set,
        Some(CfgSet {
            entries: vec![entry("target", Some("starknet-contract")), entry("test", None)]
        })
    );
}

#[test]
fn converted_flags_come_once_each_and_in_the_sets_order() {
    let flags = vec![
        Cfg::Name("name2".to_string()),
        Cfg::KV("k".to_string(), "b".to_string()),
        Cfg::Name("name".to_string()),
        Cfg::KV("k".to_string(), "a".to_string()),
        Cfg::Name("name".to_string()),
    ];
    let set = native_cfg_set(&flags).unwrap();
    assert_eq!(
        set.entries,
        vec![
            entry("k", Some("a")),
            entry("k", Some("b")),
            entry("name", None),
            entry("name2", None)
        ]
    );
}

#[test]
fn no_flags_convert_to_an_empty_set() {
    assert_eq!(scarb_cfg_set_to_cairo(&[], "crate"), (Some(CfgSet { entries: vec![] }), None));
}

#[test]
fn a_failed_conversion_gives_no_set_and_a_warning() {
    assert_eq!(
        cfg_conversion_outcome(None, "crate"),
        (None, Some(Warning::IncompatibleCfg { crate_name: "crate".to_string() }))
    );
    let set = CfgSet { entries: vec![entry("test", None)] };
    assert_eq!(cfg_conversion_outcome(Some(set.clone()), "crate"), (Some(set), None));
}
