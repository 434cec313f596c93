use scarb_eject::config::EjectError;
use scarb_eject::metadata::{CompilationUnit, Metadata, Package};
use scarb_eject::resolve::get_project_config;
use scarb_eject::select::{preferred_over, select_compilation_unit};
use scarb_eject::text::str_lt;

fn unit(package: &str, kind: &str) -> CompilationUnit {
    CompilationUnit {
        package: package.to_string(),
        target_kind: kind.to_string(),
        components: vec![],
        cfg: vec![],
    }
}

fn package(id: &str) -> Package {
    Package {
        id: id.to_string(),
        name: id.to_string(),
        version: "1.0.0".to_string(),
        edition: None,
        experimental_features: vec![],
    }
}

#[test]
fn contract_unit_is_chosen_over_library_in_either_order() {
    let id = "pkg".to_string();
    let forward = vec![unit("pkg", "lib"), unit("pkg", "starknet-contract")];
    let backward = vec![unit("pkg", "starknet-contract"), unit("pkg", "lib")];
    assert_eq!(select_compilation_unit(&forward, &id), Some(1));
    assert_eq!(select_compilation_unit(&backward, &id), Some(0));
}

#[test]
fn contract_unit_is_chosen_over_custom_kind() {
    let id = "pkg".to_string();
    let units = vec![unit("pkg", "custom"), unit("pkg", "starknet-contract")];
    assert_eq!(select_compilation_unit(&units, &id), Some(1));
    let units = vec![unit("pkg", "starknet-contract"), unit("pkg", "custom")];
    assert_eq!(select_compilation_unit(&units, &id), Some(0));
}

#[test]
fn library_unit_is_chosen_over_custom_kind() {
    let id = "pkg".to_string();
    let units = vec![unit("pkg", "a-custom"), unit("pkg", "lib"), unit("pkg", "test")];
    assert_eq!(select_compilation_unit(&units, &id), Some(1));
}

#[test]
fn custom_kinds_are_ordered_by_name() {
    let id = "pkg".to_string();
    let units = vec![unit("pkg", "test"), unit("pkg", "executable"), unit("pkg", "zeta")];
    assert_eq!(select_compilation_unit(&units, &id), Some(1));
}

#[test]
fn first_of_equally_preferred_units_is_chosen() {
    let id = "pkg".to_string();
    let units = vec![unit("other", "lib"), unit("pkg", "test"), unit("pkg", "test")];
    assert_eq!(select_compilation_unit(&units, &id), Some(1));
}

#[test]
fn units_of_other_packages_are_passed_over() {
    let id = "pkg".to_string();
    let units = vec![unit("other", "starknet-contract"), unit("pkg", "custom")];
    assert_eq!(select_compilation_unit(&units, &id), Some(1));
}

#[test]
fn no_unit_of_the_package_gives_none() {
    let id = "pkg".to_string();
    assert_eq!(select_compilation_unit(&vec![], &id), None);
    let units = vec![unit("other", "lib")];
    assert_eq!(select_compilation_unit(&units, &id), None);
}

#[test]
fn preference_goes_by_rank_then_by_name() {
    let contract = "starknet-contract".to_string();
    let library = "lib".to_string();
    let alpha = "alpha".to_string();
    let zeta = "zeta".to_string();
    assert!(preferred_over(&contract, &library));
    assert!(!preferred_over(&library, &contract));
    assert!(preferred_over(&library, &alpha));
    assert!(preferred_over(&contract, &alpha));
    assert!(!preferred_over(&zeta, &library));
    assert!(preferred_over(&alpha, &zeta));
    assert!(!preferred_over(&zeta, &alpha));
    assert!(!preferred_over(&alpha, &alpha));
    assert!(!preferred_over(&library, &library));
}

#[test]
fn strings_are_ordered_as_std_orders_them() {
    let samples = ["", "a", "ab", "b", "abc", "abd", "B", "é", "z", "zz", "日本", "lib"];
    for a in samples {
        for b in samples {
            assert_eq!(str_lt(a, b), a < b, "{a:?} against {b:?}");
        }
    }
}

#[test]
fn missing_unit_is_an_error_that_names_the_package() {
    let metadata = Metadata {
        workspace_root: "/ws".to_string(),
        packages: vec![package("pkg 1.0.0 (path+file:///ws)")],
        compilation_units: vec![unit("other", "lib")],
    };
    let error = get_project_config(&metadata, &metadata.packages[0], false).unwrap_err();
    assert_eq!(
        error,
        EjectError::NoCompilationUnit { package: "pkg 1.0.0 (path+file:///ws)".to_string() }
    );
    assert_eq!(
        error.message(),
        "could not find a compilation unit suitable for ejection for package pkg 1.0.0 (path+file:///ws)"
    );
}
