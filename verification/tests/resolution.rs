use scarb_eject::metadata::{Cfg, CompilationUnit, Component, Metadata, Package};
use scarb_eject::resolve::{
    collect_component_dependencies, collect_unit_dependencies, crate_settings_for_component_with,
    find_dependency, find_package, get_crate_roots, get_crate_settings_for_component,
    get_crates_config, get_global_crate_settings, get_project_config, global_crate_settings_with,
    is_reserved_name,
};
use scarb_eject::settings::{
    CfgEntry, CfgSet, CrateSettings, Dependency, DependencyMap, DependencySettings, Edition,
    ExperimentalFeatures, Warning,
};

const RESERVED: &str = "core";

fn package(name: &str, edition: Option<&str>, features: &[&str]) -> Package {
    Package {
        id: format!("{name} 1.2.3 (path+file:///ws/{name}/Scarb.toml)"),
        name: name.to_string(),
        version: "1.2.3".to_string(),
        edition: edition.map(|e| e.to_string()),
        experimental_features: features.iter().map(|f| f.to_string()).collect(),
    }
}

fn component(name: &str, deps: Option<&[&str]>) -> Component {
    Component {
        package: format!("{name} 1.2.3 (path+file:///ws/{name}/Scarb.toml)"),
        name: name.to_string(),
        source_root: format!("/ws/{name}/src"),
        cfg: None,
        id: Some(format!("id-{name}")),
        discriminator: if name == RESERVED { None } else { Some(format!("{name}-disc")) },
        dependencies: deps.map(|d| d.iter().map(|n| format!("id-{n}")).collect()),
    }
}

fn unit(package: &str, kind: &str, components: Vec<Component>) -> CompilationUnit {
    CompilationUnit {
        package: format!("{package} 1.2.3 (path+file:///ws/{package}/Scarb.toml)"),
        target_kind: kind.to_string(),
        components,
        cfg: vec![],
    }
}

fn no_features() -> ExperimentalFeatures {
    ExperimentalFeatures {
        negative_impls: false,
        associated_item_constraints: false,
        coupons: false,
    }
}

fn dependency(name: &str) -> Dependency {
    Dependency {
        name: name.to_string(),
        settings: DependencySettings { discriminator: Some(format!("{name}-disc")) },
    }
}

fn dependencies(names: &[&str]) -> DependencyMap {
    let mut map = DependencyMap::new();
    for name in names {
        let settings = DependencySettings { discriminator: Some(format!("{name}-disc")) };
        map.insert(name.to_string(), settings);
    }
    map
}

fn keys<V>(map: &cairo_lang_utils::ordered_hash_map::OrderedHashMap<String, V>) -> Vec<String> {
    map.keys().cloned().collect()
}

fn workspace() -> Metadata {
    Metadata {
        workspace_root: "/ws".to_string(),
        packages: vec![
            package("core", Some("2024_07"), &[]),
            package("app", Some("2023_11"), &["coupons"]),
            package("util", Some("bogus"), &["negative_impls"]),
        ],
        compilation_units: vec![
            unit(
                "app",
                "lib",
                vec![
                    component("core", Some(&[])),
                    component("app", Some(&["core", "app", "util", "ghost"])),
                    component("util", Some(&["core", "util"])),
                    component("stray", None),
                ],
            ),
            unit("app", "test", vec![component("core", None), component("app", None)]),
        ],
    }
}

#[test]
fn crate_roots_follow_the_components_without_the_standard_library() {
    let metadata = workspace();
    let roots = get_crate_roots(&metadata.compilation_units[0]);
    let entries: Vec<(String, String)> =
        roots.iter().map(|(k, v)| (k.clone(), v.clone())).collect();
    assert_eq!(
        entries,
        vec![
            ("app".to_string(), "/ws/app/src".to_string()),
            ("util".to_string(), "/ws/util/src".to_string()),
            ("stray".to_string(), "/ws/stray/src".to_string()),
        ]
    );
}

#[test]
fn a_unit_without_components_has_no_crate_roots() {
    let roots = get_crate_roots(&unit("app", "lib", vec![]));
    assert!(roots.is_empty());
    let roots = get_crate_roots(&unit("app", "lib", vec![component("core", None)]));
    assert!(roots.is_empty());
}

#[test]
fn a_repeated_name_keeps_its_first_place_and_takes_the_last_root() {
    let mut again = component("app", None);
    again.source_root = "/elsewhere/src".to_string();
    let roots = get_crate_roots(&unit(
        "app",
        "lib",
        vec![component("app", None), component("util", None), again],
    ));
    let entries: Vec<(String, String)> =
        roots.iter().map(|(k, v)| (k.clone(), v.clone())).collect();
    assert_eq!(
        entries,
        vec![
            ("app".to_string(), "/elsewhere/src".to_string()),
            ("util".to_string(), "/ws/util/src".to_string()),
        ]
    );
}

#[test]
fn packages_are_found_by_identifier() {
    let metadata = workspace();
    let id = metadata.packages[1].id.clone();
    assert_eq!(find_package(&metadata.packages, &id), Some(&metadata.packages[1]));
    assert_eq!(find_package(&metadata.packages, &"app".to_string()), None);
    assert_eq!(find_package(&vec![], &id), None);
}

#[test]
fn references_resolve_to_the_first_component_with_the_identifier() {
    let mut twin = component("twin", None);
    twin.id = Some("id-app".to_string());
    let mut anonymous = component("anonymous", None);
    anonymous.id = None;
    let mut hidden = component("core", None);
    hidden.id = Some("id-util".to_string());
    let components =
        vec![anonymous, hidden, component("app", None), twin, component("util", None)];
    assert_eq!(find_dependency(&components, &"id-app".to_string()), Some(&components[2]));
    assert_eq!(find_dependency(&components, &"id-util".to_string()), Some(&components[4]));
    assert_eq!(find_dependency(&components, &"id-core".to_string()), None);
    assert_eq!(find_dependency(&components, &"id-anonymous".to_string()), None);
}

#[test]
fn the_defaults_depend_on_every_crate_of_the_unit() {
    let metadata = workspace();
    let map = collect_unit_dependencies(&metadata.compilation_units[0].components);
    assert_eq!(map.entries(), &vec![dependency("app"), dependency("stray"), dependency("util")]);
}

#[test]
fn a_component_depends_on_what_its_references_resolve_to() {
    let metadata = workspace();
    let unit = &metadata.compilation_units[0];
    let references = unit.components[1].dependencies.clone().unwrap();
    let map = collect_component_dependencies(&references, &unit.components);
    assert_eq!(map.entries(), &vec![dependency("app"), dependency("util")]);
    let map = collect_component_dependencies(&vec![], &unit.components);
    assert_eq!(map.entries(), &vec![]);
}

#[test]
fn dependency_maps_keep_one_entry_per_name_in_ascending_order() {
    let mut map = DependencyMap::new();
    assert!(map.entries().is_empty());
    for name in ["m", "z", "a", "mm", "b"] {
        map.insert(name.to_string(), DependencySettings { discriminator: None });
    }
    map.insert("m".to_string(), DependencySettings { discriminator: Some("second".to_string()) });
    let names: Vec<&str> = map.entries().iter().map(|e| e.name.as_str()).collect();
    assert_eq!(names, vec!["a", "b", "m", "mm", "z"]);
    assert_eq!(map.entries()[2].settings.discriminator, Some("second".to_string()));
    assert_eq!(map.entries()[3].settings.discriminator, None);
}

#[test]
fn global_settings_come_from_the_package_and_the_unit() {
    let metadata = workspace();
    let mut unit = metadata.compilation_units[0].clone();
    unit.cfg = vec![Cfg::KV("target".to_string(), "lib".to_string())];
    let (settings, warnings) = get_global_crate_settings(&unit, &metadata.packages[1], false);
    assert_eq!(
        settings,
        CrateSettings {
            name: None,
            edition: Edition::V2023_11,
            version: Some("1.2.3".to_string()),
            cfg_set: Some(CfgSet {
                entries: vec![CfgEntry {
                    key: "target".to_string(),
                    value: Some("lib".to_string())
                }]
            }),
            dependencies: dependencies(&["app", "stray", "util"]),
            experimental_features: ExperimentalFeatures { coupons: true, ..no_features() },
        }
    );
    assert_eq!(warnings, vec![]);
}

#[test]
fn global_settings_without_dependencies_keep_everything_else() {
    let metadata = workspace();
    let unit = &metadata.compilation_units[0];
    let (with, _) = get_global_crate_settings(unit, &metadata.packages[1], false);
    let (without, warnings) = get_global_crate_settings(unit, &metadata.packages[1], true);
    assert_eq!(without.dependencies, dependencies(&[]));
    assert_eq!(without, CrateSettings { dependencies: dependencies(&[]), ..with });
    assert_eq!(without.cfg_set, Some(CfgSet { entries: vec![] }));
    assert_eq!(warnings, vec![]);
}

#[test]
fn global_settings_warn_about_an_unknown_edition_and_unconverted_flags() {
    let metadata = workspace();
    let unit = &metadata.compilation_units[0];
    let (settings, warnings) = global_crate_settings_with(unit, &metadata.packages[2], false, None);
    assert_eq!(settings.edition, Edition::V2023_01);
    assert_eq!(settings.cfg_set, None);
    assert_eq!(settings.version, Some("1.2.3".to_string()));
    assert_eq!(
        warnings,
        vec![
            Warning::UnknownEdition { crate_name: "util".to_string() },
            Warning::IncompatibleCfg { crate_name: "util".to_string() },
        ]
    );
}

#[test]
fn component_settings_come_from_the_components_package() {
    let metadata = workspace();
    let unit = &metadata.compilation_units[0];
    let (settings, warnings) =
        get_crate_settings_for_component(&unit.components[1], unit, &metadata);
    assert_eq!(
        settings,
        CrateSettings {
            name: Some("app".to_string()),
            edition: Edition::V2023_11,
            version: Some("1.2.3".to_string()),
            cfg_set: None,
            dependencies: dependencies(&["app", "util"]),
            experimental_features: ExperimentalFeatures { coupons: true, ..no_features() },
        }
    );
    assert_eq!(warnings, vec![]);
}

#[test]
fn a_component_without_package_gets_defaults_and_no_version() {
    let metadata = workspace();
    let unit = &metadata.compilation_units[0];
    let (settings, warnings) =
        get_crate_settings_for_component(&unit.components[3], unit, &metadata);
    assert_eq!(
        settings,
        CrateSettings {
            name: Some("stray".to_string()),
            edition: Edition::V2023_01,
            version: None,
            cfg_set: None,
            dependencies: dependencies(&[]),
            experimental_features: no_features(),
        }
    );
    assert_eq!(warnings, vec![]);
}

#[test]
fn a_components_own_flags_are_converted() {
    let metadata = workspace();
    let unit = &metadata.compilation_units[0];
    let mut flagged = unit.components[2].clone();
    flagged.cfg = Some(vec![Cfg::Name("test".to_string()), Cfg::Name("debug".to_string())]);
    let (settings, warnings) = get_crate_settings_for_component(&flagged, unit, &metadata);
    assert_eq!(
        settings.cfg_set,
        Some(CfgSet {
            entries: vec![
                CfgEntry { key: "debug".to_string(), value: None },
                CfgEntry { key: "test".to_string(), value: None }
            ]
        })
    );
    assert_eq!(settings.edition, Edition::V2023_01);
    assert_eq!(settings.experimental_features, ExperimentalFeatures {
        negative_impls: true,
        ..no_features()
    });
    assert_eq!(warnings, vec![Warning::UnknownEdition { crate_name: "util".to_string() }]);
}

#[test]
fn flags_that_do_not_convert_leave_the_crate_without_flags() {
    let metadata = workspace();
    let unit = &metadata.compilation_units[0];
    let mut flagged = unit.components[1].clone();
    flagged.cfg = Some(vec![Cfg::Name("test".to_string())]);
    let (settings, warnings) =
        crate_settings_for_component_with(&flagged, unit, &metadata, Some(None));
    assert_eq!(
        settings,
        CrateSettings {
            name: Some("app".to_string()),
            edition: Edition::V2023_11,
            version: Some("1.2.3".to_string()),
            cfg_set: None,
            dependencies: dependencies(&["app", "util"]),
            experimental_features: ExperimentalFeatures { coupons: true, ..no_features() },
        }
    );
    assert_eq!(warnings, vec![Warning::IncompatibleCfg { crate_name: "app".to_string() }]);
    let (settings, warnings) = crate_settings_for_component_with(
        &flagged,
        unit,
        &metadata,
        Some(Some(CfgSet { entries: vec![] })),
    );
    assert_eq!(settings.cfg_set, Some(CfgSet { entries: vec![] }));
    assert_eq!(warnings, vec![]);
    let (settings, warnings) = crate_settings_for_component_with(&flagged, unit, &metadata, None);
    assert_eq!(settings.cfg_set, None);
    assert_eq!(warnings, vec![]);
}

#[test]
fn crates_config_holds_defaults_and_one_record_per_crate() {
    let metadata = workspace();
    let unit = &metadata.compilation_units[0];
    let (config, warnings) = get_crates_config(&metadata, unit, &metadata.packages[1], false);
    assert_eq!(config.global, get_global_crate_settings(unit, &metadata.packages[1], false).0);
    assert_eq!(keys(&config.override_map), vec!["app", "util", "stray"]);
    for component in &unit.components[1..] {
        assert_eq!(
            config.override_map.get(&component.name),
            Some(&get_crate_settings_for_component(component, unit, &metadata).0)
        );
    }
    assert_eq!(warnings, vec![Warning::UnknownEdition { crate_name: "util".to_string() }]);
}

#[test]
fn no_deps_empties_only_the_defaults() {
    let metadata = workspace();
    let with = get_project_config(&metadata, &metadata.packages[1], false).unwrap();
    let without = get_project_config(&metadata, &metadata.packages[1], true).unwrap();
    assert_eq!(without.config.crates_config.global.dependencies.entries(), &vec![]);
    assert_eq!(with.config.crates_config.global.dependencies.entries().len(), 3);
    assert_eq!(with.config.crates_config.override_map, without.config.crates_config.override_map);
    assert_eq!(with.config.crate_roots, without.config.crate_roots);
    assert_eq!(with.warnings, without.warnings);
}

#[test]
fn library_unit_with_standard_library_and_one_package() {
    let metadata = Metadata {
        workspace_root: "/ws".to_string(),
        packages: vec![package("p", None, &[])],
        compilation_units: vec![unit(
            "p",
            "lib",
            vec![component("core", Some(&[])), component("p", Some(&["core"]))],
        )],
    };
    let resolution = get_project_config(&metadata, &metadata.packages[0], false).unwrap();
    let config = resolution.config;
    let roots: Vec<(String, String)> =
        config.crate_roots.iter().map(|(k, v)| (k.clone(), v.clone())).collect();
    assert_eq!(roots, vec![("p".to_string(), "/ws/p/src".to_string())]);
    assert_eq!(keys(&config.crates_config.override_map), vec!["p"]);
    let own = config.crates_config.override_map.get("p").unwrap();
    assert_eq!(own.dependencies.entries(), &vec![]);
    assert_eq!(own.name, Some("p".to_string()));
    assert_eq!(own.edition, Edition::V2023_01);
    assert_eq!(own.version, Some("1.2.3".to_string()));
    assert_eq!(own.cfg_set, None);
    assert_eq!(own.experimental_features, no_features());
    assert_eq!(config.crates_config.global.dependencies.entries(), &vec![dependency("p")]);
    assert_eq!(config.crates_config.global.name, None);
    assert_eq!(config.crates_config.global.version, Some("1.2.3".to_string()));
    assert_eq!(resolution.warnings, vec![]);
}

#[test]
fn the_standard_library_is_listed_nowhere() {
    let metadata = workspace();
    let config = get_project_config(&metadata, &metadata.packages[1], false).unwrap().config;
    assert!(!config.crate_roots.contains_key(RESERVED));
    assert!(!config.crates_config.override_map.contains_key(RESERVED));
    assert!(config.crates_config.global.dependencies.entries().iter().all(|d| d.name != RESERVED));
    for (_, settings) in config.crates_config.override_map.iter() {
        assert!(settings.dependencies.entries().iter().all(|d| d.name != RESERVED));
    }
}

#[test]
fn crate_roots_and_overrides_have_the_same_keys() {
    let metadata = workspace();
    for package in &metadata.packages[1..2] {
        let config = get_project_config(&metadata, package, false).unwrap().config;
        assert_eq!(keys(&config.crate_roots), keys(&config.crates_config.override_map));
        assert_eq!(keys(&config.crate_roots), vec!["app", "util", "stray"]);
    }
}

#[test]
fn resolving_twice_gives_the_same_configuration() {
    let metadata = workspace();
    let first = get_project_config(&metadata, &metadata.packages[1], false);
    let second = get_project_config(&metadata, &metadata.packages[1], false);
    assert_eq!(first, second);
    assert!(first.is_ok());
    let first = get_project_config(&metadata, &metadata.packages[2], false);
    let second = get_project_config(&metadata, &metadata.packages[2], false);
    assert_eq!(first, second);
    assert!(first.is_err());
}

#[test]
fn the_preferred_unit_of_the_package_is_resolved() {
    let mut metadata = workspace();
    metadata.compilation_units.push(unit(
        "app",
        "starknet-contract",
        vec![component("core", None), component("app", None), component("extra", None)],
    ));
    let config = get_project_config(&metadata, &metadata.packages[1], false).unwrap().config;
    assert_eq!(keys(&config.crate_roots), vec!["app", "extra"]);
    metadata.compilation_units.remove(2);
    metadata.compilation_units.remove(0);
    let config = get_project_config(&metadata, &metadata.packages[1], false).unwrap().config;
    assert_eq!(keys(&config.crate_roots), vec!["app"]);
}

#[test]
fn warnings_come_in_the_order_of_the_work() {
    let mut metadata = workspace();
    metadata.packages[1].edition = Some("1999".to_string());
    let resolution = get_project_config(&metadata, &metadata.packages[1], false).unwrap();
    assert_eq!(
        resolution.warnings,
        vec![
            Warning::UnknownEdition { crate_name: "app".to_string() },
            Warning::UnknownEdition { crate_name: "app".to_string() },
            Warning::UnknownEdition { crate_name: "util".to_string() },
        ]
    );
    assert_eq!(resolution.config.crates_config.global.edition, Edition::V2023_01);
}

#[test]
fn only_the_standard_library_has_the_reserved_name() {
    assert!(is_reserved_name(&"core".to_string()));
    for name in ["", "Core", "core ", "corelib", "cor", "app"] {
        assert!(!is_reserved_name(&name.to_string()));
    }
}

#[test]
fn a_copied_dependency_map_holds_the_same_entries() {
    let map = dependencies(&["b", "a", "c"]);
    let copy = map.clone();
    assert_eq!(copy, map);
    assert_eq!(copy.entries(), &vec![dependency("a"), dependency("b"), dependency("c")]);
    let settings = DependencySettings { discriminator: Some("d".to_string()) };
    assert_eq!(settings.clone(), settings);
    assert_eq!(dependency("a").clone(), dependency("a"));
}
