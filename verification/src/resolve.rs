//! Resolution of a compilation unit into crate roots and crate settings.

use crate::config::{
    CratesConfig, EjectError, EjectErrorView, ProjectConfig, ProjectConfigView, Resolution,
    ResolutionView,
};
use crate::metadata::{
    CompilationUnit, CompilationUnitView, Component, ComponentView, Metadata,
    MetadataView, Package, PackageView,
};
use crate::ordered::{
    insert_override, insert_root, new_override_map, new_root_map, ordered_insert, override_entries,
    root_entries,
};
use crate::select::{is_selected, lemma_selected_unique, select_compilation_unit, unit_matches};
use crate::settings::{
    CfgEntryView, CfgSet, CrateSettings, CrateSettingsView, DependencyMap, DependencySettings,
    DependencySettingsView, Warning, WarningView,
};
use crate::values::{
    cfg_conversion_outcome, cfg_warning, edition_warning, native_cfg, native_cfg_set,
    package_edition, package_features, scarb_package_edition, scarb_package_experimental_features,
};
use cairo_lang_utils::ordered_hash_map::OrderedHashMap;
use vstd::prelude::*;

verus! {

/// Name of the standard library's crate, which every unit holds and no
/// configuration lists.
pub open spec fn reserved_crate_name() -> Seq<char> {
    "core"@
}

/// Whether `name` is the name of the standard library's crate.
pub fn is_reserved_name(name: &String) -> (r: bool)
    ensures
        r == (name@ == reserved_crate_name()),
{
    *name == "core".to_owned()
}

/// The crate roots of a unit with these components: each component but the
/// standard library, in the components' order, with its source root.
pub open spec fn crate_roots_of(components: Seq<ComponentView>) -> Seq<(Seq<char>, Seq<char>)>
    decreases components.len(),
{
    if components.len() == 0 {
        Seq::empty()
    } else {
        let rest = crate_roots_of(components.drop_last());
        let last = components.last();
        if last.name == reserved_crate_name() {
            rest
        } else {
            ordered_insert(rest, last.name, last.source_root)
        }
    }
}

/// What a crate records about a dependency on `component`.
pub open spec fn dependency_on(component: ComponentView) -> DependencySettingsView {
    DependencySettingsView { discriminator: component.discriminator }
}

/// The dependencies that the defaults of a unit list: every component but
/// the standard library, by name.
pub open spec fn unit_dependencies(components: Seq<ComponentView>) -> Map<
    Seq<char>,
    DependencySettingsView,
>
    decreases components.len(),
{
    if components.len() == 0 {
        Map::empty()
    } else {
        let rest = unit_dependencies(components.drop_last());
        let last = components.last();
        if last.name == reserved_crate_name() {
            rest
        } else {
            rest.insert(last.name, dependency_on(last))
        }
    }
}

/// Whether a reference to `id` can mean `component`: it carries that
/// identifier and is not the standard library.
pub open spec fn is_target(component: ComponentView, id: Seq<char>) -> bool {
    component.name != reserved_crate_name() && component.id == Some(id)
}

/// The first component from position `from` on that a reference to `id` can
/// mean.
pub open spec fn dependency_target_from(components: Seq<ComponentView>, id: Seq<char>, from: int) -> Option<
    ComponentView,
>
    decreases components.len() - from,
{
    if from < 0 || from >= components.len() {
        None
    } else if is_target(components[from], id) {
        Some(components[from])
    } else {
        dependency_target_from(components, id, from + 1)
    }
}

/// The component that a reference to `id` resolves to, if any.
pub open spec fn dependency_target(components: Seq<ComponentView>, id: Seq<char>) -> Option<
    ComponentView,
> {
    dependency_target_from(components, id, 0)
}

/// The dependencies of a component with these references, within a unit of
/// these components: each reference that resolves, under the name of the
/// component it resolves to.
pub open spec fn component_dependencies(
    references: Seq<Seq<char>>,
    components: Seq<ComponentView>,
) -> Map<Seq<char>, DependencySettingsView>
    decreases references.len(),
{
    if references.len() == 0 {
        Map::empty()
    } else {
        let rest = component_dependencies(references.drop_last(), components);
        match dependency_target(components, references.last()) {
            Some(target) => rest.insert(target.name, dependency_on(target)),
            None => rest,
        }
    }
}

/// The first package from position `from` on with identifier `id`.
pub open spec fn package_with_id_from(packages: Seq<PackageView>, id: Seq<char>, from: int) -> Option<
    PackageView,
>
    decreases packages.len() - from,
{
    if from < 0 || from >= packages.len() {
        None
    } else if packages[from].id == id {
        Some(packages[from])
    } else {
        package_with_id_from(packages, id, from + 1)
    }
}

/// The package with identifier `id`, if the snapshot holds one.
pub open spec fn package_with_id(packages: Seq<PackageView>, id: Seq<char>) -> Option<PackageView> {
    package_with_id_from(packages, id, 0)
}

/// The crate roots of a compilation unit: for each component but the standard
/// library its name and source root, in the order of the components.
pub fn get_crate_roots(compilation_unit: &CompilationUnit) -> (roots: OrderedHashMap<String, String>)
    ensures
        root_entries(roots) == crate_roots_of(compilation_unit@.components),
{
    let ghost components = compilation_unit@.components;
    let mut roots = new_root_map();
    let mut i: usize = 0;
    while i < compilation_unit.components.len()
        invariant
            i <= compilation_unit.components.len(),
            components == compilation_unit@.components,
            root_entries(roots) == crate_roots_of(components.take(i as int)),
        decreases compilation_unit.components.len() - i,
    {
        let component = &compilation_unit.components[i];
        proof {
            assert(components.take(i + 1).drop_last() =~= components.take(i as int));
            assert(components.take(i + 1).last() == component@);
        }
        if !is_reserved_name(&component.name) {
            insert_root(&mut roots, component.name.clone(), component.source_root.clone());
        }
        i += 1;
    }
    proof {
        assert(components.take(i as int) =~= components);
    }
    roots
}

/// The package with identifier `id`: the first such package of the snapshot.
pub fn find_package<'a>(packages: &'a Vec<Package>, id: &String) -> (r: Option<&'a Package>)
    ensures
        r.deep_view() == package_with_id(packages.deep_view(), id@),
{
    let mut i: usize = 0;
    while i < packages.len()
        invariant
            i <= packages.len(),
            package_with_id_from(packages.deep_view(), id@, i as int) == package_with_id(
                packages.deep_view(),
                id@,
            ),
        decreases packages.len() - i,
    {
        if packages[i].id == *id {
            return Some(&packages[i]);
        }
        i += 1;
    }
    None
}

/// The component that a reference to `id` resolves to: the first component
/// with that identifier that is not the standard library.
pub fn find_dependency<'a>(components: &'a Vec<Component>, id: &String) -> (r: Option<&'a Component>)
    ensures
        r.deep_view() == dependency_target(components.deep_view(), id@),
{
    let mut i: usize = 0;
    while i < components.len()
        invariant
            i <= components.len(),
            dependency_target_from(components.deep_view(), id@, i as int) == dependency_target(
                components.deep_view(),
                id@,
            ),
        decreases components.len() - i,
    {
        let component = &components[i];
        let carries: bool = match &component.id {
            Some(own) => *own == *id,
            None => false,
        };
        if carries && !is_reserved_name(&component.name) {
            return Some(component);
        }
        i += 1;
    }
    None
}

/// A copy of an optional string.
fn copy_optional(text: &Option<String>) -> (r: Option<String>)
    ensures
        r == *text,
{
    match text {
        Some(inner) => Some(inner.clone()),
        None => None,
    }
}

/// The dependencies that the defaults of a unit list: one entry for each
/// component but the standard library, with the component's discriminator.
pub fn collect_unit_dependencies(components: &Vec<Component>) -> (map: DependencyMap)
    ensures
        map@ == unit_dependencies(components.deep_view()),
{
    let ghost all = components.deep_view();
    let mut map = DependencyMap::new();
    let mut i: usize = 0;
    while i < components.len()
        invariant
            i <= components.len(),
            all == components.deep_view(),
                map@ == unit_dependencies(all.take(i as int)),
        decreases components.len() - i,
    {
        let component = &components[i];
        proof {
            assert(all.take(i + 1).drop_last() =~= all.take(i as int));
            assert(all.take(i + 1).last() == component@);
        }
        if !is_reserved_name(&component.name) {
            let settings = DependencySettings {
                discriminator: copy_optional(&component.discriminator),
            };
            map.insert(component.name.clone(), settings);
        }
        i += 1;
    }
    proof {
        assert(all.take(i as int) =~= all);
    }
    map
}

/// The dependencies of a component with these references: one entry for each
/// reference that resolves within `components`, under the name of the
/// component it resolves to. A reference that resolves to nothing is passed
/// over.
pub fn collect_component_dependencies(references: &Vec<String>, components: &Vec<Component>) -> (map:
    DependencyMap)
    ensures
        map@ == component_dependencies(references.deep_view(), components.deep_view()),
{
    let ghost all = references.deep_view();
    let mut map = DependencyMap::new();
    let mut i: usize = 0;
    while i < references.len()
        invariant
            i <= references.len(),
            all == references.deep_view(),
                map@ == component_dependencies(all.take(i as int), components.deep_view()),
        decreases references.len() - i,
    {
        proof {
            assert(all.take(i + 1).drop_last() =~= all.take(i as int));
            assert(all.take(i + 1).last() == references[i as int]@);
        }
        match find_dependency(components, &references[i]) {
            Some(target) => {
                let settings = DependencySettings {
                    discriminator: copy_optional(&target.discriminator),
                };
                map.insert(target.name.clone(), settings);
            },
            None => {},
        }
        i += 1;
    }
    proof {
        assert(all.take(i as int) =~= all);
    }
    map
}

/// A warning as a list: one item, or none.
pub open spec fn optional(warning: Option<WarningView>) -> Seq<WarningView> {
    match warning {
        Some(w) => seq![w],
        None => Seq::empty(),
    }
}

/// Adds a warning, where there is one, to the end of a list.
fn note(warnings: &mut Vec<Warning>, warning: Option<Warning>)
    ensures
        final(warnings).deep_view() == old(warnings).deep_view() + optional(warning.deep_view()),
{
    match warning {
        Some(w) => {
            warnings.push(w);
            assert(warnings.deep_view() =~= old(warnings).deep_view() + seq![w.deep_view()]);
        },
        None => {
            assert(warnings.deep_view() =~= old(warnings).deep_view() + Seq::<WarningView>::empty());
        },
    }
}

/// The defaults of a unit built for `package`, given the unit's flags in the
/// compiler's form: edition, version and experimental features are the
/// package's, and the dependencies are all the unit's crates, or none where
/// `no_deps` is set.
pub open spec fn global_settings_given(
    unit: CompilationUnitView,
    package: PackageView,
    no_deps: bool,
    cfg_set: Option<Seq<CfgEntryView>>,
) -> CrateSettingsView {
    CrateSettingsView {
        name: None,
        edition: package_edition(Some(package)),
        version: Some(package.version),
        cfg_set,
        dependencies: if no_deps {
            Map::empty()
        } else {
            unit_dependencies(unit.components)
        },
        experimental_features: package_features(Some(package)),
    }
}

/// The warnings that the defaults of a unit built for `package` come with.
pub open spec fn global_warnings_given(
    package: PackageView,
    cfg_set: Option<Seq<CfgEntryView>>,
) -> Seq<WarningView> {
    optional(edition_warning(Some(package), package.name)) + optional(
        cfg_warning(cfg_set, package.name),
    )
}

/// The defaults of a unit built for `package`.
pub open spec fn global_settings(
    unit: CompilationUnitView,
    package: PackageView,
    no_deps: bool,
) -> CrateSettingsView {
    global_settings_given(unit, package, no_deps, native_cfg(unit.cfg))
}

/// The warnings that the defaults of a unit built for `package` come with.
pub open spec fn global_warnings(unit: CompilationUnitView, package: PackageView) -> Seq<
    WarningView,
> {
    global_warnings_given(package, native_cfg(unit.cfg))
}

/// The defaults of `compilation_unit`, built for `package`, where converting
/// the unit's flags gave `converted`.
pub fn global_crate_settings_with(
    compilation_unit: &CompilationUnit,
    package: &Package,
    no_deps: bool,
    converted: Option<CfgSet>,
) -> (r: (CrateSettings, Vec<Warning>))
    ensures
        r.0@ == global_settings_given(
            compilation_unit@,
            package@,
            no_deps,
            converted.deep_view(),
        ),
        r.1.deep_view() == global_warnings_given(package@, converted.deep_view()),
{
    let mut warnings: Vec<Warning> = Vec::new();
    assert(warnings.deep_view() =~= Seq::<WarningView>::empty());
    let (edition, edition_note) = scarb_package_edition(&Some(package), package.name.as_str());
    note(&mut warnings, edition_note);
    let (cfg_set, cfg_note) = cfg_conversion_outcome(converted, package.name.as_str());
    note(&mut warnings, cfg_note);
    let dependencies = if no_deps {
        DependencyMap::new()
    } else {
        collect_unit_dependencies(&compilation_unit.components)
    };
    let experimental_features = scarb_package_experimental_features(&Some(package));
    let settings = CrateSettings {
        name: None,
        edition,
        version: Some(package.version.clone()),
        cfg_set,
        dependencies,
        experimental_features,
    };
    (settings, warnings)
}

/// The defaults of `compilation_unit`, built for `package`: the settings of a
/// crate that has none of its own.
pub fn get_global_crate_settings(
    compilation_unit: &CompilationUnit,
    package: &Package,
    no_deps: bool,
) -> (r: (CrateSettings, Vec<Warning>))
    ensures
        r.0@ == global_settings(compilation_unit@, package@, no_deps),
        r.1.deep_view() == global_warnings(compilation_unit@, package@),
{
    let flags = compilation_unit.cfg.as_slice();
    assert(flags.deep_view() =~= compilation_unit.cfg.deep_view());
    let converted = native_cfg_set(flags);
    global_crate_settings_with(compilation_unit, package, no_deps, converted)
}

/// The references that a component declares: none where it declares no list.
pub open spec fn declared_references(component: ComponentView) -> Seq<Seq<char>> {
    match component.dependencies {
        Some(references) => references,
        None => Seq::empty(),
    }
}

/// The flags of a component in the compiler's form: `None` where the
/// component declares no flags, else what converting them gives.
pub open spec fn component_cfg(component: ComponentView) -> Option<Option<Seq<CfgEntryView>>> {
    match component.cfg {
        Some(entries) => Some(native_cfg(entries)),
        None => None,
    }
}

/// The settings of the crate of `component` within `unit`, given what
/// converting its flags gave (`None`: it declares none). Edition, version and
/// experimental features are those of the component's package, as far as the
/// snapshot holds it; the dependencies are the component's references that
/// resolve within the unit.
pub open spec fn component_settings_given(
    component: ComponentView,
    unit: CompilationUnitView,
    packages: Seq<PackageView>,
    converted: Option<Option<Seq<CfgEntryView>>>,
) -> CrateSettingsView {
    let package = package_with_id(packages, component.package);
    CrateSettingsView {
        name: Some(component.name),
        edition: package_edition(package),
        version: match package {
            Some(p) => Some(p.version),
            None => None,
        },
        cfg_set: match converted {
            Some(set) => set,
            None => None,
        },
        dependencies: component_dependencies(declared_references(component), unit.components),
        experimental_features: package_features(package),
    }
}

/// The warnings that the settings of the crate of `component` come with.
pub open spec fn component_warnings_given(
    component: ComponentView,
    packages: Seq<PackageView>,
    converted: Option<Option<Seq<CfgEntryView>>>,
) -> Seq<WarningView> {
    optional(edition_warning(package_with_id(packages, component.package), component.name)) + (
    match converted {
        Some(set) => optional(cfg_warning(set, component.name)),
        None => Seq::empty(),
    })
}

/// The settings of the crate of `component` within `unit`.
pub open spec fn component_settings(
    component: ComponentView,
    unit: CompilationUnitView,
    packages: Seq<PackageView>,
) -> CrateSettingsView {
    component_settings_given(component, unit, packages, component_cfg(component))
}

/// The warnings that the settings of the crate of `component` come with.
pub open spec fn component_warnings(component: ComponentView, packages: Seq<PackageView>) -> Seq<
    WarningView,
> {
    component_warnings_given(component, packages, component_cfg(component))
}

/// The settings of the crate of `component`, one of the components of
/// `compilation_unit`, where converting the component's flags gave
/// `converted` (`None`: it declares none).
pub fn crate_settings_for_component_with(
    component: &Component,
    compilation_unit: &CompilationUnit,
    metadata: &Metadata,
    converted: Option<Option<CfgSet>>,
) -> (r: (CrateSettings, Vec<Warning>))
    ensures
        r.0@ == component_settings_given(
            component@,
            compilation_unit@,
            metadata@.packages,
            converted.deep_view(),
        ),
        r.1.deep_view() == component_warnings_given(
            component@,
            metadata@.packages,
            converted.deep_view(),
        ),
{
    let mut warnings: Vec<Warning> = Vec::new();
    assert(warnings.deep_view() =~= Seq::<WarningView>::empty());
    let package = find_package(&metadata.packages, &component.package);
    let (edition, edition_note) = scarb_package_edition(&package, component.name.as_str());
    note(&mut warnings, edition_note);
    let version = match package {
        Some(p) => Some(p.version.clone()),
        None => None,
    };
    let cfg_set = match converted {
        Some(set) => {
            let (cfg_set, cfg_note) = cfg_conversion_outcome(set, component.name.as_str());
            note(&mut warnings, cfg_note);
            cfg_set
        },
        None => {
            assert(warnings.deep_view() + Seq::<WarningView>::empty() =~= warnings.deep_view());
            None
        },
    };
    let dependencies = match &component.dependencies {
        Some(references) => collect_component_dependencies(
            references,
            &compilation_unit.components,
        ),
        None => {
            let none: Vec<String> = Vec::new();
            assert(none.deep_view() =~= Seq::<Seq<char>>::empty());
            collect_component_dependencies(&none, &compilation_unit.components)
        },
    };
    let experimental_features = scarb_package_experimental_features(&package);
    let settings = CrateSettings {
        name: Some(component.name.clone()),
        edition,
        version,
        cfg_set,
        dependencies,
        experimental_features,
    };
    (settings, warnings)
}

/// The settings of the crate of `component`, one of the components of
/// `compilation_unit`.
pub fn get_crate_settings_for_component(
    component: &Component,
    compilation_unit: &CompilationUnit,
    metadata: &Metadata,
) -> (r: (CrateSettings, Vec<Warning>))
    ensures
        r.0@ == component_settings(component@, compilation_unit@, metadata@.packages),
        r.1.deep_view() == component_warnings(component@, metadata@.packages),
{
    let converted = match &component.cfg {
        Some(entries) => {
            let flags = entries.as_slice();
            assert(flags.deep_view() =~= entries.deep_view());
            Some(native_cfg_set(flags))
        },
        None => None,
    };
    crate_settings_for_component_with(component, compilation_unit, metadata, converted)
}

/// The per-crate settings of a unit, as far as `components` go: for each of
/// them but the standard library, in their order, its name and settings.
pub open spec fn override_map_of(
    components: Seq<ComponentView>,
    unit: CompilationUnitView,
    packages: Seq<PackageView>,
) -> Seq<(Seq<char>, CrateSettingsView)>
    decreases components.len(),
{
    if components.len() == 0 {
        Seq::empty()
    } else {
        let rest = override_map_of(components.drop_last(), unit, packages);
        let last = components.last();
        if last.name == reserved_crate_name() {
            rest
        } else {
            ordered_insert(rest, last.name, component_settings(last, unit, packages))
        }
    }
}

/// The warnings that the per-crate settings come with, as far as
/// `components` go: those of each component but the standard library, in the
/// components' order.
pub open spec fn override_warnings(components: Seq<ComponentView>, packages: Seq<PackageView>) -> Seq<
    WarningView,
>
    decreases components.len(),
{
    if components.len() == 0 {
        Seq::empty()
    } else {
        let rest = override_warnings(components.drop_last(), packages);
        let last = components.last();
        if last.name == reserved_crate_name() {
            rest
        } else {
            rest + component_warnings(last, packages)
        }
    }
}

/// The configuration of `unit`, built for `package`.
pub open spec fn unit_config(
    metadata: MetadataView,
    unit: CompilationUnitView,
    package: PackageView,
    no_deps: bool,
) -> ProjectConfigView {
    ProjectConfigView {
        crate_roots: crate_roots_of(unit.components),
        global: global_settings(unit, package, no_deps),
        override_map: override_map_of(unit.components, unit, metadata.packages),
    }
}

/// The warnings that the configuration of `unit` comes with: those of the
/// defaults, then those of the crates.
pub open spec fn unit_warnings(
    metadata: MetadataView,
    unit: CompilationUnitView,
    package: PackageView,
) -> Seq<WarningView> {
    global_warnings(unit, package) + override_warnings(unit.components, metadata.packages)
}

/// The position of the unit that stands for `package`, if the package owns a
/// unit.
pub open spec fn selected_unit(units: Seq<CompilationUnitView>, package: Seq<char>) -> Option<int> {
    if exists|i: int| is_selected(units, package, i) {
        Some(choose|i: int| is_selected(units, package, i))
    } else {
        None
    }
}

/// What resolving `package` against `metadata` gives: the configuration of
/// the unit that stands for the package, or an error where the package owns
/// no unit.
pub open spec fn project_config_of(metadata: MetadataView, package: PackageView, no_deps: bool) -> Result<
    ResolutionView,
    EjectErrorView,
> {
    match selected_unit(metadata.compilation_units, package.id) {
        Some(i) => {
            let unit = metadata.compilation_units[i];
            Ok(
                ResolutionView {
                    config: unit_config(metadata, unit, package, no_deps),
                    warnings: unit_warnings(metadata, unit, package),
                },
            )
        },
        None => Err(EjectErrorView::NoCompilationUnit { package: package.id }),
    }
}

/// Whether `result` is what resolving `package` against `metadata` gives.
pub open spec fn resolves(
    metadata: MetadataView,
    package: PackageView,
    no_deps: bool,
    result: Result<Resolution, EjectError>,
) -> bool {
    match result {
        Ok(resolution) => project_config_of(metadata, package, no_deps) == Ok::<
            ResolutionView,
            EjectErrorView,
        >(resolution@),
        Err(error) => project_config_of(metadata, package, no_deps) == Err::<
            ResolutionView,
            EjectErrorView,
        >(error@),
    }
}

/// Adds the warnings of `more` to the end of `warnings`.
fn note_all(warnings: &mut Vec<Warning>, more: Vec<Warning>)
    ensures
        final(warnings).deep_view() == old(warnings).deep_view() + more.deep_view(),
{
    let mut more = more;
    let ghost added = more.deep_view();
    warnings.append(&mut more);
    assert(warnings.deep_view() =~= old(warnings).deep_view() + added);
}

/// The settings of all crates of `compilation_unit`, built for
/// `main_package`: the defaults, and for each component but the standard
/// library its own settings under its name.
pub fn get_crates_config(
    metadata: &Metadata,
    compilation_unit: &CompilationUnit,
    main_package: &Package,
    no_deps: bool,
) -> (r: (CratesConfig, Vec<Warning>))
    ensures
        r.0.global@ == global_settings(compilation_unit@, main_package@, no_deps),
        override_entries(r.0.override_map) == override_map_of(
            compilation_unit@.components,
            compilation_unit@,
            metadata@.packages,
        ),
        r.1.deep_view() == global_warnings(compilation_unit@, main_package@) + override_warnings(
            compilation_unit@.components,
            metadata@.packages,
        ),
{
    let ghost components = compilation_unit@.components;
    let ghost packages = metadata@.packages;
    let ghost first = global_warnings(compilation_unit@, main_package@);
    let (global, mut warnings) = get_global_crate_settings(compilation_unit, main_package, no_deps);
    let mut override_map = new_override_map();
    let mut i: usize = 0;
    assert(warnings.deep_view() =~= first + override_warnings(components.take(0), packages));
    while i < compilation_unit.components.len()
        invariant
            i <= compilation_unit.components.len(),
            components == compilation_unit@.components,
            packages == metadata@.packages,
            override_entries(override_map) == override_map_of(
                components.take(i as int),
                compilation_unit@,
                packages,
            ),
            warnings.deep_view() == first + override_warnings(components.take(i as int), packages),
        decreases compilation_unit.components.len() - i,
    {
        let component = &compilation_unit.components[i];
        proof {
            assert(components.take(i + 1).drop_last() =~= components.take(i as int));
            assert(components.take(i + 1).last() == component@);
        }
        if !is_reserved_name(&component.name) {
            let (settings, more) = get_crate_settings_for_component(
                component,
                compilation_unit,
                metadata,
            );
            insert_override(&mut override_map, component.name.clone(), settings);
            note_all(&mut warnings, more);
            assert(warnings.deep_view() =~= first + (override_warnings(
                components.take(i as int),
                packages,
            ) + component_warnings(component@, packages)));
        }
        i += 1;
    }
    proof {
        assert(components.take(i as int) =~= components);
    }
    (CratesConfig { global, override_map }, warnings)
}

/// Whether a package owns no unit exactly where none is selected for it, and
/// the selected unit is the one that `is_selected` describes.
pub proof fn lemma_selected_unit(units: Seq<CompilationUnitView>, package: Seq<char>, i: int)
    requires
        is_selected(units, package, i),
    ensures
        selected_unit(units, package) == Some(i),
{
    let chosen = choose|k: int| is_selected(units, package, k);
    lemma_selected_unique(units, package, i, chosen);
}

/// The project configuration for `main_package`: the crate roots and crate
/// settings of the compilation unit that stands for the package. Fails where
/// the snapshot holds no unit of the package, and only there.
pub fn get_project_config(metadata: &Metadata, main_package: &Package, no_deps: bool) -> (r: Result<
    Resolution,
    EjectError,
>)
    ensures
        resolves(metadata@, main_package@, no_deps, r),
{
    match select_compilation_unit(&metadata.compilation_units, &main_package.id) {
        Some(i) => {
            let compilation_unit = &metadata.compilation_units[i];
            proof {
                lemma_selected_unit(metadata@.compilation_units, main_package@.id, i as int);
                assert(metadata@.compilation_units[i as int] == compilation_unit@);
            }
            let crate_roots = get_crate_roots(compilation_unit);
            let (crates_config, warnings) = get_crates_config(
                metadata,
                compilation_unit,
                main_package,
                no_deps,
            );
            Ok(Resolution { config: ProjectConfig { crate_roots, crates_config }, warnings })
        },
        None => {
            proof {
                assert forall|k: int| !is_selected(
                    metadata@.compilation_units,
                    main_package@.id,
                    k,
                ) by {
                    assert(!unit_matches(metadata@.compilation_units, main_package@.id, k));
                }
            }
            Err(EjectError::NoCompilationUnit { package: main_package.id.clone() })
        },
    }
}

} // verus!
