//! What holds of every resolution.

use crate::config::{EjectError, Resolution};
use crate::metadata::{CompilationUnitView, ComponentView, MetadataView, PackageView};
use crate::ordered::{
    entry_keys, key_position, lemma_key_position, lemma_ordered_insert_entry,
    lemma_ordered_insert_keys,
};
use crate::resolve::{
    component_dependencies, component_settings, crate_roots_of, declared_references,
    dependency_target_from, is_target, override_map_of, package_with_id, project_config_of,
    reserved_crate_name, resolves, selected_unit, unit_dependencies,
};
use crate::settings::CrateSettingsView;
use vstd::prelude::*;

verus! {

/// Whether `name` is the name of a component other than the standard library.
pub open spec fn is_crate_name(components: Seq<ComponentView>, name: Seq<char>) -> bool {
    name != reserved_crate_name() && exists|i: int|
        0 <= i < components.len() && (#[trigger] components[i]).name == name
}

/// Whether every key of a settings record's dependencies is the name of a
/// component other than the standard library.
pub open spec fn depends_within(settings: CrateSettingsView, components: Seq<ComponentView>) -> bool {
    forall|name: Seq<char>| #[trigger]
        settings.dependencies.dom().contains(name) ==> is_crate_name(components, name)
}

/// The crate roots do not list the standard library.
pub proof fn lemma_roots_exclude_reserved(components: Seq<ComponentView>)
    ensures
        !entry_keys(crate_roots_of(components)).contains(reserved_crate_name()),
    decreases components.len(),
{
    if components.len() > 0 {
        let rest = crate_roots_of(components.drop_last());
        let last = components.last();
        lemma_roots_exclude_reserved(components.drop_last());
        if last.name != reserved_crate_name() {
            lemma_ordered_insert_keys(rest, last.name, last.source_root);
            let keys = entry_keys(rest);
            assert forall|i: int| 0 <= i < keys.push(last.name).len() implies keys.push(
                last.name,
            )[i] != reserved_crate_name() by {
                if i < keys.len() {
                    assert(keys.contains(keys[i]));
                }
            }
        }
    }
}

/// The crate roots and the per-crate settings list the same crates in the
/// same order.
pub proof fn lemma_keys_agree(
    components: Seq<ComponentView>,
    unit: CompilationUnitView,
    packages: Seq<PackageView>,
)
    ensures
        entry_keys(crate_roots_of(components)) == entry_keys(
            override_map_of(components, unit, packages),
        ),
    decreases components.len(),
{
    if components.len() > 0 {
        let last = components.last();
        lemma_keys_agree(components.drop_last(), unit, packages);
        if last.name != reserved_crate_name() {
            lemma_ordered_insert_keys(
                crate_roots_of(components.drop_last()),
                last.name,
                last.source_root,
            );
            lemma_ordered_insert_keys(
                override_map_of(components.drop_last(), unit, packages),
                last.name,
                component_settings(last, unit, packages),
            );
        }
    } else {
        assert(entry_keys(crate_roots_of(components)) =~= entry_keys(
            override_map_of(components, unit, packages),
        ));
    }
}

/// The defaults list as dependencies exactly the components other than the
/// standard library.
pub proof fn lemma_unit_dependencies_domain(components: Seq<ComponentView>)
    ensures
        forall|name: Seq<char>| #[trigger]
            unit_dependencies(components).dom().contains(name) <==> is_crate_name(
                components,
                name,
            ),
    decreases components.len(),
{
    if components.len() > 0 {
        let front = components.drop_last();
        let last = components.last();
        lemma_unit_dependencies_domain(front);
        assert forall|name: Seq<char>| #[trigger]
            unit_dependencies(components).dom().contains(name) <==> is_crate_name(
                components,
                name,
            ) by {
            assert(unit_dependencies(front).dom().contains(name) <==> is_crate_name(front, name));
            if is_crate_name(front, name) {
                let i = choose|i: int| 0 <= i < front.len() && (#[trigger] front[i]).name == name;
                assert(components[i] == front[i]);
            }
            if is_crate_name(components, name) {
                let i = choose|i: int|
                    0 <= i < components.len() && (#[trigger] components[i]).name == name;
                if i < front.len() {
                    assert(front[i] == components[i]);
                }
            }
            if name == last.name && name != reserved_crate_name() {
                assert(components[components.len() - 1].name == name);
            }
        }
    }
}

/// What a reference resolves to is a component of the unit that carries the
/// reference's identifier and is not the standard library.
pub proof fn lemma_dependency_target(components: Seq<ComponentView>, id: Seq<char>, from: int)
    requires
        0 <= from,
    ensures
        match dependency_target_from(components, id, from) {
            Some(target) => is_target(target, id) && is_crate_name(components, target.name),
            None => true,
        },
    decreases components.len() - from,
{
    if from < components.len() {
        if !is_target(components[from], id) {
            lemma_dependency_target(components, id, from + 1);
        }
    }
}

/// A component depends only on components of its unit other than the
/// standard library.
pub proof fn lemma_component_dependencies_domain(
    references: Seq<Seq<char>>,
    components: Seq<ComponentView>,
)
    ensures
        forall|name: Seq<char>| #[trigger]
            component_dependencies(references, components).dom().contains(name)
                ==> is_crate_name(components, name),
    decreases references.len(),
{
    if references.len() > 0 {
        let front = references.drop_last();
        lemma_component_dependencies_domain(front, components);
        lemma_dependency_target(components, references.last(), 0);
        assert forall|name: Seq<char>| #[trigger]
            component_dependencies(references, components).dom().contains(
                name,
            ) implies is_crate_name(components, name) by {
            if component_dependencies(front, components).dom().contains(name) {
                assert(is_crate_name(components, name));
            }
        }
    }
}

/// Each entry of the per-crate settings stands under the name of a component
/// of the unit other than the standard library, and holds the settings of a
/// component of that name.
pub proof fn lemma_override_entry(
    components: Seq<ComponentView>,
    unit: CompilationUnitView,
    packages: Seq<PackageView>,
    i: int,
)
    requires
        0 <= i < override_map_of(components, unit, packages).len(),
    ensures
        override_map_of(components, unit, packages)[i].0 != reserved_crate_name(),
        exists|j: int|
            0 <= j < components.len() && (#[trigger] components[j]).name == override_map_of(
                components,
                unit,
                packages,
            )[i].0 && override_map_of(components, unit, packages)[i].1 == component_settings(
                components[j],
                unit,
                packages,
            ),
    decreases components.len(),
{
    let front = components.drop_last();
    let last = components.last();
    let rest = override_map_of(front, unit, packages);
    let entry = override_map_of(components, unit, packages)[i];
    let settings = component_settings(last, unit, packages);
    if last.name != reserved_crate_name() {
        lemma_ordered_insert_entry(rest, last.name, settings, i);
    }
    if last.name != reserved_crate_name() && entry == (last.name, settings) {
        assert(components[components.len() - 1].name == entry.0);
    } else {
        lemma_override_entry(front, unit, packages, i);
        let j = choose|j: int|
            0 <= j < front.len() && (#[trigger] front[j]).name == rest[i].0 && rest[i].1
                == component_settings(front[j], unit, packages);
        assert(components[j] == front[j]);
    }
}

/// The components other than the standard library, in their order.
pub open spec fn crates_of(components: Seq<ComponentView>) -> Seq<ComponentView> {
    components.filter(|component: ComponentView| component.name != reserved_crate_name())
}

/// Whether no two components share a name.
pub open spec fn distinct_names(components: Seq<ComponentView>) -> bool {
    forall|i: int, j: int|
        0 <= i < j < components.len() ==> (#[trigger] components[i]).name
            != (#[trigger] components[j]).name
}

/// Each key of the crate roots is the name of a component.
pub proof fn lemma_root_key_is_name(components: Seq<ComponentView>, i: int)
    requires
        0 <= i < crate_roots_of(components).len(),
    ensures
        exists|j: int|
            0 <= j < components.len() && (#[trigger] components[j]).name == crate_roots_of(
                components,
            )[i].0,
    decreases components.len(),
{
    let front = components.drop_last();
    let last = components.last();
    let rest = crate_roots_of(front);
    let entry = crate_roots_of(components)[i];
    if last.name != reserved_crate_name() {
        lemma_ordered_insert_entry(rest, last.name, last.source_root, i);
    }
    if last.name != reserved_crate_name() && entry == (last.name, last.source_root) {
        assert(components[components.len() - 1].name == entry.0);
    } else {
        lemma_root_key_is_name(front, i);
        let j = choose|j: int| 0 <= j < front.len() && (#[trigger] front[j]).name == rest[i].0;
        assert(components[j] == front[j]);
    }
}

/// Where no two components share a name, the crate roots and the per-crate
/// settings are the components other than the standard library, one entry
/// each and in the components' order: the name with the source root, and the
/// name with the component's settings.
pub proof fn lemma_one_entry_per_crate(
    components: Seq<ComponentView>,
    unit: CompilationUnitView,
    packages: Seq<PackageView>,
)
    requires
        distinct_names(components),
    ensures
        crate_roots_of(components) == crates_of(components).map_values(
            |component: ComponentView| (component.name, component.source_root),
        ),
        override_map_of(components, unit, packages) == crates_of(components).map_values(
            |component: ComponentView|
                (component.name, component_settings(component, unit, packages)),
        ),
    decreases components.len(),
{
    reveal(Seq::filter);
    let root = |component: ComponentView| (component.name, component.source_root);
    let own = |component: ComponentView|
        (component.name, component_settings(component, unit, packages));
    if components.len() == 0 {
        assert(crate_roots_of(components) =~= crates_of(components).map_values(root));
        assert(override_map_of(components, unit, packages) =~= crates_of(components).map_values(
            own,
        ));
    } else {
        let front = components.drop_last();
        let last = components.last();
        assert forall|i: int, j: int| 0 <= i < j < front.len() implies (#[trigger] front[i]).name
            != (#[trigger] front[j]).name by {
            assert(components[i] == front[i] && components[j] == front[j]);
        }
        lemma_one_entry_per_crate(front, unit, packages);
        if last.name != reserved_crate_name() {
            let roots = crate_roots_of(front);
            let settings = override_map_of(front, unit, packages);
            lemma_keys_agree(front, unit, packages);
            lemma_key_position(roots, last.name);
            lemma_key_position(settings, last.name);
            let at = key_position(roots, last.name);
            if at < roots.len() {
                lemma_root_key_is_name(front, at);
                let j = choose|j: int|
                    0 <= j < front.len() && (#[trigger] front[j]).name == roots[at].0;
                assert(components[j] == front[j]);
                assert(components[components.len() - 1].name == last.name);
            }
            let also = key_position(settings, last.name);
            if also < settings.len() {
                assert(entry_keys(settings)[also] == last.name);
                assert(entry_keys(roots)[also] == last.name);
                assert(roots[also].0 == last.name);
            }
            assert(crate_roots_of(components) =~= crates_of(components).map_values(root));
            assert(override_map_of(components, unit, packages) =~= crates_of(
                components,
            ).map_values(own));
        }
    }
}

/// The standard library is listed nowhere in a configuration: not among the
/// crate roots, not among the crates with settings of their own, and not
/// among the dependencies of the defaults or of any crate.
pub proof fn lemma_reserved_crate_excluded(
    metadata: MetadataView,
    package: PackageView,
    no_deps: bool,
)
    requires
        project_config_of(metadata, package, no_deps) is Ok,
    ensures
        ({
            let config = project_config_of(metadata, package, no_deps)->Ok_0.config;
            &&& !entry_keys(config.crate_roots).contains(reserved_crate_name())
            &&& !entry_keys(config.override_map).contains(reserved_crate_name())
            &&& !config.global.dependencies.dom().contains(reserved_crate_name())
            &&& forall|i: int|
                0 <= i < config.override_map.len() ==> !(#[trigger] config.override_map[i]).1.dependencies.dom().contains(
                reserved_crate_name())
        }),
{
    let unit = metadata.compilation_units[selected_unit(
        metadata.compilation_units,
        package.id,
    )->Some_0];
    let config = project_config_of(metadata, package, no_deps)->Ok_0.config;
    lemma_roots_exclude_reserved(unit.components);
    lemma_keys_agree(unit.components, unit, metadata.packages);
    lemma_unit_dependencies_domain(unit.components);
    lemma_dependencies_within_unit(metadata, package, no_deps);
}

/// The crate roots and the per-crate settings of a configuration have the
/// same keys, in the same order.
pub proof fn lemma_roots_and_overrides_share_keys(
    metadata: MetadataView,
    package: PackageView,
    no_deps: bool,
)
    requires
        project_config_of(metadata, package, no_deps) is Ok,
    ensures
        ({
            let config = project_config_of(metadata, package, no_deps)->Ok_0.config;
            entry_keys(config.crate_roots) == entry_keys(config.override_map)
        }),
{
    let unit = metadata.compilation_units[selected_unit(
        metadata.compilation_units,
        package.id,
    )->Some_0];
    lemma_keys_agree(unit.components, unit, metadata.packages);
}

/// Every dependency that a configuration lists, in its defaults or for a
/// crate, is a component of the unit the configuration was resolved from,
/// and not the standard library.
pub proof fn lemma_dependencies_within_unit(
    metadata: MetadataView,
    package: PackageView,
    no_deps: bool,
)
    requires
        project_config_of(metadata, package, no_deps) is Ok,
    ensures
        ({
            let unit = metadata.compilation_units[selected_unit(
                metadata.compilation_units,
                package.id,
            )->Some_0];
            let config = project_config_of(metadata, package, no_deps)->Ok_0.config;
            &&& depends_within(config.global, unit.components)
            &&& forall|i: int|
                0 <= i < config.override_map.len() ==> depends_within(
                    (#[trigger] config.override_map[i]).1,
                    unit.components,
                )
        }),
{
    let unit = metadata.compilation_units[selected_unit(
        metadata.compilation_units,
        package.id,
    )->Some_0];
    let config = project_config_of(metadata, package, no_deps)->Ok_0.config;
    lemma_unit_dependencies_domain(unit.components);
    assert forall|i: int| 0 <= i < config.override_map.len() implies depends_within(
        (#[trigger] config.override_map[i]).1,
        unit.components,
    ) by {
        lemma_override_entry(unit.components, unit, metadata.packages, i);
        let j = choose|j: int|
            0 <= j < unit.components.len() && (#[trigger] unit.components[j]).name
                == config.override_map[i].0 && config.override_map[i].1 == component_settings(
                unit.components[j],
                unit,
                metadata.packages,
            );
        let component = unit.components[j];
        lemma_component_dependencies_domain(
            declared_references(component),
            unit.components,
        );
    }
}

/// The defaults of a configuration always carry the version of the package
/// it was resolved for; the settings of a crate carry a version exactly where
/// the snapshot holds the package of a component of the crate's name.
pub proof fn lemma_versions(metadata: MetadataView, package: PackageView, no_deps: bool, i: int)
    requires
        project_config_of(metadata, package, no_deps) is Ok,
        0 <= i < project_config_of(metadata, package, no_deps)->Ok_0.config.override_map.len(),
    ensures
        ({
            let unit = metadata.compilation_units[selected_unit(
                metadata.compilation_units,
                package.id,
            )->Some_0];
            let config = project_config_of(metadata, package, no_deps)->Ok_0.config;
            &&& config.global.version == Some(package.version)
            &&& exists|j: int|
                0 <= j < unit.components.len() && (#[trigger] unit.components[j]).name
                    == config.override_map[i].0 && (config.override_map[i].1.version is Some
                    <==> package_with_id(metadata.packages, unit.components[j].package) is Some)
        }),
{
    let unit = metadata.compilation_units[selected_unit(
        metadata.compilation_units,
        package.id,
    )->Some_0];
    let config = project_config_of(metadata, package, no_deps)->Ok_0.config;
    lemma_override_entry(unit.components, unit, metadata.packages, i);
    let j = choose|j: int|
        0 <= j < unit.components.len() && (#[trigger] unit.components[j]).name
            == config.override_map[i].0 && config.override_map[i].1 == component_settings(
            unit.components[j],
            unit,
            metadata.packages,
        );
    assert(unit.components[j].name == config.override_map[i].0);
}

/// Resolving the same package against the same snapshot twice gives the same
/// outcome: both fail with the same error, or both give the same
/// configuration and the same warnings.
pub proof fn lemma_resolution_repeatable(
    metadata: MetadataView,
    package: PackageView,
    no_deps: bool,
    first: Result<Resolution, EjectError>,
    second: Result<Resolution, EjectError>,
)
    requires
        resolves(metadata, package, no_deps, first),
        resolves(metadata, package, no_deps, second),
    ensures
        match (first, second) {
            (Ok(a), Ok(b)) => a@ == b@,
            (Err(a), Err(b)) => a@ == b@,
            _ => false,
        },
{
}

} // verus!
