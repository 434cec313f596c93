//! The settings a crate is compiled with, and the collections they are made of.

use crate::text::{lemma_lex_total_order, lex_lt, str_lt};
use vstd::prelude::*;

verus! {

/// A language edition.
#[allow(non_camel_case_types)]
#[derive(Clone, Copy, Debug, PartialEq, Eq, Structural)]
pub enum Edition {
    V2023_01,
    V2023_10,
    V2023_11,
    V2024_07,
}

/// Opt-ins to compiler behaviour that is not yet stable; each is off unless
/// the package names it.
#[derive(Clone, Copy, Debug, PartialEq, Eq, Structural)]
pub struct ExperimentalFeatures {
    pub negative_impls: bool,
    pub associated_item_constraints: bool,
    pub coupons: bool,
}

/// What a crate records about one of its dependencies.
#[derive(Debug, PartialEq, Eq)]
pub struct DependencySettings {
    /// String that tells this copy of the dependency from others of its name.
    pub discriminator: Option<String>,
}

/// Model of [`DependencySettings`].
pub struct DependencySettingsView {
    pub discriminator: Option<Seq<char>>,
}

impl DeepView for DependencySettings {
    type V = DependencySettingsView;

    open spec fn deep_view(&self) -> DependencySettingsView {
        DependencySettingsView { discriminator: self.discriminator.deep_view() }
    }
}

impl View for DependencySettings {
    type V = DependencySettingsView;

    open spec fn view(&self) -> DependencySettingsView {
        self.deep_view()
    }
}

impl Clone for DependencySettings {
    fn clone(&self) -> (copy: Self)
        ensures
            copy == *self,
    {
        DependencySettings {
            discriminator: match &self.discriminator {
                Some(text) => Some(text.clone()),
                None => None,
            },
        }
    }
}

/// One entry of a [`DependencyMap`].
#[derive(Debug, PartialEq, Eq)]
pub struct Dependency {
    pub name: String,
    pub settings: DependencySettings,
}

impl Clone for Dependency {
    fn clone(&self) -> (copy: Self)
        ensures
            copy == *self,
    {
        Dependency { name: self.name.clone(), settings: self.settings.clone() }
    }
}

/// Whether `entries[i]` exists and is the entry for `name`.
pub open spec fn names_entry(entries: Seq<Dependency>, name: Seq<char>, i: int) -> bool {
    0 <= i < entries.len() && entries[i].name@ == name
}

/// Whether the entries stand in strictly ascending order of their names.
pub open spec fn ascending(entries: Seq<Dependency>) -> bool {
    forall|i: int, j: int|
        0 <= i < j < entries.len() ==> lex_lt(#[trigger] entries[i].name@, #[trigger] entries[j].name@)
}

/// The map from names to settings that the entries stand for.
pub open spec fn entries_map(entries: Seq<Dependency>) -> Map<Seq<char>, DependencySettingsView> {
    Map::new(
        |name: Seq<char>| exists|i: int| names_entry(entries, name, i),
        |name: Seq<char>| entries[choose|i: int| names_entry(entries, name, i)].settings@,
    )
}

/// In ascending entries a name picks at most one entry.
pub proof fn lemma_ascending_distinct(entries: Seq<Dependency>, name: Seq<char>, i: int, j: int)
    requires
        ascending(entries),
        names_entry(entries, name, i),
        names_entry(entries, name, j),
    ensures
        i == j,
{
    lemma_lex_total_order(name, name, name);
}

/// In ascending entries, the map holds each entry under its own name.
pub proof fn lemma_entries_map_at(entries: Seq<Dependency>, i: int)
    requires
        ascending(entries),
        0 <= i < entries.len(),
    ensures
        entries_map(entries).dom().contains(entries[i].name@),
        entries_map(entries)[entries[i].name@] == entries[i].settings@,
{
    let name = entries[i].name@;
    assert(names_entry(entries, name, i));
    let j = choose|j: int| names_entry(entries, name, j);
    lemma_ascending_distinct(entries, name, i, j);
}

/// The dependencies of a crate: at most one entry per name, kept in ascending
/// order of the names.
#[derive(Debug, PartialEq, Eq)]
pub struct DependencyMap {
    entries: Vec<Dependency>,
}

impl Clone for DependencyMap {
    fn clone(&self) -> (copy: Self)
        ensures
            copy@ == self@,
    {
        proof {
            use_type_invariant(self);
        }
        let mut entries: Vec<Dependency> = Vec::new();
        let mut i: usize = 0;
        while i < self.entries.len()
            invariant
                i <= self.entries.len(),
                entries@ == self.entries@.take(i as int),
            decreases self.entries.len() - i,
        {
            entries.push(self.entries[i].clone());
            assert(entries@ =~= self.entries@.take(i + 1));
            i += 1;
        }
        assert(entries@ =~= self.entries@);
        DependencyMap { entries }
    }
}

impl View for DependencyMap {
    type V = Map<Seq<char>, DependencySettingsView>;

    closed spec fn view(&self) -> Map<Seq<char>, DependencySettingsView> {
        entries_map(self.entries@)
    }
}

impl DependencyMap {
    /// The invariant of the type: the entries ascend strictly by name.
    #[verifier::type_invariant]
    spec fn ordered(self) -> bool {
        ascending(self.entries@)
    }

    /// A map without entries.
    pub fn new() -> (map: DependencyMap)
        ensures
            map@ == Map::<Seq<char>, DependencySettingsView>::empty(),
    {
        let map = DependencyMap { entries: Vec::new() };
        assert(map@ =~= Map::<Seq<char>, DependencySettingsView>::empty());
        map
    }

    /// The entries of the map, in ascending order of their names.
    pub fn entries(&self) -> (entries: &Vec<Dependency>)
        ensures
            ascending(entries@),
            entries_map(entries@) == self@,
    {
        proof {
            use_type_invariant(self);
        }
        &self.entries
    }

    /// Records `settings` under `name`, in place of what the map held under
    /// that name, if anything.
    pub fn insert(&mut self, name: String, settings: DependencySettings)
        ensures
            final(self)@ == old(self)@.insert(name@, settings@),
    {
        proof {
            use_type_invariant(&*self);
        }
        let mut entries: Vec<Dependency> = Vec::new();
        std::mem::swap(&mut entries, &mut self.entries);
        let ghost before = entries@;
        let n: usize = entries.len();
        let mut at: usize = 0;
        while at < n && str_lt(entries[at].name.as_str(), name.as_str())
            invariant
                n == entries@.len(),
                entries@ == before,
                at <= n,
                forall|j: int| 0 <= j < at ==> lex_lt(#[trigger] before[j].name@, name@),
            decreases n - at,
        {
            at += 1;
        }
        let replace: bool = at < n && entries[at].name == name;
        let ghost key = name@;
        let ghost value = settings@;
        let entry = Dependency { name, settings };
        if replace {
            entries.set(at, entry);
        } else {
            entries.insert(at, entry);
        }
        proof {
            let after = entries@;
            let shift = if replace { 1int } else { 0int };
            assert(after.len() == before.len() + 1 - shift);
            assert(after[at as int] == entry);
            assert(forall|j: int| 0 <= j < at ==> after[j] == before[j]);
            assert(forall|j: int| at < j < after.len() ==> after[j] == before[j - 1 + shift]);
            assert forall|j: int| at + shift <= j < before.len() implies lex_lt(
                key,
                #[trigger] before[j].name@,
            ) by {
                lemma_lex_total_order(before[at as int].name@, key, before[j].name@);
                lemma_lex_total_order(key, before[at as int].name@, before[j].name@);
            }
            assert(ascending(after)) by {
                assert forall|i: int, j: int| 0 <= i < j < after.len() implies lex_lt(
                    #[trigger] after[i].name@,
                    #[trigger] after[j].name@,
                ) by {
                    if i < at && j > at {
                        assert(lex_lt(before[i].name@, before[j - 1 + shift].name@));
                    }
                }
            }
            let target = entries_map(before).insert(key, value);
            assert forall|k: Seq<char>| #[trigger]
                entries_map(after).dom().contains(k) <==> target.dom().contains(k) by {
                if entries_map(after).dom().contains(k) {
                    let j = choose|j: int| names_entry(after, k, j);
                    if j < at {
                        assert(names_entry(before, k, j));
                    } else if j > at {
                        assert(names_entry(before, k, j - 1 + shift));
                    }
                }
                if entries_map(before).dom().contains(k) && k != key {
                    let j = choose|j: int| names_entry(before, k, j);
                    if j < at {
                        assert(names_entry(after, k, j));
                    } else {
                        assert(names_entry(after, k, j + 1 - shift));
                    }
                }
                if k == key {
                    assert(names_entry(after, k, at as int));
                }
            }
            assert forall|k: Seq<char>| #[trigger]
                entries_map(after).dom().contains(k) implies entries_map(after)[k] == target[k] by {
                let j = choose|j: int| names_entry(after, k, j);
                lemma_entries_map_at(after, j);
                lemma_lex_total_order(key, key, key);
                if j < at {
                    lemma_entries_map_at(before, j);
                } else if j > at {
                    lemma_entries_map_at(before, j - 1 + shift);
                }
            }
            assert(entries_map(after) =~= target);
        }
        self.entries = entries;
    }
}

/// One conditional-compilation flag in the compiler's form: a key, and a
/// value where the flag has one.
#[derive(Clone, Debug, PartialEq, Eq)]
pub struct CfgEntry {
    pub key: String,
    pub value: Option<String>,
}

/// Model of a [`CfgEntry`].
pub struct CfgEntryView {
    pub key: Seq<char>,
    pub value: Option<Seq<char>>,
}

impl DeepView for CfgEntry {
    type V = CfgEntryView;

    open spec fn deep_view(&self) -> CfgEntryView {
        CfgEntryView { key: self.key@, value: self.value.deep_view() }
    }
}

impl View for CfgEntry {
    type V = CfgEntryView;

    open spec fn view(&self) -> CfgEntryView {
        self.deep_view()
    }
}

/// The conditional-compilation flags of a crate in the compiler's form, in
/// the order in which the compiler's own set holds them.
#[derive(Clone, Debug, PartialEq, Eq)]
pub struct CfgSet {
    pub entries: Vec<CfgEntry>,
}

impl DeepView for CfgSet {
    type V = Seq<CfgEntryView>;

    open spec fn deep_view(&self) -> Seq<CfgEntryView> {
        self.entries.deep_view()
    }
}

impl View for CfgSet {
    type V = Seq<CfgEntryView>;

    open spec fn view(&self) -> Seq<CfgEntryView> {
        self.deep_view()
    }
}

/// The settings of one crate, or the defaults for crates without settings of
/// their own.
#[derive(Clone, Debug, PartialEq, Eq)]
pub struct CrateSettings {
    /// Name under which code refers to the crate; `None` in the defaults.
    pub name: Option<String>,
    pub edition: Edition,
    /// Semantic version of the package behind the crate, where it is known.
    pub version: Option<String>,
    pub cfg_set: Option<CfgSet>,
    pub dependencies: DependencyMap,
    pub experimental_features: ExperimentalFeatures,
}

/// Model of [`CrateSettings`].
pub struct CrateSettingsView {
    pub name: Option<Seq<char>>,
    pub edition: Edition,
    pub version: Option<Seq<char>>,
    pub cfg_set: Option<Seq<CfgEntryView>>,
    pub dependencies: Map<Seq<char>, DependencySettingsView>,
    pub experimental_features: ExperimentalFeatures,
}

impl View for CrateSettings {
    type V = CrateSettingsView;

    open spec fn view(&self) -> CrateSettingsView {
        CrateSettingsView {
            name: self.name.deep_view(),
            edition: self.edition,
            version: self.version.deep_view(),
            cfg_set: self.cfg_set.deep_view(),
            dependencies: self.dependencies@,
            experimental_features: self.experimental_features,
        }
    }
}

/// Something that went wrong without stopping a resolution: the value in
/// question was replaced by its fallback.
#[derive(Clone, Debug, PartialEq, Eq)]
pub enum Warning {
    /// The edition that the package behind the crate declares is not a known
    /// edition; the default edition was taken.
    UnknownEdition { crate_name: String },
    /// The flags of the crate have no counterpart in the compiler's form; the
    /// crate was left without flags.
    IncompatibleCfg { crate_name: String },
}

/// Model of a [`Warning`].
pub enum WarningView {
    UnknownEdition { crate_name: Seq<char> },
    IncompatibleCfg { crate_name: Seq<char> },
}

impl DeepView for Warning {
    type V = WarningView;

    open spec fn deep_view(&self) -> WarningView {
        match self {
            Warning::UnknownEdition { crate_name } => WarningView::UnknownEdition {
                crate_name: crate_name@,
            },
            Warning::IncompatibleCfg { crate_name } => WarningView::IncompatibleCfg {
                crate_name: crate_name@,
            },
        }
    }
}

impl View for Warning {
    type V = WarningView;

    open spec fn view(&self) -> WarningView {
        self.deep_view()
    }
}

/// The text of a warning.
pub open spec fn warning_text(warning: WarningView) -> Seq<char> {
    match warning {
        WarningView::UnknownEdition { crate_name } => "failed to parse edition of package: "@
            + crate_name,
        WarningView::IncompatibleCfg { crate_name } =>
            "scarb metadata cfg did not convert identically to cairo one for crate: "@ + crate_name,
    }
}

impl Warning {
    /// The warning as a line of text for a log.
    pub fn message(&self) -> (text: String)
        ensures
            text@ == warning_text(self@),
    {
        match self {
            Warning::UnknownEdition { crate_name } => {
                "failed to parse edition of package: ".to_owned().concat(crate_name.as_str())
            },
            Warning::IncompatibleCfg { crate_name } => {
                "scarb metadata cfg did not convert identically to cairo one for crate: ".to_owned().concat(
                    crate_name.as_str(),
                )
            },
        }
    }
}

} // verus!
