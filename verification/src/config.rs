//! The project configuration that a resolution produces.

use crate::ordered::{override_entries, root_entries};
use crate::settings::{CrateSettings, CrateSettingsView, Warning, WarningView};
use cairo_lang_utils::ordered_hash_map::OrderedHashMap;
use vstd::prelude::*;

verus! {

/// The settings of all crates of a project: defaults, and the settings of
/// each crate that has its own.
#[derive(Debug, PartialEq, Eq)]
pub struct CratesConfig {
    /// Settings of a crate that `override_map` does not list.
    pub global: CrateSettings,
    /// Settings by crate identifier.
    pub override_map: OrderedHashMap<String, CrateSettings>,
}

/// A project configuration: where each crate's sources are, and how each
/// crate is compiled.
#[derive(Debug, PartialEq, Eq)]
pub struct ProjectConfig {
    /// Source root by crate identifier.
    pub crate_roots: OrderedHashMap<String, String>,
    pub crates_config: CratesConfig,
}

/// Model of a [`ProjectConfig`]: both maps as their entries in order.
pub struct ProjectConfigView {
    pub crate_roots: Seq<(Seq<char>, Seq<char>)>,
    pub global: CrateSettingsView,
    pub override_map: Seq<(Seq<char>, CrateSettingsView)>,
}

impl View for ProjectConfig {
    type V = ProjectConfigView;

    open spec fn view(&self) -> ProjectConfigView {
        ProjectConfigView {
            crate_roots: root_entries(self.crate_roots),
            global: self.crates_config.global@,
            override_map: override_entries(self.crates_config.override_map),
        }
    }
}

/// A project configuration together with the warnings that came up while it
/// was resolved, in the order in which they came up.
#[derive(Debug, PartialEq, Eq)]
pub struct Resolution {
    pub config: ProjectConfig,
    pub warnings: Vec<Warning>,
}

/// Model of a [`Resolution`].
pub struct ResolutionView {
    pub config: ProjectConfigView,
    pub warnings: Seq<WarningView>,
}

impl View for Resolution {
    type V = ResolutionView;

    open spec fn view(&self) -> ResolutionView {
        ResolutionView { config: self.config@, warnings: self.warnings.deep_view() }
    }
}

/// Why a resolution gave no configuration.
#[derive(Clone, Debug, PartialEq, Eq)]
pub enum EjectError {
    /// The snapshot holds no compilation unit of the package.
    NoCompilationUnit { package: String },
}

/// Model of an [`EjectError`].
pub enum EjectErrorView {
    NoCompilationUnit { package: Seq<char> },
}

impl View for EjectError {
    type V = EjectErrorView;

    open spec fn view(&self) -> EjectErrorView {
        match self {
            EjectError::NoCompilationUnit { package } => EjectErrorView::NoCompilationUnit {
                package: package@,
            },
        }
    }
}

/// The text of an error.
pub open spec fn error_text(error: EjectErrorView) -> Seq<char> {
    match error {
        EjectErrorView::NoCompilationUnit { package } =>
            "could not find a compilation unit suitable for ejection for package "@ + package,
    }
}

impl EjectError {
    /// The error as a message for the user.
    pub fn message(&self) -> (text: String)
        ensures
            text@ == error_text(self@),
    {
        match self {
            EjectError::NoCompilationUnit { package } => {
                "could not find a compilation unit suitable for ejection for package ".to_owned().concat(
                    package.as_str(),
                )
            },
        }
    }
}

} // verus!
