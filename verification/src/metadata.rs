//! The workspace metadata that a resolution reads: packages, compilation
//! units and their components, held as plain values.

use vstd::prelude::*;

verus! {

/// One conditional-compilation flag as the build tool reports it.
#[derive(Clone, Debug, PartialEq, Eq)]
pub enum Cfg {
    /// A flag with a key and a value.
    KV(String, String),
    /// A flag that is only a name.
    Name(String),
}

/// Model of a [`Cfg`].
pub enum CfgView {
    KV(Seq<char>, Seq<char>),
    Name(Seq<char>),
}

impl DeepView for Cfg {
    type V = CfgView;

    open spec fn deep_view(&self) -> CfgView {
        match self {
            Cfg::KV(k, v) => CfgView::KV(k@, v@),
            Cfg::Name(n) => CfgView::Name(n@),
        }
    }
}

impl View for Cfg {
    type V = CfgView;

    open spec fn view(&self) -> CfgView {
        self.deep_view()
    }
}

/// A package of the workspace.
#[derive(Clone, Debug, PartialEq, Eq)]
pub struct Package {
    /// Identifier by which units and components refer to the package.
    pub id: String,
    pub name: String,
    /// Semantic version, in its textual form.
    pub version: String,
    /// Declared edition, if any, as written in the manifest.
    pub edition: Option<String>,
    /// Names of the experimental features the package opts into.
    pub experimental_features: Vec<String>,
}

/// Model of a [`Package`].
pub struct PackageView {
    pub id: Seq<char>,
    pub name: Seq<char>,
    pub version: Seq<char>,
    pub edition: Option<Seq<char>>,
    pub experimental_features: Seq<Seq<char>>,
}

impl DeepView for Package {
    type V = PackageView;

    open spec fn deep_view(&self) -> PackageView {
        PackageView {
            id: self.id@,
            name: self.name@,
            version: self.version@,
            edition: self.edition.deep_view(),
            experimental_features: self.experimental_features.deep_view(),
        }
    }
}

impl View for Package {
    type V = PackageView;

    open spec fn view(&self) -> PackageView {
        self.deep_view()
    }
}

/// A component of a compilation unit: one crate with its source root.
#[derive(Clone, Debug, PartialEq, Eq)]
pub struct Component {
    /// Identifier of the package the component was built from.
    pub package: String,
    /// Name under which the component is exposed as a crate.
    pub name: String,
    /// Directory that holds the component's sources.
    pub source_root: String,
    /// The component's own conditional-compilation flags, if it declares any.
    pub cfg: Option<Vec<Cfg>>,
    /// Identifier that dependency references of sibling components point at.
    pub id: Option<String>,
    /// Stable string that tells copies of one crate apart.
    pub discriminator: Option<String>,
    /// Identifiers of the components this one depends on.
    pub dependencies: Option<Vec<String>>,
}

/// Model of a [`Component`].
pub struct ComponentView {
    pub package: Seq<char>,
    pub name: Seq<char>,
    pub source_root: Seq<char>,
    pub cfg: Option<Seq<CfgView>>,
    pub id: Option<Seq<char>>,
    pub discriminator: Option<Seq<char>>,
    pub dependencies: Option<Seq<Seq<char>>>,
}

impl DeepView for Component {
    type V = ComponentView;

    open spec fn deep_view(&self) -> ComponentView {
        ComponentView {
            package: self.package@,
            name: self.name@,
            source_root: self.source_root@,
            cfg: self.cfg.deep_view(),
            id: self.id.deep_view(),
            discriminator: self.discriminator.deep_view(),
            dependencies: self.dependencies.deep_view(),
        }
    }
}

impl View for Component {
    type V = ComponentView;

    open spec fn view(&self) -> ComponentView {
        self.deep_view()
    }
}

/// A buildable target of one package, with the components it is compiled from.
#[derive(Clone, Debug, PartialEq, Eq)]
pub struct CompilationUnit {
    /// Identifier of the package that owns the unit.
    pub package: String,
    /// Kind of the unit's target, such as `lib` or `starknet-contract`.
    pub target_kind: String,
    pub components: Vec<Component>,
    /// Conditional-compilation flags of the unit as a whole.
    pub cfg: Vec<Cfg>,
}

/// Model of a [`CompilationUnit`].
pub struct CompilationUnitView {
    pub package: Seq<char>,
    pub target_kind: Seq<char>,
    pub components: Seq<ComponentView>,
    pub cfg: Seq<CfgView>,
}

impl DeepView for CompilationUnit {
    type V = CompilationUnitView;

    open spec fn deep_view(&self) -> CompilationUnitView {
        CompilationUnitView {
            package: self.package@,
            target_kind: self.target_kind@,
            components: self.components.deep_view(),
            cfg: self.cfg.deep_view(),
        }
    }
}

impl View for CompilationUnit {
    type V = CompilationUnitView;

    open spec fn view(&self) -> CompilationUnitView {
        self.deep_view()
    }
}

/// A snapshot of a workspace, read once and never changed by a resolution.
#[derive(Clone, Debug, PartialEq, Eq)]
pub struct Metadata {
    /// Root directory of the workspace.
    pub workspace_root: String,
    pub packages: Vec<Package>,
    pub compilation_units: Vec<CompilationUnit>,
}

/// Model of a [`Metadata`] snapshot.
pub struct MetadataView {
    pub workspace_root: Seq<char>,
    pub packages: Seq<PackageView>,
    pub compilation_units: Seq<CompilationUnitView>,
}

impl DeepView for Metadata {
    type V = MetadataView;

    open spec fn deep_view(&self) -> MetadataView {
        MetadataView {
            workspace_root: self.workspace_root@,
            packages: self.packages.deep_view(),
            compilation_units: self.compilation_units.deep_view(),
        }
    }
}

impl View for Metadata {
    type V = MetadataView;

    open spec fn view(&self) -> MetadataView {
        self.deep_view()
    }
}

} // verus!
