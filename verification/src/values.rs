//! Typed values read from the loosely typed fields of the metadata: the
//! edition, the experimental features and the conditional-compilation flags.

use crate::metadata::{Cfg, CfgView, Package, PackageView};
use crate::settings::{CfgEntry, CfgEntryView, CfgSet, Edition, ExperimentalFeatures, Warning, WarningView};
use vstd::prelude::*;

verus! {

/// `serde_json::Value`, a JSON document; it is only handed from one
/// conversion step to the next.
#[verifier::external_type_specification]
#[verifier::external_body]
pub struct ExJsonValue(serde_json::Value);

/// The edition that goes by `name`, if there is one.
pub open spec fn edition_named(name: Seq<char>) -> Option<Edition> {
    if name == "2023_01"@ {
        Some(Edition::V2023_01)
    } else if name == "2023_10"@ {
        Some(Edition::V2023_10)
    } else if name == "2023_11"@ {
        Some(Edition::V2023_11)
    } else if name == "2024_07"@ {
        Some(Edition::V2024_07)
    } else {
        None
    }
}

/// Each edition goes by its own name.
pub proof fn lemma_edition_names()
    ensures
        edition_named("2023_01"@) == Some(Edition::V2023_01),
        edition_named("2023_10"@) == Some(Edition::V2023_10),
        edition_named("2023_11"@) == Some(Edition::V2023_11),
        edition_named("2024_07"@) == Some(Edition::V2024_07),
{
    reveal_strlit("2023_01");
    reveal_strlit("2023_10");
    reveal_strlit("2023_11");
    reveal_strlit("2024_07");
    assert("2023_10"@[5] != "2023_01"@[5]);
    assert("2023_11"@[5] != "2023_01"@[5]);
    assert("2023_11"@[6] != "2023_10"@[6]);
    assert("2024_07"@[3] != "2023_01"@[3]);
    assert("2024_07"@[3] != "2023_10"@[3]);
    assert("2024_07"@[3] != "2023_11"@[3]);
}

/// The edition of a crate whose package declares none, or none that is known.
pub open spec fn fallback_edition() -> Edition {
    Edition::V2023_01
}

/// The edition that a package declares, where it declares a known one.
pub open spec fn declared_edition(package: Option<PackageView>) -> Option<Edition> {
    match package {
        Some(p) => match p.edition {
            Some(name) => edition_named(name),
            None => None,
        },
        None => None,
    }
}

/// The edition of a crate built from `package`.
pub open spec fn package_edition(package: Option<PackageView>) -> Edition {
    match declared_edition(package) {
        Some(edition) => edition,
        None => fallback_edition(),
    }
}

/// The warning that reading the edition of `package` gives: one exactly where
/// the package declares an edition that is not known.
pub open spec fn edition_warning(package: Option<PackageView>, crate_name: Seq<char>) -> Option<
    WarningView,
> {
    match package {
        Some(p) => if p.edition is Some && edition_named(p.edition->0) is None {
            Some(WarningView::UnknownEdition { crate_name })
        } else {
            None
        },
        None => None,
    }
}

/// `serde_json::from_value` at the compiler's `Edition`, on a JSON string that
/// holds `name`: the edition whose serialized name is exactly `name`, and
/// `None` where deserializing fails because no edition has that name.
#[verifier::external_body]
fn parse_edition_name(name: &str) -> (r: Option<Edition>)
    ensures
        r == edition_named(name@),
{
    let json = serde_json::Value::String(name.to_string());
    match serde_json::from_value::<cairo_lang_filesystem::db::Edition>(json) {
        Ok(cairo_lang_filesystem::db::Edition::V2023_01) => Some(Edition::V2023_01),
        Ok(cairo_lang_filesystem::db::Edition::V2023_10) => Some(Edition::V2023_10),
        Ok(cairo_lang_filesystem::db::Edition::V2023_11) => Some(Edition::V2023_11),
        Ok(cairo_lang_filesystem::db::Edition::V2024_07) => Some(Edition::V2024_07),
        Err(_) => None,
    }
}

/// The `Default` of the compiler's `Edition`: its first edition.
#[verifier::external_body]
fn compiler_default_edition() -> (r: Edition)
    ensures
        r == fallback_edition(),
{
    match cairo_lang_filesystem::db::Edition::default() {
        cairo_lang_filesystem::db::Edition::V2023_01 => Edition::V2023_01,
        cairo_lang_filesystem::db::Edition::V2023_10 => Edition::V2023_10,
        cairo_lang_filesystem::db::Edition::V2023_11 => Edition::V2023_11,
        cairo_lang_filesystem::db::Edition::V2024_07 => Edition::V2024_07,
    }
}

/// The edition of the crate `crate_name`, built from `package`: the edition
/// that the package declares, or the fallback where there is no package, it
/// declares none, or what it declares is no known edition. Only the last
/// gives a warning, and none of them fails.
pub fn scarb_package_edition(package: &Option<&Package>, crate_name: &str) -> (r: (
    Edition,
    Option<Warning>,
))
    ensures
        r.0 == package_edition(package.deep_view()),
        r.1.deep_view() == edition_warning(package.deep_view(), crate_name@),
{
    match package {
        Some(p) => match &p.edition {
            Some(name) => match parse_edition_name(name.as_str()) {
                Some(edition) => (edition, None),
                None => (
                    compiler_default_edition(),
                    Some(Warning::UnknownEdition { crate_name: crate_name.to_owned() }),
                ),
            },
            None => (compiler_default_edition(), None),
        },
        None => (compiler_default_edition(), None),
    }
}

/// Whether `features` holds `name`.
pub fn declares_feature(features: &Vec<String>, name: &str) -> (r: bool)
    ensures
        r == features.deep_view().contains(name@),
{
    let wanted: String = name.to_owned();
    let mut i: usize = 0;
    while i < features.len()
        invariant
            i <= features.len(),
            wanted@ == name@,
            forall|j: int| 0 <= j < i ==> features.deep_view()[j] != name@,
        decreases features.len() - i,
    {
        if features[i] == wanted {
            assert(features.deep_view()[i as int] == name@);
            return true;
        }
        i += 1;
    }
    false
}

/// Whether a package is there and names the experimental feature `name`.
pub open spec fn opts_into(package: Option<PackageView>, name: Seq<char>) -> bool {
    match package {
        Some(p) => p.experimental_features.contains(name),
        None => false,
    }
}

/// The experimental features of a crate built from `package`: each known
/// feature is on exactly where the package names it.
pub open spec fn package_features(package: Option<PackageView>) -> ExperimentalFeatures {
    ExperimentalFeatures {
        negative_impls: opts_into(package, "negative_impls"@),
        associated_item_constraints: opts_into(package, "associated_item_constraints"@),
        coupons: opts_into(package, "coupons"@),
    }
}

/// The experimental features of a crate built from `package`. Without a
/// package all are off; names that are no known feature count for nothing.
pub fn scarb_package_experimental_features(package: &Option<&Package>) -> (r: ExperimentalFeatures)
    ensures
        r == package_features(package.deep_view()),
{
    match package {
        Some(p) => ExperimentalFeatures {
            negative_impls: declares_feature(&p.experimental_features, "negative_impls"),
            associated_item_constraints: declares_feature(
                &p.experimental_features,
                "associated_item_constraints",
            ),
            coupons: declares_feature(&p.experimental_features, "coupons"),
        },
        None => ExperimentalFeatures {
            negative_impls: false,
            associated_item_constraints: false,
            coupons: false,
        },
    }
}

/// What `serde_json::to_value` gives for the flags: the JSON value that they
/// serialize to, where they do.
pub uninterp spec fn cfg_json(entries: Seq<CfgView>) -> Option<serde_json::Value>;

/// What `serde_json::from_value` gives for a JSON value, read as the
/// compiler's set of flags: the entries of the set in the set's own order,
/// where the value deserializes.
pub uninterp spec fn cfg_set_of_json(json: serde_json::Value) -> Option<Seq<CfgEntryView>>;

/// The flags in the compiler's form: serialized, then deserialized as the
/// compiler's set. `None` where the two forms do not fit.
pub open spec fn native_cfg(entries: Seq<CfgView>) -> Option<Seq<CfgEntryView>> {
    match cfg_json(entries) {
        Some(json) => cfg_set_of_json(json),
        None => None,
    }
}

/// `serde_json::to_value` on the flags, each as the build tool's own `Cfg`:
/// the JSON value they serialize to, `None` where serializing fails.
#[verifier::external_body]
fn cfg_to_json(entries: &[Cfg]) -> (r: Option<serde_json::Value>)
    ensures
        r == cfg_json(entries.deep_view()),
{
    let raw: Vec<scarb_metadata::Cfg> = entries.iter().map(|entry| match entry {
        Cfg::KV(key, value) => scarb_metadata::Cfg::KV(key.clone(), value.clone()),
        Cfg::Name(name) => scarb_metadata::Cfg::Name(name.clone()),
    }).collect();
    serde_json::to_value(raw).ok()
}

/// `serde_json::from_value` at the compiler's `CfgSet`: the set that the JSON
/// value deserializes to, its entries as the set hands them out, and `None`
/// where deserializing fails.
#[verifier::external_body]
fn cfg_set_from_json(json: serde_json::Value) -> (r: Option<CfgSet>)
    ensures
        r.deep_view() == cfg_set_of_json(json),
{
    let set: cairo_lang_filesystem::cfg::CfgSet = serde_json::from_value(json).ok()?;
    let entries = set.iter().map(|cfg| CfgEntry {
        key: cfg.key.to_string(),
        value: cfg.value.as_ref().map(|value| value.to_string()),
    }).collect();
    Some(CfgSet { entries })
}

/// The warning that converting the flags of `crate_name` gives: one exactly
/// where the conversion gave no set.
pub open spec fn cfg_warning(converted: Option<Seq<CfgEntryView>>, crate_name: Seq<char>) -> Option<
    WarningView,
> {
    match converted {
        Some(_) => None,
        None => Some(WarningView::IncompatibleCfg { crate_name }),
    }
}

/// What a conversion of the flags of `crate_name` comes to: the set where
/// there is one; where there is none, no set and a warning.
pub fn cfg_conversion_outcome(converted: Option<CfgSet>, crate_name: &str) -> (r: (
    Option<CfgSet>,
    Option<Warning>,
))
    ensures
        r.0 == converted,
        r.1.deep_view() == cfg_warning(converted.deep_view(), crate_name@),
{
    match converted {
        Some(set) => (Some(set), None),
        None => (None, Some(Warning::IncompatibleCfg { crate_name: crate_name.to_owned() })),
    }
}

/// The flags in the compiler's form, or `None` where the two forms do not
/// fit: serialized as the build tool has them, deserialized as the compiler
/// reads them.
pub fn native_cfg_set(cfg_set: &[Cfg]) -> (r: Option<CfgSet>)
    ensures
        r.deep_view() == native_cfg(cfg_set.deep_view()),
{
    match cfg_to_json(cfg_set) {
        Some(json) => cfg_set_from_json(json),
        None => None,
    }
}

/// The flags of the crate `crate_name` in the compiler's form. Where the two
/// forms do not fit the crate gets no set, and a warning.
pub fn scarb_cfg_set_to_cairo(cfg_set: &[Cfg], crate_name: &str) -> (r: (
    Option<CfgSet>,
    Option<Warning>,
))
    ensures
        r.0.deep_view() == native_cfg(cfg_set.deep_view()),
        r.1.deep_view() == cfg_warning(native_cfg(cfg_set.deep_view()), crate_name@),
{
    cfg_conversion_outcome(native_cfg_set(cfg_set), crate_name)
}

} // verus!
