//! Choice of the compilation unit that stands for a package.

use crate::metadata::{CompilationUnit, CompilationUnitView};
use crate::text::{lemma_lex_total_order, lex_lt, str_lt};
use vstd::prelude::*;

verus! {

/// Target kind of a contract build, the most preferred one.
pub open spec fn contract_kind() -> Seq<char> {
    "starknet-contract"@
}

/// Target kind of a library build, preferred over all but contract builds.
pub open spec fn library_kind() -> Seq<char> {
    "lib"@
}

/// Preference rank of a target kind: lower is preferred.
pub open spec fn kind_rank(kind: Seq<char>) -> nat {
    if kind == contract_kind() {
        0
    } else if kind == library_kind() {
        1
    } else {
        2
    }
}

/// Whether a unit of kind `a` is strictly preferred over one of kind `b`:
/// by rank first, then by the kinds' lexicographic order.
pub open spec fn kind_before(a: Seq<char>, b: Seq<char>) -> bool {
    kind_rank(a) < kind_rank(b) || (kind_rank(a) == kind_rank(b) && lex_lt(a, b))
}

/// Whether `units[j]` exists and belongs to `package`.
pub open spec fn unit_matches(units: Seq<CompilationUnitView>, package: Seq<char>, j: int) -> bool {
    0 <= j < units.len() && units[j].package == package
}

/// Whether `units[i]` is the unit chosen for `package`: it belongs to the
/// package, no unit of the package is strictly preferred over it, and it is
/// strictly preferred over every unit of the package that comes before it.
pub open spec fn is_selected(units: Seq<CompilationUnitView>, package: Seq<char>, i: int) -> bool {
    &&& unit_matches(units, package, i)
    &&& forall|j: int| #[trigger]
        unit_matches(units, package, j) ==> !kind_before(units[j].target_kind, units[i].target_kind)
    &&& forall|j: int| #[trigger]
        unit_matches(units, package, j) && j < i ==> kind_before(
            units[i].target_kind,
            units[j].target_kind,
        )
}

/// Contract builds rank first and library builds second.
pub proof fn lemma_kind_ranks()
    ensures
        kind_rank(contract_kind()) == 0,
        kind_rank(library_kind()) == 1,
{
    reveal_strlit("starknet-contract");
    reveal_strlit("lib");
    assert(contract_kind().len() != library_kind().len());
}

/// `kind_before` is a strict total order on target kinds.
pub proof fn lemma_kind_order(a: Seq<char>, b: Seq<char>, c: Seq<char>)
    ensures
        !kind_before(a, a),
        kind_before(a, b) && kind_before(b, c) ==> kind_before(a, c),
        kind_before(a, b) || a == b || kind_before(b, a),
        !(kind_before(a, b) && kind_before(b, a)),
{
    lemma_lex_total_order(a, b, c);
}

/// At most one unit is the chosen one.
pub proof fn lemma_selected_unique(
    units: Seq<CompilationUnitView>,
    package: Seq<char>,
    i: int,
    k: int,
)
    requires
        is_selected(units, package, i),
        is_selected(units, package, k),
    ensures
        i == k,
{
    lemma_kind_order(units[i].target_kind, units[k].target_kind, units[i].target_kind);
    if i < k {
        assert(unit_matches(units, package, i));
    } else if k < i {
        assert(unit_matches(units, package, k));
    }
}

/// Where a package has a contract unit, the chosen unit is a contract unit,
/// wherever the contract unit stands among the others.
pub proof fn lemma_contract_unit_wins(
    units: Seq<CompilationUnitView>,
    package: Seq<char>,
    i: int,
    c: int,
)
    requires
        is_selected(units, package, i),
        unit_matches(units, package, c),
        units[c].target_kind == contract_kind(),
    ensures
        units[i].target_kind == contract_kind(),
{
    let chosen = units[i].target_kind;
    lemma_kind_order(chosen, contract_kind(), chosen);
    lemma_lex_total_order(chosen, contract_kind(), chosen);
}

/// Of a contract unit and a library unit of one package, the contract unit is
/// chosen, in whichever order the two are given.
pub proof fn lemma_contract_over_library(
    contract: CompilationUnitView,
    library: CompilationUnitView,
    package: Seq<char>,
)
    requires
        contract.package == package,
        library.package == package,
        contract.target_kind == contract_kind(),
        library.target_kind == library_kind(),
    ensures
        is_selected(seq![library, contract], package, 1),
        is_selected(seq![contract, library], package, 0),
{
    lemma_kind_ranks();
    lemma_kind_order(contract_kind(), library_kind(), contract_kind());
    lemma_kind_order(library_kind(), library_kind(), contract_kind());
}

/// Preference rank of a target kind.
fn target_rank(kind: &String) -> (r: u8)
    ensures
        r as nat == kind_rank(kind@),
{
    if *kind == "starknet-contract".to_owned() {
        0
    } else if *kind == "lib".to_owned() {
        1
    } else {
        2
    }
}

/// Whether a unit of kind `a` is strictly preferred over one of kind `b`.
pub fn preferred_over(a: &String, b: &String) -> (r: bool)
    ensures
        r == kind_before(a@, b@),
{
    let ra: u8 = target_rank(a);
    let rb: u8 = target_rank(b);
    ra < rb || (ra == rb && str_lt(a.as_str(), b.as_str()))
}

/// Picks the compilation unit that stands for `package`: among the units the
/// package owns, the most preferred one, and of equally preferred ones the first.
/// Returns its position, or `None` where the package owns no unit.
pub fn select_compilation_unit(units: &Vec<CompilationUnit>, package: &String) -> (r: Option<usize>)
    ensures
        match r {
            Some(i) => is_selected(units.deep_view(), package@, i as int),
            None => forall|j: int| !unit_matches(units.deep_view(), package@, j),
        },
{
    let ghost all = units.deep_view();
    let mut best: Option<usize> = None;
    let mut i: usize = 0;
    while i < units.len()
        invariant
            i <= units.len(),
            all == units.deep_view(),
            match best {
                Some(b) => b < i && is_selected(all.take(i as int), package@, b as int),
                None => forall|j: int| !unit_matches(all.take(i as int), package@, j),
            },
        decreases units.len() - i,
    {
        let ghost before = all.take(i as int);
        let ghost after = all.take(i + 1);
        assert(forall|j: int| 0 <= j < i ==> after[j] == before[j]);
        assert(after[i as int] == all[i as int]);
        assert(forall|j: int|
            unit_matches(after, package@, j) ==> j == i || unit_matches(before, package@, j));
        if units[i].package == *package {
            match best {
                None => {
                    proof {
                        let kind = all[i as int].target_kind;
                        lemma_kind_order(kind, kind, kind);
                    }
                    best = Some(i);
                },
                Some(b) => {
                    if preferred_over(&units[i].target_kind, &units[b].target_kind) {
                        proof {
                            let ki = all[i as int].target_kind;
                            let kb = all[b as int].target_kind;
                            assert(unit_matches(before, package@, b as int));
                            assert(before[b as int] == all[b as int]);
                            assert forall|j: int| #[trigger]
                                unit_matches(after, package@, j) implies !kind_before(
                                after[j].target_kind,
                                ki,
                            ) && (j < i ==> kind_before(ki, after[j].target_kind)) by {
                                let kj = after[j].target_kind;
                                lemma_kind_order(kj, ki, kb);
                                lemma_kind_order(ki, kj, kb);
                                if j < i {
                                    assert(unit_matches(before, package@, j));
                                }
                            }
                        }
                        best = Some(i);
                    } else {
                        proof {
                            assert(unit_matches(before, package@, b as int));
                        }
                    }
                },
            }
        }
        i += 1;
    }
    proof {
        assert(all.take(i as int) =~= all);
    }
    best
}

} // verus!
