use vstd::prelude::*;

use crate::options::ExportError;
use crate::unit::{transition, Signal, UnitAction, UnitState};
use crate::workspace::{first_failure, library_indices, library_prefix, Package, PackageKind};

verus! {

/// The signal that a state receives when checking passes or not (`checked`),
/// discovery finds `count` entry points, and entry point `i` compiles under the
/// warnings policy exactly when `compiled[i]`.
pub open spec fn response(s: UnitState, checked: bool, count: usize, compiled: Seq<bool>) -> Signal {
    match s {
        UnitState::Checking => Signal::Checked { passed: checked },
        UnitState::Discovering => Signal::Discovered { count },
        UnitState::Compiling { entry, .. } => Signal::Compiled { passed: compiled[entry as int] },
        _ => Signal::Written,
    }
}

/// A bound on the number of actions still to come from a state.
pub open spec fn steps_left(s: UnitState, count: usize) -> nat {
    match s {
        UnitState::Checking => (2 * count + 2) as nat,
        UnitState::Discovering => (2 * count + 1) as nat,
        UnitState::Compiling { entry, total } => if entry < total {
            (2 * (total - entry)) as nat
        } else {
            0
        },
        UnitState::Writing { entry, total } => if entry < total {
            (2 * (total - entry) - 1) as nat
        } else {
            0
        },
        _ => 0,
    }
}

/// The actions that a unit asks for, from state `s` on, when each is answered
/// as `response` says.
pub open spec fn trace(s: UnitState, checked: bool, count: usize, compiled: Seq<bool>) -> Seq<UnitAction>
    decreases steps_left(s, count),
{
    if steps_left(s, count) == 0 {
        Seq::empty()
    } else {
        let (next, action) = transition(s, response(s, checked, count, compiled));
        seq![action] + trace(next, checked, count, compiled)
    }
}

/// The actions of a whole package run, after the initial `Check`.
pub open spec fn package_trace(checked: bool, count: usize, compiled: Seq<bool>) -> Seq<UnitAction> {
    trace(UnitState::Checking, checked, count, compiled)
}

/// The result of a whole package run: the error of its final action, if any.
pub open spec fn package_result(checked: bool, count: usize, compiled: Seq<bool>) -> Result<(), ExportError> {
    match package_trace(checked, count, compiled).last() {
        UnitAction::Fail { error } => Err(error),
        _ => Ok(()),
    }
}

proof fn lemma_contains_cons(a: UnitAction, t: Seq<UnitAction>, x: UnitAction)
    ensures
        (seq![a] + t).contains(x) <==> (x == a || t.contains(x)),
        t.len() > 0 ==> (seq![a] + t).last() == t.last(),
{
    let u = seq![a] + t;
    if u.contains(x) {
        let i = choose|i: int| 0 <= i < u.len() && u[i] == x;
        if i >= 1 {
            assert(t[i - 1] == x);
        }
    }
    if t.contains(x) {
        let i = choose|i: int| 0 <= i < t.len() && t[i] == x;
        assert(u[i + 1] == x);
    }
    if x == a {
        assert(u[0] == x);
    }
}

/// From entry point `e` on, with `k` the first entry point that fails (or
/// `count` if none does): the entry points `e..k` are written, those after `e`
/// up to `k` are compiled, and the run ends with `k`'s failure or with success.
proof fn lemma_compiling(e: usize, count: usize, compiled: Seq<bool>, k: int)
    requires
        compiled.len() == count,
        e <= k <= count,
        e < count,
        forall|j: int| e <= j < k ==> compiled[j],
        k < count ==> !compiled[k],
    ensures
        ({
            let t = trace(UnitState::Compiling { entry: e, total: count }, true, count, compiled);
            &&& t.len() > 0
            &&& forall|j: usize| t.contains(UnitAction::Write { entry: j }) <==> e <= j < k
            &&& forall|j: usize|
                t.contains(UnitAction::Compile { entry: j }) <==> e < j && j <= k && j < count
            &&& t.last() == if k < count {
                UnitAction::Fail { error: ExportError::CompileFailed { entry: k as usize } }
            } else {
                UnitAction::Succeed
            }
        }),
    decreases count - e,
{
    let s = UnitState::Compiling { entry: e, total: count };
    let t = trace(s, true, count, compiled);
    if e == k {
        let fail = UnitAction::Fail { error: ExportError::CompileFailed { entry: e } };
        let rest = trace(UnitState::Failed { error: ExportError::CompileFailed { entry: e } }, true, count, compiled);
        assert(rest =~= Seq::<UnitAction>::empty());
        assert(t =~= seq![fail]);
        assert forall|j: usize| !t.contains(UnitAction::Write { entry: j }) by {
            lemma_contains_cons(fail, rest, UnitAction::Write { entry: j });
        }
        assert forall|j: usize| !t.contains(UnitAction::Compile { entry: j }) by {
            lemma_contains_cons(fail, rest, UnitAction::Compile { entry: j });
        }
    } else {
        let w = trace(UnitState::Writing { entry: e, total: count }, true, count, compiled);
        assert(t == seq![UnitAction::Write { entry: e }] + w);
        if e + 1 < count {
            let e1 = (e + 1) as usize;
            let c = UnitAction::Compile { entry: e1 };
            let rest = trace(UnitState::Compiling { entry: e1, total: count }, true, count, compiled);
            assert(w == seq![c] + rest);
            lemma_compiling(e1, count, compiled, k);
            assert forall|j: usize| t.contains(UnitAction::Write { entry: j }) <==> e <= j < k by {
                lemma_contains_cons(c, rest, UnitAction::Write { entry: j });
                lemma_contains_cons(UnitAction::Write { entry: e }, w, UnitAction::Write { entry: j });
            }
            assert forall|j: usize|
                t.contains(UnitAction::Compile { entry: j }) <==> e < j && j <= k && j < count by {
                lemma_contains_cons(c, rest, UnitAction::Compile { entry: j });
                lemma_contains_cons(UnitAction::Write { entry: e }, w, UnitAction::Compile { entry: j });
            }
            lemma_contains_cons(c, rest, c);
            lemma_contains_cons(UnitAction::Write { entry: e }, w, c);
        } else {
            let rest = trace(UnitState::Succeeded, true, count, compiled);
            assert(rest =~= Seq::<UnitAction>::empty());
            assert(w =~= seq![UnitAction::Succeed]);
            assert forall|j: usize| t.contains(UnitAction::Write { entry: j }) <==> e <= j < k by {
                lemma_contains_cons(UnitAction::Succeed, rest, UnitAction::Write { entry: j });
                lemma_contains_cons(UnitAction::Write { entry: e }, w, UnitAction::Write { entry: j });
            }
            assert forall|j: usize|
                t.contains(UnitAction::Compile { entry: j }) <==> e < j && j <= k && j < count by {
                lemma_contains_cons(UnitAction::Succeed, rest, UnitAction::Compile { entry: j });
                lemma_contains_cons(UnitAction::Write { entry: e }, w, UnitAction::Compile { entry: j });
            }
            lemma_contains_cons(UnitAction::Write { entry: e }, w, UnitAction::Succeed);
        }
    }
}

proof fn lemma_checked_start(count: usize, compiled: Seq<bool>)
    requires
        count > 0,
    ensures
        package_trace(true, count, compiled) == seq![UnitAction::Discover]
            + (seq![UnitAction::Compile { entry: 0 }]
            + trace(UnitState::Compiling { entry: 0, total: count }, true, count, compiled)),
{
    let d = trace(UnitState::Discovering, true, count, compiled);
    assert(d == seq![UnitAction::Compile { entry: 0 }]
        + trace(UnitState::Compiling { entry: 0, total: count }, true, count, compiled));
}

/// Within a package, compilation stops at the first entry point that fails:
/// every entry point before it is compiled and written, the failing one is
/// compiled and not written, none after it is attempted, and the package fails
/// with the failing entry point's error.
pub proof fn lemma_fail_fast(count: usize, compiled: Seq<bool>, k: int)
    requires
        compiled.len() == count,
        0 <= k < count,
        forall|j: int| 0 <= j < k ==> compiled[j],
        !compiled[k],
    ensures
        forall|j: usize|
            package_trace(true, count, compiled).contains(UnitAction::Write { entry: j }) <==> j < k,
        forall|j: usize|
            package_trace(true, count, compiled).contains(UnitAction::Compile { entry: j }) <==> j <= k,
        package_result(true, count, compiled) == Err::<(), ExportError>(
            ExportError::CompileFailed { entry: k as usize },
        ),
{
    lemma_compiling_from_start(count, compiled, k);
}

proof fn lemma_compiling_from_start(count: usize, compiled: Seq<bool>, k: int)
    requires
        compiled.len() == count,
        0 <= k <= count,
        0 < count,
        forall|j: int| 0 <= j < k ==> compiled[j],
        k < count ==> !compiled[k],
    ensures
        forall|j: usize|
            package_trace(true, count, compiled).contains(UnitAction::Write { entry: j }) <==> j < k,
        forall|j: usize|
            package_trace(true, count, compiled).contains(UnitAction::Compile { entry: j }) <==> j <= k
                && j < count,
        package_trace(true, count, compiled).last() == if k < count {
            UnitAction::Fail { error: ExportError::CompileFailed { entry: k as usize } }
        } else {
            UnitAction::Succeed
        },
{
    lemma_checked_start(count, compiled);
    lemma_compiling(0, count, compiled, k);
    let c0 = UnitAction::Compile { entry: 0 };
    let rest = trace(UnitState::Compiling { entry: 0, total: count }, true, count, compiled);
    let after = seq![c0] + rest;
    assert forall|x: UnitAction| #[trigger]
        package_trace(true, count, compiled).contains(x) <==> (x == UnitAction::Discover || x == c0
            || rest.contains(x)) by {
        lemma_contains_cons(c0, rest, x);
        lemma_contains_cons(UnitAction::Discover, after, x);
    }
    lemma_contains_cons(c0, rest, c0);
    lemma_contains_cons(UnitAction::Discover, after, c0);
}

/// A package whose checking fails compiles and writes nothing and fails with
/// the checking error.
pub proof fn lemma_check_failure_stops_package(count: usize, compiled: Seq<bool>)
    ensures
        package_trace(false, count, compiled) == seq![
            UnitAction::Fail { error: ExportError::CheckFailed },
        ],
        package_result(false, count, compiled) == Err::<(), ExportError>(ExportError::CheckFailed),
{
    let rest = trace(UnitState::Failed { error: ExportError::CheckFailed }, false, count, compiled);
    assert(rest =~= Seq::<UnitAction>::empty());
    assert(package_trace(false, count, compiled) =~= seq![
        UnitAction::Fail { error: ExportError::CheckFailed },
    ]);
}

/// Packages do not interfere: next to a package that fails, a package whose
/// entry points all compile still has every artifact written and succeeds, and
/// the run as a whole fails, in whichever order the two results come.
pub proof fn lemma_no_cross_package_interference(
    a_checked: bool,
    a_count: usize,
    a_compiled: Seq<bool>,
    b_count: usize,
    b_compiled: Seq<bool>,
)
    requires
        package_result(a_checked, a_count, a_compiled) is Err,
        b_compiled.len() == b_count,
        forall|j: int| 0 <= j < b_count ==> b_compiled[j],
    ensures
        forall|j: usize|
            j < b_count ==> package_trace(true, b_count, b_compiled).contains(UnitAction::Write { entry: j }),
        package_result(true, b_count, b_compiled) == Ok::<(), ExportError>(()),
        first_failure(seq![
            package_result(a_checked, a_count, a_compiled),
            package_result(true, b_count, b_compiled),
        ]) is Err,
        first_failure(seq![
            package_result(true, b_count, b_compiled),
            package_result(a_checked, a_count, a_compiled),
        ]) is Err,
{
    let ra = package_result(a_checked, a_count, a_compiled);
    let rb = package_result(true, b_count, b_compiled);
    if b_count > 0 {
        lemma_compiling_from_start(b_count, b_compiled, b_count as int);
    } else {
        let rest = trace(UnitState::Succeeded, true, b_count, b_compiled);
        assert(rest =~= Seq::<UnitAction>::empty());
        let d = trace(UnitState::Discovering, true, b_count, b_compiled);
        assert(d =~= seq![UnitAction::Succeed]);
        assert(package_trace(true, b_count, b_compiled) =~= seq![UnitAction::Discover, UnitAction::Succeed]);
    }
    assert(rb is Ok);
    assert(seq![rb, ra][0] == rb);
    assert(seq![rb, ra].drop_first() =~= seq![ra]);
    assert(first_failure(seq![ra]) == ra);
    assert(first_failure(seq![rb, ra]) == first_failure(seq![ra]));
}

proof fn lemma_no_library(ps: Seq<Package>, n: nat)
    requires
        n <= ps.len(),
        forall|i: int| 0 <= i < ps.len() ==> ps[i].kind == PackageKind::Binary,
    ensures
        library_prefix(ps, n) == Seq::<usize>::empty(),
    decreases n,
{
    if n > 0 {
        lemma_no_library(ps, (n - 1) as nat);
    }
}

/// A workspace of binary packages only takes part in no export compilation:
/// no package unit runs, so no artifact is written, and the run succeeds.
pub proof fn lemma_binaries_only(packages: Seq<Package>)
    requires
        forall|i: int| 0 <= i < packages.len() ==> packages[i].kind == PackageKind::Binary,
    ensures
        library_indices(packages) == Seq::<usize>::empty(),
        first_failure(Seq::<Result<(), ExportError>>::empty()) == Ok::<(), ExportError>(()),
{
    lemma_no_library(packages, packages.len());
}

} // verus!
