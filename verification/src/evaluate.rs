use vstd::prelude::*;

use crate::args::Args;
use crate::device::BatteryState;
use crate::device::Observation;

verus! {

/// Which of the four predicates a check line reports on.
#[derive(Clone, Copy, PartialEq, Eq, Structural, Debug)]
pub enum PredicateKind {
    Lt,
    Gt,
    State,
    NotState,
}

/// One predicate that was actually evaluated, with its outcome.
#[derive(Clone, Copy, PartialEq, Eq, Structural, Debug)]
pub struct Check {
    pub kind: PredicateKind,
    pub pass: bool,
}

/// The result of one evaluation: the overall answer, and the ordered list of
/// the predicates that were actually evaluated before the answer was known.
#[derive(Debug)]
pub struct Verdict {
    pub pass: bool,
    pub checks: Vec<Check>,
}

/// `lt(bound)` passes iff the charge lies strictly below `bound` percent.
pub open spec fn lt_holds(bound: u8, o: Observation) -> bool {
    (o.charge_milli_percent as int) < (bound as int) * 1000
}

/// `gt(bound)` passes iff the charge lies strictly above `bound` percent.
pub open spec fn gt_holds(bound: u8, o: Observation) -> bool {
    (o.charge_milli_percent as int) > (bound as int) * 1000
}

/// `state(s)` passes iff the observed state equals `s`.
pub open spec fn state_holds(s: BatteryState, o: Observation) -> bool {
    o.state == s
}

/// `not_state(s)` passes iff the observed state differs from `s`.
pub open spec fn not_state_holds(s: BatteryState, o: Observation) -> bool {
    o.state != s
}

/// An absent predicate is trivially satisfied; the verdict is true iff every
/// present predicate holds of the observation.
pub open spec fn all_conditions_hold(a: Args, o: Observation) -> bool {
    &&& (a.lt matches Some(b) ==> lt_holds(b, o))
    &&& (a.gt matches Some(b) ==> gt_holds(b, o))
    &&& (a.state matches Some(s) ==> state_holds(s, o))
    &&& (a.not_state matches Some(s) ==> not_state_holds(s, o))
}

/// The check line the `lt` predicate contributes: one element when present,
/// none when absent.
pub open spec fn lt_part(a: Args, o: Observation) -> Seq<Check> {
    match a.lt {
        Some(b) => seq![Check { kind: PredicateKind::Lt, pass: lt_holds(b, o) }],
        None => Seq::<Check>::empty(),
    }
}

/// The check line the `gt` predicate contributes.
pub open spec fn gt_part(a: Args, o: Observation) -> Seq<Check> {
    match a.gt {
        Some(b) => seq![Check { kind: PredicateKind::Gt, pass: gt_holds(b, o) }],
        None => Seq::<Check>::empty(),
    }
}

/// The check line the `state` predicate contributes.
pub open spec fn state_part(a: Args, o: Observation) -> Seq<Check> {
    match a.state {
        Some(s) => seq![Check { kind: PredicateKind::State, pass: state_holds(s, o) }],
        None => Seq::<Check>::empty(),
    }
}

/// The check line the `not_state` predicate contributes.
pub open spec fn not_state_part(a: Args, o: Observation) -> Seq<Check> {
    match a.not_state {
        Some(s) => seq![Check { kind: PredicateKind::NotState, pass: not_state_holds(s, o) }],
        None => Seq::<Check>::empty(),
    }
}

/// Every present predicate with its outcome, in the fixed evaluation order
/// `lt`, `gt`, `state`, `not_state`.
pub open spec fn check_plan(a: Args, o: Observation) -> Seq<Check> {
    lt_part(a, o) + gt_part(a, o) + state_part(a, o) + not_state_part(a, o)
}

/// The checks that are actually evaluated: evaluation walks the plan in
/// order and stops at the first failing predicate, so the result is the
/// prefix of the plan that ends with the first failure, or the whole plan
/// when every present predicate passes.
pub open spec fn evaluated_checks(a: Args, o: Observation) -> Seq<Check> {
    if a.lt matches Some(b) && !lt_holds(b, o) {
        lt_part(a, o)
    } else if a.gt matches Some(b) && !gt_holds(b, o) {
        lt_part(a, o) + gt_part(a, o)
    } else if a.state matches Some(s) && !state_holds(s, o) {
        lt_part(a, o) + gt_part(a, o) + state_part(a, o)
    } else {
        check_plan(a, o)
    }
}

/// What a verdict returned for `a` and `o` holds: the boolean answer is
/// exactly `all_conditions_hold`, and the reported checks are exactly the
/// short-circuited evaluation order.
pub open spec fn verdict_of(a: Args, o: Observation, v: Verdict) -> bool {
    &&& v.pass == all_conditions_hold(a, o)
    &&& v.checks@ == evaluated_checks(a, o)
}

/// Evaluate the request's predicates against one observation.
///
/// Predicates run in the fixed order `lt`, `gt`, `state`, `not_state`;
/// the first failure stops evaluation. Absent predicates are skipped.
pub fn evaluate(a: &Args, o: Observation) -> (r: Verdict)
    ensures
        verdict_of(*a, o, r),
{
    let mut checks: Vec<Check> = Vec::new();
    if let Some(bound) = a.lt {
        let pass = o.charge_milli_percent < (bound as u64) * 1000;
        checks.push(Check { kind: PredicateKind::Lt, pass });
        if !pass {
            proof {
                assert(checks@ =~= evaluated_checks(*a, o));
            }
            return Verdict { pass: false, checks };
        }
    }
    if let Some(bound) = a.gt {
        let pass = o.charge_milli_percent > (bound as u64) * 1000;
        checks.push(Check { kind: PredicateKind::Gt, pass });
        if !pass {
            proof {
                assert(checks@ =~= evaluated_checks(*a, o));
            }
            return Verdict { pass: false, checks };
        }
    }
    if let Some(wanted) = a.state {
        let pass = o.state == wanted;
        checks.push(Check { kind: PredicateKind::State, pass });
        if !pass {
            proof {
                assert(checks@ =~= evaluated_checks(*a, o));
            }
            return Verdict { pass: false, checks };
        }
    }
    if let Some(unwanted) = a.not_state {
        let pass = o.state != unwanted;
        checks.push(Check { kind: PredicateKind::NotState, pass });
        if !pass {
            proof {
                assert(checks@ =~= evaluated_checks(*a, o));
            }
            return Verdict { pass: false, checks };
        }
    }
    proof {
        assert(checks@ =~= evaluated_checks(*a, o));
    }
    Verdict { pass: true, checks }
}

/// Both charge thresholds are strict: a charge of exactly the bound fails
/// `lt` and fails `gt` alike.
pub proof fn lemma_thresholds_are_strict(bound: u8, o: Observation)
    requires
        o.charge_milli_percent == (bound as int) * 1000,
    ensures
        !lt_holds(bound, o),
        !gt_holds(bound, o),
{
}

/// Evaluation is deterministic: two verdicts obtained from the same request
/// and the same observation agree in every part.
pub proof fn lemma_evaluation_deterministic(a: Args, o: Observation, v1: Verdict, v2: Verdict)
    requires
        verdict_of(a, o, v1),
        verdict_of(a, o, v2),
    ensures
        v1.pass == v2.pass,
        v1.checks@ == v2.checks@,
{
}

/// Short-circuiting never hides a failure and never cuts a passing run
/// short: when every present predicate holds, the whole plan is evaluated;
/// otherwise evaluation ends on the first failure, so every reported check
/// but the last one passed and the last one failed.
pub proof fn lemma_short_circuit_shape(a: Args, o: Observation)
    ensures
        all_conditions_hold(a, o) ==> evaluated_checks(a, o) == check_plan(a, o),
        !all_conditions_hold(a, o) ==> evaluated_checks(a, o).len() > 0 && !evaluated_checks(
            a,
            o,
        ).last().pass && (forall|i: int|
            0 <= i < evaluated_checks(a, o).len() - 1 ==> evaluated_checks(a, o)[i].pass),
{
}

/// With no predicate set at all, the verdict is true for every observation,
/// and nothing is evaluated.
pub proof fn lemma_no_predicates_always_pass(a: Args, o: Observation)
    requires
        a.no_predicates(),
    ensures
        all_conditions_hold(a, o),
        evaluated_checks(a, o) == Seq::<Check>::empty(),
{
    assert(evaluated_checks(a, o) =~= Seq::<Check>::empty());
}

} // verus!
