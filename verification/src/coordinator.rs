//! The deployment coordinator: units strictly in resolver order, push
//! before activation, and — when a unit fails — the revocation walk over
//! the units that already succeeded.

use vstd::prelude::*;

verus! {

use crate::deploy::DeployProfileError;
use crate::resolve::DeployData;

/// Whether a unit opts into being revoked when a later unit fails:
/// its merged `auto_rollback`, defaulting to on.
pub open spec fn unit_auto_rollback(u: DeployData) -> bool {
    match u.merged_settings.auto_rollback {
        Some(b) => b,
        None => true,
    }
}

/// The indices below `k` whose flag is set, in increasing order.
pub open spec fn revocation_indices(auto: Seq<bool>, k: int) -> Seq<int>
    decreases k,
{
    if k <= 0 {
        Seq::<int>::empty()
    } else if auto[k - 1] {
        revocation_indices(auto, k - 1).push(k - 1)
    } else {
        revocation_indices(auto, k - 1)
    }
}

/// The revocation plan after the unit at `k` failed: nothing under a dry
/// run or when revocation of succeeded units is switched off; otherwise
/// exactly the earlier units that opt in, in application order.
pub open spec fn revocation_plan_spec(
    auto: Seq<bool>,
    k: int,
    rollback_succeeded: bool,
    dry_activate: bool,
) -> Seq<int> {
    if !rollback_succeeded || dry_activate {
        Seq::<int>::empty()
    } else {
        revocation_indices(auto, k)
    }
}

/// On the failure of the unit at `k`, the walk names exactly the earlier
/// units that opt in by `auto_rollback`, each once, in original order.
pub proof fn lemma_revocation_walk(auto: Seq<bool>, k: int)
    requires
        0 <= k <= auto.len(),
    ensures
        forall|j: int|
            0 <= j < revocation_indices(auto, k).len() ==> 0 <= #[trigger] revocation_indices(
                auto,
                k,
            )[j] < k && auto[revocation_indices(auto, k)[j]],
        forall|i: int| 0 <= i < k && #[trigger] auto[i] ==> revocation_indices(auto, k).contains(i),
        forall|a: int, b: int|
            0 <= a < b < revocation_indices(auto, k).len() ==> #[trigger] revocation_indices(
                auto,
                k,
            )[a] < #[trigger] revocation_indices(auto, k)[b],
    decreases k,
{
    if k > 0 {
        lemma_revocation_walk(auto, k - 1);
        assert forall|i: int|
            0 <= i < k && auto[i] implies revocation_indices(auto, k).contains(i) by {
            if i < k - 1 {
                let j = choose|j: int|
                    0 <= j < revocation_indices(auto, k - 1).len() && (#[trigger] revocation_indices(
                        auto,
                        k - 1,
                    )[j]) == i;
                assert(revocation_indices(auto, k)[j] == i);
            } else {
                assert(auto[k - 1]);
                assert(revocation_indices(auto, k).last() == i);
            }
        }
    }
}

/// The effective flag sequence of a unit list.
pub open spec fn units_auto(units: Seq<DeployData>) -> Seq<bool> {
    units.map_values(|u: DeployData| unit_auto_rollback(u))
}

/// The units to revoke, as indices into the unit list, after the unit at
/// `k` failed.
pub fn revocation_plan(
    units: &Vec<DeployData>,
    k: usize,
    rollback_succeeded: bool,
    dry_activate: bool,
) -> (r: Vec<usize>)
    requires
        k <= units@.len(),
    ensures
        r@.map_values(|x: usize| x as int) == revocation_plan_spec(
            units_auto(units@),
            k as int,
            rollback_succeeded,
            dry_activate,
        ),
{
    let mut r: Vec<usize> = Vec::new();
    proof {
        assert(r@.map_values(|x: usize| x as int) =~= Seq::<int>::empty());
    }
    if !rollback_succeeded || dry_activate {
        return r;
    }
    let mut i: usize = 0;
    while i < k
        invariant
            i <= k,
            k <= units@.len(),
            r@.map_values(|x: usize| x as int) == revocation_indices(units_auto(units@), i as int),
        decreases k - i,
    {
        proof {
            assert(units_auto(units@)[i as int] == unit_auto_rollback(units@[i as int]));
        }
        let auto = match units[i].merged_settings.auto_rollback {
            Some(b) => b,
            None => true,
        };
        if auto {
            r.push(i);
            proof {
                assert(r@.map_values(|x: usize| x as int) =~= revocation_indices(
                    units_auto(units@),
                    i as int,
                ).push(i as int));
            }
        }
        i = i + 1;
    }
    r
}

/// Failure while pushing every profile of one node.
pub enum PushAllProfilesError {
    /// The named profile failed to push.
    PushProfileError(String, crate::push::PushProfileError),
    /// The order list named a profile the node does not hold.
    ProfileNotFound(String),
    DeployDataDefsError(crate::resolve::DeployDataDefsError),
}

/// Failure while deploying every profile of one node.
pub enum DeployAllProfilesError {
    /// The named profile failed to deploy.
    DeployProfileError(String, DeployProfileError),
    /// The order list named a profile the node does not hold.
    ProfileNotFound(String),
    DeployDataDefsError(crate::resolve::DeployDataDefsError),
}

/// Why a deployment stopped: the failing unit and what failed there.
pub enum UnitFailure {
    /// The push (build and copy) failed; the runner's message.
    Push(String),
    /// The activation race failed.
    Deploy(DeployProfileError),
}

pub struct CoordFailure {
    pub unit: usize,
    pub failure: UnitFailure,
}

/// Where the coordinator stands.
pub enum CoordState {
    /// Unit `current` is being built and pushed.
    Pushing { current: usize },
    /// Unit `current` is in its activation race.
    Deploying { current: usize },
    /// The unit at `failed` failed with `error`; the revocation walk has
    /// reached position `next` of its plan.
    Revoking { failed: usize, error: DeployProfileError, next: usize },
    Done(Result<(), CoordFailure>),
}

/// What the outside loop must do next.
pub enum CoordAction {
    /// Build the unit's closure and push it to the target.
    PushUnit(usize),
    /// Play the unit's activation race to its end.
    DeployUnit(usize),
    /// Invoke the agent's `revoke` for this unit.
    RevokeUnit(usize),
}

/// What the outside loop reports back.
pub enum CoordEvent {
    PushFinished(Result<(), String>),
    /// The unit's activation race settled.
    UnitFinished(Result<(), DeployProfileError>),
    /// One revocation settled; a failure is logged but never stops the
    /// walk over the remaining units.
    RevokeFinished(Result<(), String>),
}

/// The opening move: push the first unit, or succeed on an empty plan.
pub open spec fn coord_start_spec(n_units: int) -> (CoordState, Option<CoordAction>) {
    if n_units == 0 {
        (CoordState::Done(Ok(())), None)
    } else {
        (CoordState::Pushing { current: 0 }, Some(CoordAction::PushUnit(0)))
    }
}

pub fn coord_start(units: &Vec<DeployData>) -> (r: (CoordState, Option<CoordAction>))
    ensures
        r == coord_start_spec(units@.len() as int),
{
    if units.len() == 0 {
        (CoordState::Done(Ok(())), None)
    } else {
        (CoordState::Pushing { current: 0 }, Some(CoordAction::PushUnit(0)))
    }
}

/// One transition of the coordinator. Units advance strictly in order; a
/// push failure stops everything without touching earlier units (a push
/// only writes to the target's store); an activation failure starts the
/// revocation walk; a revocation failure never stops the walk.
pub open spec fn coord_step_spec(
    s: CoordState,
    e: CoordEvent,
    n_units: int,
    auto: Seq<bool>,
    rollback_succeeded: bool,
    dry_activate: bool,
) -> (CoordState, Option<CoordAction>) {
    match (s, e) {
        (CoordState::Pushing { current }, CoordEvent::PushFinished(outcome)) => match outcome {
            Ok(u) => (
                CoordState::Deploying { current },
                Some(CoordAction::DeployUnit(current)),
            ),
            Err(m) => (
                CoordState::Done(
                    Err(CoordFailure { unit: current, failure: UnitFailure::Push(m) }),
                ),
                None,
            ),
        },
        (CoordState::Deploying { current }, CoordEvent::UnitFinished(outcome)) => match outcome {
            Ok(u) => if current + 1 < n_units {
                (
                    CoordState::Pushing { current: (current + 1) as usize },
                    Some(CoordAction::PushUnit((current + 1) as usize)),
                )
            } else {
                (CoordState::Done(Ok(())), None)
            },
            Err(err) => {
                let plan = revocation_plan_spec(
                    auto,
                    current as int,
                    rollback_succeeded,
                    dry_activate,
                );
                if plan.len() == 0 {
                    (
                        CoordState::Done(
                            Err(
                                CoordFailure {
                                    unit: current,
                                    failure: UnitFailure::Deploy(err),
                                },
                            ),
                        ),
                        None,
                    )
                } else {
                    (
                        CoordState::Revoking { failed: current, error: err, next: 0 },
                        Some(CoordAction::RevokeUnit(plan[0] as usize)),
                    )
                }
            },
        },
        (
            CoordState::Revoking { failed, error, next },
            CoordEvent::RevokeFinished(outcome),
        ) => {
            let plan = revocation_plan_spec(auto, failed as int, rollback_succeeded, dry_activate);
            if next + 1 < plan.len() {
                (
                    CoordState::Revoking { failed, error, next: (next + 1) as usize },
                    Some(CoordAction::RevokeUnit(plan[next + 1] as usize)),
                )
            } else {
                (
                    CoordState::Done(
                        Err(CoordFailure { unit: failed, failure: UnitFailure::Deploy(error) }),
                    ),
                    None,
                )
            }
        },
        (s0, _) => (s0, None),
    }
}

/// One transition of the coordinator, as the outside loop drives it.
pub fn coord_step(
    s: CoordState,
    e: CoordEvent,
    units: &Vec<DeployData>,
    rollback_succeeded: bool,
    dry_activate: bool,
) -> (r: (CoordState, Option<CoordAction>))
    requires
        (match s {
            CoordState::Pushing { current } => current < units@.len(),
            CoordState::Deploying { current } => current < units@.len(),
            CoordState::Revoking { failed, .. } => failed < units@.len(),
            CoordState::Done(_) => true,
        }),
    ensures
        r == coord_step_spec(
            s,
            e,
            units@.len() as int,
            units_auto(units@),
            rollback_succeeded,
            dry_activate,
        ),
{
    match (s, e) {
        (CoordState::Pushing { current }, CoordEvent::PushFinished(outcome)) => match outcome {
            Ok(u) => (
                CoordState::Deploying { current },
                Some(CoordAction::DeployUnit(current)),
            ),
            Err(m) => (
                CoordState::Done(
                    Err(CoordFailure { unit: current, failure: UnitFailure::Push(m) }),
                ),
                None,
            ),
        },
        (CoordState::Deploying { current }, CoordEvent::UnitFinished(outcome)) => match outcome {
            Ok(u) => {
                let n = units.len();
                if current + 1 < n {
                    (
                        CoordState::Pushing { current: current + 1 },
                        Some(CoordAction::PushUnit(current + 1)),
                    )
                } else {
                    (CoordState::Done(Ok(())), None)
                }
            },
            Err(err) => {
                let plan = revocation_plan(units, current, rollback_succeeded, dry_activate);
                if plan.len() == 0 {
                    (
                        CoordState::Done(
                            Err(
                                CoordFailure {
                                    unit: current,
                                    failure: UnitFailure::Deploy(err),
                                },
                            ),
                        ),
                        None,
                    )
                } else {
                    let first = plan[0];
                    (
                        CoordState::Revoking { failed: current, error: err, next: 0 },
                        Some(CoordAction::RevokeUnit(first)),
                    )
                }
            },
        },
        (
            CoordState::Revoking { failed, error, next },
            CoordEvent::RevokeFinished(outcome),
        ) => {
            let plan = revocation_plan(units, failed, rollback_succeeded, dry_activate);
            if next < plan.len() && next + 1 < plan.len() {
                let target = plan[next + 1];
                (
                    CoordState::Revoking { failed, error, next: next + 1 },
                    Some(CoordAction::RevokeUnit(target)),
                )
            } else {
                (
                    CoordState::Done(
                        Err(CoordFailure { unit: failed, failure: UnitFailure::Deploy(error) }),
                    ),
                    None,
                )
            }
        },
        (s0, _) => (s0, None),
    }
}

} // verus!
