//! What every deployment run guarantees, whatever the docker and Caddy operations report.

use vstd::prelude::*;
use crate::deploy::config::DeployConfig;
use crate::deploy::deploy::{
    deploy_next, expects, run_wf, spec_backoff, spec_pick_by_port, spec_pick_by_running,
    spec_slot_by_port,
    DeployActionView, DeployEventView, DeployRunView, Phase, SlotId,
};
use crate::deploy::rollback::{rollback_expects, rollback_next, rollback_wf, RollbackPhase, RollbackView};

verus! {

/// The other slot of the other slot is the slot itself, and never the slot itself.
pub proof fn other_slot_is_an_involution(s: SlotId)
    ensures
        s.spec_other().spec_other() == s,
        s.spec_other() != s,
{
}

/// Slots chosen from which containers run: the new slot is one that does not run, and the
/// slot to stop afterwards is the other, running one.
pub proof fn new_slot_is_idle_when_chosen_by_running(a_run: bool, b_run: bool)
    ensures
        spec_pick_by_running(a_run, b_run) matches Some((new, old)) ==> {
            &&& (new == SlotId::A ==> !a_run)
            &&& (new == SlotId::B ==> !b_run)
            &&& old matches Some(o) ==> o == new.spec_other()
            &&& old is None ==> !a_run && !b_run
        },
        spec_pick_by_running(a_run, b_run) is None <==> (a_run && b_run),
{
}

/// When both slots run, the slot that serves the proxied port is the one stopped
/// afterwards, and the new version goes to the other one.
pub proof fn new_slot_never_serves_the_active_port(cfg: DeployConfig, port: Option<u16>)
    ensures
        spec_pick_by_port(cfg, port) matches Ok((new, old)) ==> {
            &&& port is Some
            &&& old == spec_slot_by_port(cfg, port.unwrap())
            &&& old is Some
            &&& new == old.unwrap().spec_other()
            &&& new != old.unwrap()
        },
{
}

/// Every step keeps a run well formed: pull attempts stay within the retries, and the
/// slot to stop is never the new slot.
pub proof fn steps_keep_runs_well_formed(cfg: DeployConfig, s: DeployRunView, e: DeployEventView)
    requires
        run_wf(s),
        expects(s.phase, e),
    ensures
        run_wf(deploy_next(cfg, s, e).0),
{
}

/// Pulls are tried at most `max(pull_retries, 1)` times: that count is fixed when the run
/// begins, every pull asked for is numbered within it, and the wait before a retry is the
/// doubling backoff of at most 30 seconds.
pub proof fn pulls_stay_within_the_retries(cfg: DeployConfig, s: DeployRunView, e: DeployEventView)
    requires
        run_wf(s),
        expects(s.phase, e),
    ensures
        s.phase == Phase::Ready ==> deploy_next(cfg, s, e).0.retries == (if cfg.pull_retries < 1 {
            1
        } else {
            cfg.pull_retries
        }),
        s.phase != Phase::Ready ==> deploy_next(cfg, s, e).0.retries == s.retries,
        deploy_next(cfg, s, e).2 == DeployActionView::Pull ==> 1 <= deploy_next(cfg, s, e).0.attempt
            <= deploy_next(cfg, s, e).0.retries,
        deploy_next(cfg, s, e).2 matches DeployActionView::Sleep(b) ==> b == spec_backoff(s.attempt)
            && b <= 30,
{
}

/// Traffic moves only to a container that passed its health wait: the import file is
/// rewritten only right after a successful health wait, and for the new slot's port.
pub proof fn traffic_moves_only_to_a_healthy_slot(
    cfg: DeployConfig,
    s: DeployRunView,
    e: DeployEventView,
    port: u16,
)
    requires
        run_wf(s),
        expects(s.phase, e),
        deploy_next(cfg, s, e).2 == DeployActionView::WriteCaddy(port),
    ensures
        s.phase == Phase::Health,
        e matches DeployEventView::Health(Ok(_)),
        port == s.new_slot.spec_config(cfg).host_port,
{
}

/// The old slot is stopped, never removed, and only after Caddy reloaded successfully; it
/// is never the slot just started.
pub proof fn old_slot_is_stopped_only_after_the_switch(
    cfg: DeployConfig,
    s: DeployRunView,
    e: DeployEventView,
    slot: SlotId,
)
    requires
        run_wf(s),
        expects(s.phase, e),
        deploy_next(cfg, s, e).2 == DeployActionView::StopContainer(slot),
    ensures
        s.phase == Phase::Reloading,
        e matches DeployEventView::Reloaded(Ok(_)),
        s.old_slot == Some(slot),
        slot != s.new_slot,
{
}

/// Only the slot started by this run is ever removed.
pub proof fn only_the_new_slot_is_removed(
    cfg: DeployConfig,
    s: DeployRunView,
    e: DeployEventView,
    slot: SlotId,
)
    requires
        run_wf(s),
        expects(s.phase, e),
        deploy_next(cfg, s, e).2 == DeployActionView::RemoveContainer(slot),
    ensures
        slot == s.new_slot,
        deploy_next(cfg, s, e).0.new_slot == s.new_slot,
{
}

/// Once the new container is started, a failing run removes it before it reports the
/// failure.
pub proof fn failures_after_start_remove_the_new_container(
    cfg: DeployConfig,
    s: DeployRunView,
    e: DeployEventView,
    msg: Seq<char>,
)
    requires
        run_wf(s),
        expects(s.phase, e),
        s.phase == Phase::Health || s.phase == Phase::Writing || s.phase == Phase::Reloading
            || s.phase == Phase::Restoring || s.phase == Phase::ReloadingAgain || s.phase
            == Phase::RemovingThenFail || s.phase == Phase::StoppingOld,
        deploy_next(cfg, s, e).2 == DeployActionView::Finish(Err(msg)),
    ensures
        s.phase == Phase::RemovingThenFail,
        msg == s.pending,
{
}

/// How many events a run can still take at most.
pub open spec fn remaining_steps(cfg: DeployConfig, s: DeployRunView) -> int {
    let r = s.retries as int;
    let a = s.attempt as int;
    match s.phase {
        Phase::Finished => 0,
        Phase::StoppingOld => 1,
        Phase::RemovingThenFail => 1,
        Phase::ReloadingAgain => 2,
        Phase::Restoring => 3,
        Phase::Reloading => 4,
        Phase::Writing => 5,
        Phase::Health => 6,
        Phase::Starting => 7,
        Phase::ActivePort => 8,
        Phase::RunningB => 9,
        Phase::RunningA => 10,
        Phase::TagLocal => 11,
        Phase::TagOlder => 12,
        Phase::ImageExists => 13,
        Phase::Pulling => 14 + 2 * (r - a),
        Phase::Sleeping => 13 + 2 * (r - a),
        Phase::RemoteDigest => 15 + 2 * r,
        Phase::LocalDigest => 16 + 2 * r,
        Phase::Ready => 17 + 2 * (if cfg.pull_retries < 1 { 1 } else { cfg.pull_retries as int }),
    }
}

/// Every run ends: each event brings a well-formed run strictly closer to its end.
pub proof fn every_run_ends(cfg: DeployConfig, s: DeployRunView, e: DeployEventView)
    requires
        run_wf(s),
        expects(s.phase, e),
    ensures
        0 <= remaining_steps(cfg, deploy_next(cfg, s, e).0) < remaining_steps(cfg, s),
{
}

/// Every rollback step keeps the slot rolled back to opposite the slot that served traffic.
pub proof fn rollback_steps_keep_the_target_opposite(
    cfg: DeployConfig,
    s: RollbackView,
    e: DeployEventView,
)
    requires
        rollback_wf(s),
        rollback_expects(s.phase, e),
    ensures
        rollback_wf(rollback_next(cfg, s, e).0),
{
}

/// A rollback restarts the stopped container of the target slot when there is one, and
/// otherwise runs the older image there; it never starts a container in the active slot.
pub proof fn rollback_prefers_restarting_the_stopped_target(
    cfg: DeployConfig,
    s: RollbackView,
    e: DeployEventView,
)
    requires
        rollback_wf(s),
        rollback_expects(s.phase, e),
    ensures
        rollback_next(cfg, s, e).2 matches DeployActionView::StartContainer(slot) ==> {
            &&& slot == s.target
            &&& s.phase == RollbackPhase::TargetRunning
            &&& e == DeployEventView::Running(Ok(false))
        },
        rollback_next(cfg, s, e).2 matches DeployActionView::RunOlderContainer(slot) ==> {
            &&& slot == s.target
            &&& (e == DeployEventView::ContainerExists(Ok(false)) || e
                == DeployEventView::Running(Ok(true)))
        },
        s.phase == RollbackPhase::TargetRunning && e == DeployEventView::Running(Ok(false))
            ==> rollback_next(cfg, s, e).2 == DeployActionView::StartContainer(s.target),
{
}

/// A rollback moves traffic only to the target slot, and only after its health wait passed.
pub proof fn rollback_moves_traffic_only_to_a_healthy_target(
    cfg: DeployConfig,
    s: RollbackView,
    e: DeployEventView,
    port: u16,
)
    requires
        rollback_wf(s),
        rollback_expects(s.phase, e),
        rollback_next(cfg, s, e).2 == DeployActionView::WriteCaddy(port),
    ensures
        s.phase == RollbackPhase::Health,
        e matches DeployEventView::Health(Ok(_)),
        port == s.target.spec_config(cfg).host_port,
{
}

/// When the target never becomes healthy, the rollback stops the target and leaves the
/// traffic where it was.
pub proof fn unhealthy_target_is_stopped_without_switching(
    cfg: DeployConfig,
    s: RollbackView,
    msg: Seq<char>,
)
    requires
        rollback_wf(s),
        s.phase == RollbackPhase::Health,
    ensures
        rollback_next(cfg, s, DeployEventView::Health(Err(msg))).2 == DeployActionView::StopContainer(
            s.target,
        ),
        rollback_next(cfg, s, DeployEventView::Health(Err(msg))).0.phase
            == RollbackPhase::StoppingThenFail,
{
}

/// The slot that served traffic is stopped, never removed, and only after Caddy reloaded
/// with the target's port; any other container stopped is the target's, on the way to a
/// failure.
pub proof fn rollback_stops_the_active_slot_only_after_the_switch(
    cfg: DeployConfig,
    s: RollbackView,
    e: DeployEventView,
    slot: SlotId,
)
    requires
        rollback_wf(s),
        rollback_expects(s.phase, e),
        rollback_next(cfg, s, e).2 == DeployActionView::StopContainer(slot),
    ensures
        slot == s.active ==> s.phase == RollbackPhase::Reloading && e matches DeployEventView::Reloaded(
            Ok(_),
        ),
        slot == s.target ==> rollback_next(cfg, s, e).0.phase == RollbackPhase::StoppingThenFail,
        !(rollback_next(cfg, s, e).2 matches DeployActionView::RemoveContainer(_)),
{
}

/// The image tags are swapped only once traffic has moved and the former slot was stopped.
pub proof fn tags_are_swapped_only_after_the_switch(
    cfg: DeployConfig,
    s: RollbackView,
    e: DeployEventView,
)
    requires
        rollback_wf(s),
        rollback_expects(s.phase, e),
        rollback_next(cfg, s, e).2 == DeployActionView::SwapTags,
    ensures
        s.phase == RollbackPhase::StoppingOld,
        e matches DeployEventView::Stopped(_),
{
}

/// How many events a rollback can still take at most.
pub open spec fn rollback_remaining(s: RollbackView) -> int {
    match s.phase {
        RollbackPhase::Finished => 0,
        RollbackPhase::StoppingThenFail => 1,
        RollbackPhase::Swapping => 1,
        RollbackPhase::StoppingOld => 2,
        RollbackPhase::ReloadingAgain => 2,
        RollbackPhase::Restoring => 3,
        RollbackPhase::Reloading => 4,
        RollbackPhase::Writing => 5,
        RollbackPhase::Health => 6,
        RollbackPhase::Starting => 7,
        RollbackPhase::TargetRunning => 8,
        RollbackPhase::TargetExists => 9,
        RollbackPhase::ActivePort => 10,
        RollbackPhase::OlderExists => 11,
        RollbackPhase::Ready => 12,
    }
}

/// Every rollback ends: each event brings it strictly closer to its end.
pub proof fn every_rollback_ends(cfg: DeployConfig, s: RollbackView, e: DeployEventView)
    requires
        rollback_wf(s),
        rollback_expects(s.phase, e),
    ensures
        0 <= rollback_remaining(rollback_next(cfg, s, e).0) < rollback_remaining(s),
{
}

} // verus!
