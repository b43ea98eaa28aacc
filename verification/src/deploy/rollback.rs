//! The rollback: back to the previous version, in the slot that does not serve traffic.

use vstd::prelude::*;
use crate::deploy::config::DeployConfig;
use crate::deploy::deploy::{
    none, one, res_view, slot_by_port, spec_slot_by_port, start_failed_message, stop_failed_message,
    stop_failed_text, stopping_message, stopping_text, switching_message, text, waiting_message,
    waiting_text, with_brief, DeployAction, DeployActionView, DeployEvent, DeployEventView,
    DeployStep, SlotId,
};
use crate::deploy::docker::string_views;
use crate::text::{append, brief, chars_of, decimal, push_str, string_of, u64_decimal};

verus! {

/// What a rollback waits for.
#[derive(Debug, Clone, Copy, PartialEq, Eq, Structural)]
pub enum RollbackPhase {
    Ready,
    OlderExists,
    ActivePort,
    TargetExists,
    TargetRunning,
    Starting,
    Health,
    Writing,
    Reloading,
    Restoring,
    ReloadingAgain,
    StoppingThenFail,
    StoppingOld,
    Swapping,
    Finished,
}

/// A rollback in progress.
pub struct RollbackRun {
    phase: RollbackPhase,
    active: SlotId,
    target: SlotId,
    had_healthcheck: bool,
    old_caddy: Option<String>,
    pending: String,
}

pub ghost struct RollbackView {
    pub phase: RollbackPhase,
    pub active: SlotId,
    pub target: SlotId,
    pub had_healthcheck: bool,
    pub old_caddy: Option<Seq<char>>,
    pub pending: Seq<char>,
}

impl View for RollbackRun {
    type V = RollbackView;

    closed spec fn view(&self) -> RollbackView {
        RollbackView {
            phase: self.phase,
            active: self.active,
            target: self.target,
            had_healthcheck: self.had_healthcheck,
            old_caddy: match self.old_caddy {
                Some(c) => Some(c@),
                None => None,
            },
            pending: self.pending@,
        }
    }
}

/// The slot rolled back to is never the one that served traffic.
pub open spec fn rollback_wf(s: RollbackView) -> bool {
    s.target == s.active.spec_other()
}

pub open spec fn older_check_message() -> Seq<char> {
    "正在检查可回滚版本…"@
}

pub open spec fn older_check_failed_message(e: Seq<char>) -> Seq<char> {
    "检查可回滚版本失败\n"@ + brief(e, 300)
}

pub open spec fn no_older_message(image: Seq<char>) -> Seq<char> {
    "没有可回滚的版本（"@ + image + " 不存在）"@
}

pub open spec fn active_failed_message(e: Seq<char>) -> Seq<char> {
    "槽位选择失败\n"@ + brief(e, 300)
}

pub open spec fn rollback_no_port_message() -> Seq<char> {
    "无法从 Caddy import 文件解析当前端口，请人工处理后再回滚"@
}

pub open spec fn rollback_port_mismatch_message(port: u16) -> Seq<char> {
    "Caddy 端口 "@ + decimal(port as nat) + " 与配置的槽位端口不匹配，请人工处理后再回滚"@
}

pub open spec fn target_failed_message(e: Seq<char>) -> Seq<char> {
    "检查目标槽位失败\n"@ + brief(e, 300)
}

pub open spec fn restarting_message(slot: SlotId, cfg: DeployConfig) -> Seq<char> {
    "正在重启槽位 "@ + slot.spec_label() + "（"@ + slot.spec_config(cfg).name@ + "）…"@
}

pub open spec fn running_older_message(slot: SlotId, cfg: DeployConfig) -> Seq<char> {
    "正在用 "@ + cfg.older_image@ + " 启动槽位 "@ + slot.spec_label() + "（"@ + slot.spec_config(
        cfg,
    ).name@ + "，端口 "@ + decimal(slot.spec_config(cfg).host_port as nat) + "）…"@
}

pub open spec fn target_not_ready_message(e: Seq<char>) -> Seq<char> {
    "回滚目标未就绪，已停止目标槽，未切换流量\n"@ + brief(e, 300)
}

pub open spec fn rollback_write_failed_message(e: Seq<char>) -> Seq<char> {
    "写入 Caddy 配置失败，已停止目标槽\n"@ + brief(e, 300)
}

pub open spec fn rollback_reload_failed_message(e: Seq<char>) -> Seq<char> {
    "Caddy reload 失败，已尝试恢复配置并停止目标槽\n"@ + brief(e, 300)
}

pub open spec fn swapping_message() -> Seq<char> {
    "正在交换镜像标签…"@
}

pub open spec fn swap_failed_message(e: Seq<char>) -> Seq<char> {
    "流量已切换，但交换镜像标签失败: "@ + brief(e, 200)
}

pub open spec fn rollback_success_message(slot: SlotId, cfg: DeployConfig, had_healthcheck: bool) -> Seq<
    char,
> {
    "回滚成功\n当前槽位: "@ + slot.spec_label() + " ("@ + slot.spec_config(cfg).name@ + ")\n端口: "@
        + decimal(slot.spec_config(cfg).host_port as nat) + if had_healthcheck {
        Seq::<char>::empty()
    } else {
        "\n（容器无 HEALTHCHECK，已按 running 视为就绪）"@
    }
}

pub type RollbackStepView = (RollbackView, Seq<Seq<char>>, DeployActionView);

pub open spec fn rgo(s: RollbackView, phase: RollbackPhase, replies: Seq<Seq<char>>, a: DeployActionView) -> RollbackStepView {
    (RollbackView { phase, ..s }, replies, a)
}

pub open spec fn rfail(s: RollbackView, msg: Seq<char>) -> RollbackStepView {
    (RollbackView { phase: RollbackPhase::Finished, ..s }, seq![msg], DeployActionView::Finish(Err(msg)))
}

/// The target slot is stopped, then the rollback fails with `msg`.
pub open spec fn stop_then_fail(s: RollbackView, msg: Seq<char>) -> RollbackStepView {
    (
        RollbackView { phase: RollbackPhase::StoppingThenFail, pending: msg, ..s },
        seq![],
        DeployActionView::StopContainer(s.target),
    )
}

/// The target slot serves the traffic and the image tags are swapped.
pub open spec fn rsucceed(cfg: DeployConfig, s: RollbackView, first: Seq<Seq<char>>) -> RollbackStepView {
    (
        RollbackView { phase: RollbackPhase::Finished, ..s },
        first.push(rollback_success_message(s.target, cfg, s.had_healthcheck)),
        DeployActionView::Finish(Ok(())),
    )
}

/// The events that a rollback in `phase` waits for.
pub open spec fn rollback_expects(phase: RollbackPhase, e: DeployEventView) -> bool {
    match (phase, e) {
        (RollbackPhase::Ready, DeployEventView::Begin) => true,
        (RollbackPhase::OlderExists, DeployEventView::ImageExists(_)) => true,
        (RollbackPhase::ActivePort, DeployEventView::ActivePort(_)) => true,
        (RollbackPhase::TargetExists, DeployEventView::ContainerExists(_)) => true,
        (RollbackPhase::TargetRunning, DeployEventView::Running(_)) => true,
        (RollbackPhase::Starting, DeployEventView::Started(_)) => true,
        (RollbackPhase::Health, DeployEventView::Health(_)) => true,
        (RollbackPhase::Writing, DeployEventView::CaddyWritten(_)) => true,
        (RollbackPhase::Reloading, DeployEventView::Reloaded(_)) => true,
        (RollbackPhase::Restoring, DeployEventView::Restored) => true,
        (RollbackPhase::ReloadingAgain, DeployEventView::Reloaded(_)) => true,
        (RollbackPhase::StoppingThenFail, DeployEventView::Stopped(_)) => true,
        (RollbackPhase::StoppingOld, DeployEventView::Stopped(_)) => true,
        (RollbackPhase::Swapping, DeployEventView::Swapped(_)) => true,
        _ => false,
    }
}

/// One step of a rollback after event `e`.
pub open spec fn rollback_next(cfg: DeployConfig, s: RollbackView, e: DeployEventView) -> RollbackStepView {
    match (s.phase, e) {
        (RollbackPhase::Ready, DeployEventView::Begin) => rgo(
            s,
            RollbackPhase::OlderExists,
            seq![older_check_message()],
            DeployActionView::CheckOlderImage,
        ),
        (RollbackPhase::OlderExists, DeployEventView::ImageExists(r)) => match r {
            Err(err) => rfail(s, older_check_failed_message(err)),
            Ok(false) => rfail(s, no_older_message(cfg.older_image@)),
            Ok(true) => rgo(s, RollbackPhase::ActivePort, seq![], DeployActionView::ReadActivePort),
        },
        (RollbackPhase::ActivePort, DeployEventView::ActivePort(r)) => match r {
            Err(err) => rfail(s, active_failed_message(err)),
            Ok(None) => rfail(s, active_failed_message(rollback_no_port_message())),
            Ok(Some(p)) => match spec_slot_by_port(cfg, p) {
                None => rfail(s, active_failed_message(rollback_port_mismatch_message(p))),
                Some(a) => (
                    RollbackView {
                        phase: RollbackPhase::TargetExists,
                        active: a,
                        target: a.spec_other(),
                        ..s
                    },
                    seq![],
                    DeployActionView::CheckContainer(a.spec_other()),
                ),
            },
        },
        (RollbackPhase::TargetExists, DeployEventView::ContainerExists(r)) => match r {
            Err(err) => rfail(s, target_failed_message(err)),
            Ok(true) => rgo(
                s,
                RollbackPhase::TargetRunning,
                seq![],
                DeployActionView::CheckRunning(s.target),
            ),
            Ok(false) => rgo(
                s,
                RollbackPhase::Starting,
                seq![running_older_message(s.target, cfg)],
                DeployActionView::RunOlderContainer(s.target),
            ),
        },
        (RollbackPhase::TargetRunning, DeployEventView::Running(r)) => match r {
            Err(err) => rfail(s, target_failed_message(err)),
            Ok(false) => rgo(
                s,
                RollbackPhase::Starting,
                seq![restarting_message(s.target, cfg)],
                DeployActionView::StartContainer(s.target),
            ),
            Ok(true) => rgo(
                s,
                RollbackPhase::Starting,
                seq![running_older_message(s.target, cfg)],
                DeployActionView::RunOlderContainer(s.target),
            ),
        },
        (RollbackPhase::Starting, DeployEventView::Started(r)) => match r {
            Err(err) => rfail(s, start_failed_message(err)),
            Ok(()) => rgo(
                s,
                RollbackPhase::Health,
                seq![waiting_message(cfg.health_timeout_secs)],
                DeployActionView::WaitHealthy(s.target),
            ),
        },
        (RollbackPhase::Health, DeployEventView::Health(r)) => match r {
            Err(err) => stop_then_fail(s, target_not_ready_message(err)),
            Ok(had) => rgo(
                RollbackView { had_healthcheck: had, ..s },
                RollbackPhase::Writing,
                seq![switching_message()],
                DeployActionView::WriteCaddy(s.target.spec_config(cfg).host_port),
            ),
        },
        (RollbackPhase::Writing, DeployEventView::CaddyWritten(r)) => match r {
            Err(err) => stop_then_fail(s, rollback_write_failed_message(err)),
            Ok(old) => rgo(
                RollbackView { old_caddy: old, ..s },
                RollbackPhase::Reloading,
                seq![],
                DeployActionView::ReloadCaddy,
            ),
        },
        (RollbackPhase::Reloading, DeployEventView::Reloaded(r)) => match r {
            Err(err) => rgo(
                RollbackView { pending: rollback_reload_failed_message(err), ..s },
                RollbackPhase::Restoring,
                seq![],
                DeployActionView::RestoreCaddy(s.old_caddy),
            ),
            Ok(()) => rgo(
                s,
                RollbackPhase::StoppingOld,
                seq![stopping_message(s.active, cfg)],
                DeployActionView::StopContainer(s.active),
            ),
        },
        (RollbackPhase::Restoring, DeployEventView::Restored) => rgo(
            s,
            RollbackPhase::ReloadingAgain,
            seq![],
            DeployActionView::ReloadCaddy,
        ),
        (RollbackPhase::ReloadingAgain, DeployEventView::Reloaded(_)) => stop_then_fail(s, s.pending),
        (RollbackPhase::StoppingThenFail, DeployEventView::Stopped(_)) => rfail(s, s.pending),
        (RollbackPhase::StoppingOld, DeployEventView::Stopped(r)) => match r {
            Ok(()) => rgo(s, RollbackPhase::Swapping, seq![swapping_message()], DeployActionView::SwapTags),
            Err(err) => rgo(
                s,
                RollbackPhase::Swapping,
                seq![stop_failed_message(err, s.active.spec_config(cfg).name@), swapping_message()],
                DeployActionView::SwapTags,
            ),
        },
        (RollbackPhase::Swapping, DeployEventView::Swapped(r)) => match r {
            Ok(()) => rsucceed(cfg, s, seq![]),
            Err(err) => rsucceed(cfg, s, seq![swap_failed_message(err)]),
        },
        _ => (s, seq![], DeployActionView::Finish(Ok(()))),
    }
}


fn no_older_text(image: &String) -> (r: String)
    ensures
        r@ == no_older_message(image@),
{
    let mut m = chars_of("没有可回滚的版本（");
    push_str(&mut m, image.as_str());
    push_str(&mut m, " 不存在）");
    string_of(&m)
}

fn port_mismatch_text(port: u16) -> (r: String)
    ensures
        r@ == rollback_port_mismatch_message(port),
{
    let mut m = chars_of("Caddy 端口 ");
    append(&mut m, &u64_decimal(port as u64));
    push_str(&mut m, " 与配置的槽位端口不匹配，请人工处理后再回滚");
    string_of(&m)
}

fn restarting_text(slot: SlotId, cfg: &DeployConfig) -> (r: String)
    ensures
        r@ == restarting_message(slot, *cfg),
{
    let mut m = chars_of("正在重启槽位 ");
    push_str(&mut m, slot.label());
    push_str(&mut m, "（");
    push_str(&mut m, slot.config(cfg).name.as_str());
    push_str(&mut m, "）…");
    string_of(&m)
}

fn running_older_text(slot: SlotId, cfg: &DeployConfig) -> (r: String)
    ensures
        r@ == running_older_message(slot, *cfg),
{
    let c = slot.config(cfg);
    let mut m = chars_of("正在用 ");
    push_str(&mut m, cfg.older_image.as_str());
    push_str(&mut m, " 启动槽位 ");
    push_str(&mut m, slot.label());
    push_str(&mut m, "（");
    push_str(&mut m, c.name.as_str());
    push_str(&mut m, "，端口 ");
    append(&mut m, &u64_decimal(c.host_port as u64));
    push_str(&mut m, "）…");
    string_of(&m)
}

fn rollback_success_text(slot: SlotId, cfg: &DeployConfig, had_healthcheck: bool) -> (r: String)
    ensures
        r@ == rollback_success_message(slot, *cfg, had_healthcheck),
{
    let c = slot.config(cfg);
    let mut m = chars_of("回滚成功\n当前槽位: ");
    push_str(&mut m, slot.label());
    push_str(&mut m, " (");
    push_str(&mut m, c.name.as_str());
    push_str(&mut m, ")\n端口: ");
    append(&mut m, &u64_decimal(c.host_port as u64));
    let ghost before = m@;
    if !had_healthcheck {
        push_str(&mut m, "\n（容器无 HEALTHCHECK，已按 running 视为就绪）");
    } else {
        assert(m@ == before + Seq::<char>::empty());
    }
    string_of(&m)
}

pub type RollbackStepped = (RollbackRun, DeployStep);

pub open spec fn rollback_stepped_view(r: RollbackStepped) -> RollbackStepView {
    (r.0@, string_views(r.1.replies@), r.1.action@)
}

impl RollbackRun {
    #[verifier::type_invariant]
    spec fn inv(self) -> bool {
        rollback_wf(self@)
    }

    /// A rollback that has not begun.
    pub fn new() -> (r: RollbackRun)
        ensures
            r@.phase == RollbackPhase::Ready,
    {
        RollbackRun {
            phase: RollbackPhase::Ready,
            active: SlotId::A,
            target: SlotId::B,
            had_healthcheck: false,
            old_caddy: None,
            pending: String::new(),
        }
    }

    /// Whether the rollback waits for `e`.
    pub fn accepts(&self, e: &DeployEvent) -> (r: bool)
        ensures
            r == rollback_expects(self@.phase, e@),
    {
        match (self.phase, e) {
            (RollbackPhase::Ready, DeployEvent::Begin) => true,
            (RollbackPhase::OlderExists, DeployEvent::ImageExists(_)) => true,
            (RollbackPhase::ActivePort, DeployEvent::ActivePort(_)) => true,
            (RollbackPhase::TargetExists, DeployEvent::ContainerExists(_)) => true,
            (RollbackPhase::TargetRunning, DeployEvent::Running(_)) => true,
            (RollbackPhase::Starting, DeployEvent::Started(_)) => true,
            (RollbackPhase::Health, DeployEvent::Health(_)) => true,
            (RollbackPhase::Writing, DeployEvent::CaddyWritten(_)) => true,
            (RollbackPhase::Reloading, DeployEvent::Reloaded(_)) => true,
            (RollbackPhase::Restoring, DeployEvent::Restored) => true,
            (RollbackPhase::ReloadingAgain, DeployEvent::Reloaded(_)) => true,
            (RollbackPhase::StoppingThenFail, DeployEvent::Stopped(_)) => true,
            (RollbackPhase::StoppingOld, DeployEvent::Stopped(_)) => true,
            (RollbackPhase::Swapping, DeployEvent::Swapped(_)) => true,
            _ => false,
        }
    }

    /// Whether the rollback is over.
    pub fn is_finished(&self) -> (r: bool)
        ensures
            r == (self@.phase == RollbackPhase::Finished),
    {
        match self.phase {
            RollbackPhase::Finished => true,
            _ => false,
        }
    }

    fn go(self, phase: RollbackPhase, replies: Vec<String>, action: DeployAction) -> (r: RollbackStepped)
        requires
            rollback_wf(self@),
        ensures
            rollback_stepped_view(r) == rgo(self@, phase, string_views(replies@), action@),
    {
        (RollbackRun { phase, ..self }, DeployStep { replies, action })
    }

    fn fail(self, msg: String) -> (r: RollbackStepped)
        requires
            rollback_wf(self@),
        ensures
            rollback_stepped_view(r) == rfail(self@, msg@),
    {
        let replies = one(msg.clone());
        (RollbackRun { phase: RollbackPhase::Finished, ..self }, DeployStep {
            replies,
            action: DeployAction::Finish(Err(msg)),
        })
    }

    fn stop_then_fail(self, msg: String) -> (r: RollbackStepped)
        requires
            rollback_wf(self@),
        ensures
            rollback_stepped_view(r) == stop_then_fail(self@, msg@),
    {
        let slot = self.target;
        (RollbackRun { phase: RollbackPhase::StoppingThenFail, pending: msg, ..self }, DeployStep {
            replies: none(),
            action: DeployAction::StopContainer(slot),
        })
    }

    fn succeed(self, cfg: &DeployConfig, first: Vec<String>) -> (r: RollbackStepped)
        requires
            rollback_wf(self@),
        ensures
            rollback_stepped_view(r) == rsucceed(*cfg, self@, string_views(first@)),
    {
        let mut replies = first;
        let ghost before = replies@;
        let m = rollback_success_text(self.target, cfg, self.had_healthcheck);
        replies.push(m);
        assert(string_views(replies@) =~= string_views(before).push(m@));
        (RollbackRun { phase: RollbackPhase::Finished, ..self }, DeployStep {
            replies,
            action: DeployAction::Finish(Ok(())),
        })
    }

    /// Advances the rollback by one event: its next state, the messages to send and the
    /// next operation.
    pub fn step(self, cfg: &DeployConfig, e: DeployEvent) -> (r: RollbackStepped)
        requires
            rollback_expects(self@.phase, e@),
        ensures
            rollback_stepped_view(r) == rollback_next(*cfg, self@, e@),
    {
        proof {
            use_type_invariant(&self);
        }
        match self.phase {
            RollbackPhase::Ready | RollbackPhase::OlderExists | RollbackPhase::ActivePort
            | RollbackPhase::TargetExists | RollbackPhase::TargetRunning => self.on_choose(cfg, e),
            RollbackPhase::Starting | RollbackPhase::Health | RollbackPhase::Writing => self.on_start(
                cfg,
                e,
            ),
            _ => self.on_switch(cfg, e),
        }
    }

    fn on_choose(self, cfg: &DeployConfig, e: DeployEvent) -> (r: RollbackStepped)
        requires
            rollback_wf(self@),
            rollback_expects(self@.phase, e@),
            self@.phase == RollbackPhase::Ready || self@.phase == RollbackPhase::OlderExists
                || self@.phase == RollbackPhase::ActivePort || self@.phase
                == RollbackPhase::TargetExists || self@.phase == RollbackPhase::TargetRunning,
        ensures
            rollback_stepped_view(r) == rollback_next(*cfg, self@, e@),
    {
        match e {
            DeployEvent::Begin => {
                let replies = one(text("正在检查可回滚版本…"));
                self.go(RollbackPhase::OlderExists, replies, DeployAction::CheckOlderImage)
            },
            DeployEvent::ImageExists(r) => match r {
                Err(err) => self.fail(with_brief("检查可回滚版本失败\n", &err, 300)),
                Ok(false) => {
                    let m = no_older_text(&cfg.older_image);
                    self.fail(m)
                },
                Ok(true) => self.go(RollbackPhase::ActivePort, none(), DeployAction::ReadActivePort),
            },
            DeployEvent::ActivePort(r) => match r {
                Err(err) => self.fail(with_brief("槽位选择失败\n", &err, 300)),
                Ok(None) => self.fail(with_brief(
                    "槽位选择失败\n",
                    &text("无法从 Caddy import 文件解析当前端口，请人工处理后再回滚"),
                    300,
                )),
                Ok(Some(p)) => match slot_by_port(cfg, p) {
                    None => self.fail(with_brief("槽位选择失败\n", &port_mismatch_text(p), 300)),
                    Some(a) => {
                        let t = a.other();
                        (RollbackRun {
                            phase: RollbackPhase::TargetExists,
                            active: a,
                            target: t,
                            ..self
                        }, DeployStep { replies: none(), action: DeployAction::CheckContainer(t) })
                    },
                },
            },
            DeployEvent::ContainerExists(r) => match r {
                Err(err) => self.fail(with_brief("检查目标槽位失败\n", &err, 300)),
                Ok(true) => {
                    let t = self.target;
                    self.go(RollbackPhase::TargetRunning, none(), DeployAction::CheckRunning(t))
                },
                Ok(false) => {
                    let t = self.target;
                    let replies = one(running_older_text(t, cfg));
                    self.go(RollbackPhase::Starting, replies, DeployAction::RunOlderContainer(t))
                },
            },
            DeployEvent::Running(r) => match r {
                Err(err) => self.fail(with_brief("检查目标槽位失败\n", &err, 300)),
                Ok(false) => {
                    let t = self.target;
                    let replies = one(restarting_text(t, cfg));
                    self.go(RollbackPhase::Starting, replies, DeployAction::StartContainer(t))
                },
                Ok(true) => {
                    let t = self.target;
                    let replies = one(running_older_text(t, cfg));
                    self.go(RollbackPhase::Starting, replies, DeployAction::RunOlderContainer(t))
                },
            },
            _ => self.fail(String::new()),
        }
    }

    fn on_start(self, cfg: &DeployConfig, e: DeployEvent) -> (r: RollbackStepped)
        requires
            rollback_wf(self@),
            rollback_expects(self@.phase, e@),
            self@.phase == RollbackPhase::Starting || self@.phase == RollbackPhase::Health
                || self@.phase == RollbackPhase::Writing,
        ensures
            rollback_stepped_view(r) == rollback_next(*cfg, self@, e@),
    {
        match e {
            DeployEvent::Started(r) => match r {
                Err(err) => self.fail(with_brief("启动容器失败\n", &err, 300)),
                Ok(()) => {
                    let t = self.target;
                    let replies = one(waiting_text(cfg.health_timeout_secs));
                    self.go(RollbackPhase::Health, replies, DeployAction::WaitHealthy(t))
                },
            },
            DeployEvent::Health(r) => match r {
                Err(err) => self.stop_then_fail(
                    with_brief("回滚目标未就绪，已停止目标槽，未切换流量\n", &err, 300),
                ),
                Ok(had) => {
                    let port = self.target.config(cfg).host_port;
                    let replies = one(text("正在切换 Caddy 流量…"));
                    let run = RollbackRun { had_healthcheck: had, ..self };
                    run.go(RollbackPhase::Writing, replies, DeployAction::WriteCaddy(port))
                },
            },
            DeployEvent::CaddyWritten(r) => match r {
                Err(err) => self.stop_then_fail(
                    with_brief("写入 Caddy 配置失败，已停止目标槽\n", &err, 300),
                ),
                Ok(old) => {
                    let run = RollbackRun { old_caddy: old, ..self };
                    run.go(RollbackPhase::Reloading, none(), DeployAction::ReloadCaddy)
                },
            },
            _ => self.fail(String::new()),
        }
    }

    fn on_switch(self, cfg: &DeployConfig, e: DeployEvent) -> (r: RollbackStepped)
        requires
            rollback_wf(self@),
            rollback_expects(self@.phase, e@),
            self@.phase == RollbackPhase::Reloading || self@.phase == RollbackPhase::Restoring
                || self@.phase == RollbackPhase::ReloadingAgain || self@.phase
                == RollbackPhase::StoppingThenFail || self@.phase == RollbackPhase::StoppingOld
                || self@.phase == RollbackPhase::Swapping,
        ensures
            rollback_stepped_view(r) == rollback_next(*cfg, self@, e@),
    {
        match e {
            DeployEvent::Reloaded(r) => match self.phase {
                RollbackPhase::Reloading => match r {
                    Err(err) => {
                        let m = with_brief(
                            "Caddy reload 失败，已尝试恢复配置并停止目标槽\n",
                            &err,
                            300,
                        );
                        let keep = self.old_caddy.clone();
                        proof {
                            assert(keep == self.old_caddy);
                        }
                        let run = RollbackRun { pending: m, ..self };
                        run.go(RollbackPhase::Restoring, none(), DeployAction::RestoreCaddy(keep))
                    },
                    Ok(()) => {
                        let a = self.active;
                        let replies = one(stopping_text(a, cfg));
                        self.go(RollbackPhase::StoppingOld, replies, DeployAction::StopContainer(a))
                    },
                },
                _ => {
                    let m = self.pending.clone();
                    self.stop_then_fail(m)
                },
            },
            DeployEvent::Restored => self.go(
                RollbackPhase::ReloadingAgain,
                none(),
                DeployAction::ReloadCaddy,
            ),
            DeployEvent::Stopped(r) => match self.phase {
                RollbackPhase::StoppingThenFail => {
                    let m = self.pending.clone();
                    self.fail(m)
                },
                _ => match r {
                    Ok(()) => {
                        let replies = one(text("正在交换镜像标签…"));
                        self.go(RollbackPhase::Swapping, replies, DeployAction::SwapTags)
                    },
                    Err(err) => {
                        let first = stop_failed_text(&err, &self.active.config(cfg).name);
                        let mut replies = one(first);
                        let ghost before = replies@;
                        let second = text("正在交换镜像标签…");
                        replies.push(second);
                        assert(string_views(replies@) =~= string_views(before).push(second@));
                        self.go(RollbackPhase::Swapping, replies, DeployAction::SwapTags)
                    },
                },
            },
            DeployEvent::Swapped(r) => match r {
                Ok(()) => self.succeed(cfg, none()),
                Err(err) => {
                    let first = one(with_brief("流量已切换，但交换镜像标签失败: ", &err, 200));
                    self.succeed(cfg, first)
                },
            },
            _ => self.fail(String::new()),
        }
    }
}

} // verus!
