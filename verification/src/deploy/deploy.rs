//! The rollout: which slot receives the new version, and the step-by-step decisions of a
//! deployment.

use vstd::prelude::*;
use crate::deploy::config::{DeployConfig, SlotConfig};
use crate::deploy::docker::string_views;
use crate::text::{append, brief, brief_of, chars_of, decimal, equal, push_str, string_of, u64_decimal};

verus! {

/// One of the two container slots.
#[derive(Debug, Clone, Copy, PartialEq, Eq, Structural)]
pub enum SlotId {
    A,
    B,
}

impl SlotId {
    pub open spec fn spec_other(self) -> SlotId {
        match self {
            SlotId::A => SlotId::B,
            SlotId::B => SlotId::A,
        }
    }

    /// The other slot.
    pub fn other(self) -> (r: SlotId)
        ensures
            r == self.spec_other(),
    {
        match self {
            SlotId::A => SlotId::B,
            SlotId::B => SlotId::A,
        }
    }

    pub open spec fn spec_label(self) -> Seq<char> {
        match self {
            SlotId::A => "a"@,
            SlotId::B => "b"@,
        }
    }

    /// The slot's name in messages: `a` or `b`.
    pub fn label(self) -> (r: &'static str)
        ensures
            r@ == self.spec_label(),
    {
        match self {
            SlotId::A => "a",
            SlotId::B => "b",
        }
    }

    pub open spec fn spec_config(self, cfg: DeployConfig) -> SlotConfig {
        match self {
            SlotId::A => cfg.docker_run.slots.a,
            SlotId::B => cfg.docker_run.slots.b,
        }
    }

    /// The configuration of this slot.
    pub fn config(self, cfg: &DeployConfig) -> (r: &SlotConfig)
        ensures
            *r == self.spec_config(*cfg),
    {
        match self {
            SlotId::A => &cfg.docker_run.slots.a,
            SlotId::B => &cfg.docker_run.slots.b,
        }
    }
}

pub open spec fn spec_slot_by_port(cfg: DeployConfig, port: u16) -> Option<SlotId> {
    if cfg.docker_run.slots.a.host_port == port {
        Some(SlotId::A)
    } else if cfg.docker_run.slots.b.host_port == port {
        Some(SlotId::B)
    } else {
        None
    }
}

/// The slot whose host port is `port`; slot `a` when both have it.
pub fn slot_by_port(cfg: &DeployConfig, port: u16) -> (r: Option<SlotId>)
    ensures
        r == spec_slot_by_port(*cfg, port),
{
    if cfg.docker_run.slots.a.host_port == port {
        Some(SlotId::A)
    } else if cfg.docker_run.slots.b.host_port == port {
        Some(SlotId::B)
    } else {
        None
    }
}


/// Which new slot to start and which running slot to stop after the switch, as chosen from
/// whether the slots run; `None` when both run, so the active port has to be read.
pub open spec fn spec_pick_by_running(a_run: bool, b_run: bool) -> Option<(SlotId, Option<SlotId>)> {
    if a_run && !b_run {
        Some((SlotId::B, Some(SlotId::A)))
    } else if !a_run && b_run {
        Some((SlotId::A, Some(SlotId::B)))
    } else if !a_run && !b_run {
        Some((SlotId::A, None))
    } else {
        None
    }
}

/// The slots chosen from which slots run.
pub fn pick_by_running(a_run: bool, b_run: bool) -> (r: Option<(SlotId, Option<SlotId>)>)
    ensures
        r == spec_pick_by_running(a_run, b_run),
{
    if a_run && !b_run {
        Some((SlotId::B, Some(SlotId::A)))
    } else if !a_run && b_run {
        Some((SlotId::A, Some(SlotId::B)))
    } else if !a_run && !b_run {
        Some((SlotId::A, None))
    } else {
        None
    }
}

pub open spec fn no_port_message() -> Seq<char> {
    "a/b 槽均在运行，且无法从 Caddy import 文件解析当前端口，请人工处理后再部署"@
}

pub open spec fn port_mismatch_message(port: u16) -> Seq<char> {
    "a/b 槽均在运行，Caddy 端口 "@ + decimal(port as nat) + " 与配置的槽位端口不匹配，请人工处理后再部署"@
}

/// When both slots run: the slot serving the active port is the old one, the other is new.
pub open spec fn spec_pick_by_port(cfg: DeployConfig, port: Option<u16>) -> Result<
    (SlotId, Option<SlotId>),
    Seq<char>,
> {
    match port {
        None => Err(no_port_message()),
        Some(p) => match spec_slot_by_port(cfg, p) {
            None => Err(port_mismatch_message(p)),
            Some(active) => Ok((active.spec_other(), Some(active))),
        },
    }
}

/// The slots chosen, when both run, from the port that the Caddy import file proxies to.
pub fn pick_by_port(cfg: &DeployConfig, port: Option<u16>) -> (r: Result<
    (SlotId, Option<SlotId>),
    String,
>)
    ensures
        match spec_pick_by_port(*cfg, port) {
            Ok(v) => r == Ok::<(SlotId, Option<SlotId>), String>(v),
            Err(m) => r matches Err(e) && e@ == m,
        },
{
    match port {
        None => Err(string_of(&chars_of(
            "a/b 槽均在运行，且无法从 Caddy import 文件解析当前端口，请人工处理后再部署",
        ))),
        Some(p) => match slot_by_port(cfg, p) {
            None => {
                let mut m: Vec<char> = Vec::new();
                push_str(&mut m, "a/b 槽均在运行，Caddy 端口 ");
                append(&mut m, &u64_decimal(p as u64));
                push_str(&mut m, " 与配置的槽位端口不匹配，请人工处理后再部署");
                Err(string_of(&m))
            },
            Some(active) => Ok((active.other(), Some(active))),
        },
    }
}

/// Seconds to wait before pull attempt `attempt + 1`: `min(2^(attempt-1), 30)`, with the
/// power taken modulo 2^64 as `u64::pow` computes it without overflow checks.
pub open spec fn spec_backoff(attempt: u32) -> u64 {
    if attempt <= 1 {
        1
    } else if attempt == 2 {
        2
    } else if attempt == 3 {
        4
    } else if attempt == 4 {
        8
    } else if attempt == 5 {
        16
    } else if attempt <= 64 {
        30
    } else {
        0
    }
}

pub fn backoff_secs(attempt: u32) -> (r: u64)
    ensures
        r == spec_backoff(attempt),
{
    if attempt <= 1 {
        1
    } else if attempt == 2 {
        2
    } else if attempt == 3 {
        4
    } else if attempt == 4 {
        8
    } else if attempt == 5 {
        16
    } else if attempt <= 64 {
        30
    } else {
        0
    }
}


/// What a deployment run waits for.
#[derive(Debug, Clone, Copy, PartialEq, Eq, Structural)]
pub enum Phase {
    Ready,
    LocalDigest,
    RemoteDigest,
    Pulling,
    Sleeping,
    ImageExists,
    TagOlder,
    TagLocal,
    RunningA,
    RunningB,
    ActivePort,
    Starting,
    Health,
    Writing,
    Reloading,
    Restoring,
    ReloadingAgain,
    RemovingThenFail,
    StoppingOld,
    Finished,
}

/// Which image tag is moved.
#[derive(Debug, Clone, Copy, PartialEq, Eq, Structural)]
pub enum TagMove {
    /// `local_image` is tagged as `older_image`.
    LocalToOlder,
    /// `remote_image` is tagged as `local_image`.
    RemoteToLocal,
}

/// What the caller reports after performing an action.
#[derive(Debug)]
pub enum DeployEvent {
    Begin,
    LocalDigest(Result<Option<String>, String>),
    RemoteDigest(Result<String, String>),
    Pulled(Result<(), String>),
    Slept,
    ImageExists(Result<bool, String>),
    Tagged(Result<(), String>),
    Running(Result<bool, String>),
    ActivePort(Result<Option<u16>, String>),
    Started(Result<(), String>),
    Health(Result<bool, String>),
    Removed,
    CaddyWritten(Result<Option<String>, String>),
    Reloaded(Result<(), String>),
    Restored,
    Stopped(Result<(), String>),
    ContainerExists(Result<bool, String>),
    Swapped(Result<(), String>),
}

/// The operation the caller performs next.
#[derive(Debug, PartialEq, Eq)]
pub enum DeployAction {
    /// `docker::local_image_digest(local_image)`, answered by `LocalDigest`.
    CheckLocalDigest,
    /// `docker::remote_image_digest(remote_image)`, answered by `RemoteDigest`.
    CheckRemoteDigest,
    /// `docker::pull_image(remote_image)`, answered by `Pulled`.
    Pull,
    /// Sleep this many seconds, answered by `Slept`.
    Sleep(u64),
    /// `docker::image_exists(local_image)`, answered by `ImageExists`.
    CheckImageExists,
    /// `docker::tag_image`, answered by `Tagged`.
    Tag(TagMove),
    /// `docker::is_container_running` of the slot's container, answered by `Running`.
    CheckRunning(SlotId),
    /// `caddy::read_active_port(caddy_import_file)`, answered by `ActivePort`.
    ReadActivePort,
    /// `docker::run_container` in the slot with `local_image`, answered by `Started`.
    RunContainer(SlotId),
    /// `docker::wait_until_healthy` of the slot's container, answered by `Health`.
    WaitHealthy(SlotId),
    /// `docker::stop_and_rm_container` of the slot's container, answered by `Removed`.
    RemoveContainer(SlotId),
    /// `caddy::write_import_file` for this host port, answered by `CaddyWritten`.
    WriteCaddy(u16),
    /// `caddy::reload_caddy`, answered by `Reloaded`.
    ReloadCaddy,
    /// `caddy::restore_import_file` with this former content, answered by `Restored`.
    RestoreCaddy(Option<String>),
    /// `docker::stop_container` of the slot's container, answered by `Stopped`.
    StopContainer(SlotId),
    /// `docker::image_exists(older_image)`, answered by `ImageExists`.
    CheckOlderImage,
    /// `docker::container_exists` of the slot's container, answered by `ContainerExists`.
    CheckContainer(SlotId),
    /// `docker::start_container` of the slot's stopped container, answered by `Started`.
    StartContainer(SlotId),
    /// `docker::run_container` in the slot with `older_image`, answered by `Started`.
    RunOlderContainer(SlotId),
    /// `docker::swap_image_tags(local_image, older_image)`, answered by `Swapped`.
    SwapTags,
    /// The run is over, with this outcome.
    Finish(Result<(), String>),
}

/// The messages to send to the group, in order, then the next operation.
#[derive(Debug)]
pub struct DeployStep {
    pub replies: Vec<String>,
    pub action: DeployAction,
}

/// A deployment run in progress.
pub struct DeployRun {
    phase: Phase,
    attempt: u32,
    retries: u32,
    last_err: String,
    new_slot: SlotId,
    old_slot: Option<SlotId>,
    a_running: bool,
    had_healthcheck: bool,
    old_caddy: Option<String>,
    pending: String,
}

pub ghost enum DeployEventView {
    Begin,
    LocalDigest(Result<Option<Seq<char>>, Seq<char>>),
    RemoteDigest(Result<Seq<char>, Seq<char>>),
    Pulled(Result<(), Seq<char>>),
    Slept,
    ImageExists(Result<bool, Seq<char>>),
    Tagged(Result<(), Seq<char>>),
    Running(Result<bool, Seq<char>>),
    ActivePort(Result<Option<u16>, Seq<char>>),
    Started(Result<(), Seq<char>>),
    Health(Result<bool, Seq<char>>),
    Removed,
    CaddyWritten(Result<Option<Seq<char>>, Seq<char>>),
    Reloaded(Result<(), Seq<char>>),
    Restored,
    Stopped(Result<(), Seq<char>>),
    ContainerExists(Result<bool, Seq<char>>),
    Swapped(Result<(), Seq<char>>),
}

pub ghost enum DeployActionView {
    CheckLocalDigest,
    CheckRemoteDigest,
    Pull,
    Sleep(u64),
    CheckImageExists,
    Tag(TagMove),
    CheckRunning(SlotId),
    ReadActivePort,
    RunContainer(SlotId),
    WaitHealthy(SlotId),
    RemoveContainer(SlotId),
    WriteCaddy(u16),
    ReloadCaddy,
    RestoreCaddy(Option<Seq<char>>),
    StopContainer(SlotId),
    CheckOlderImage,
    CheckContainer(SlotId),
    StartContainer(SlotId),
    RunOlderContainer(SlotId),
    SwapTags,
    Finish(Result<(), Seq<char>>),
}

pub ghost struct DeployRunView {
    pub phase: Phase,
    pub attempt: u32,
    pub retries: u32,
    pub last_err: Seq<char>,
    pub new_slot: SlotId,
    pub old_slot: Option<SlotId>,
    pub a_running: bool,
    pub had_healthcheck: bool,
    pub old_caddy: Option<Seq<char>>,
    pub pending: Seq<char>,
}

pub open spec fn res_view<T>(r: Result<T, String>) -> Result<T, Seq<char>> {
    match r {
        Ok(v) => Ok(v),
        Err(e) => Err(e@),
    }
}

impl View for DeployEvent {
    type V = DeployEventView;

    open spec fn view(&self) -> DeployEventView {
        match self {
            DeployEvent::Begin => DeployEventView::Begin,
            DeployEvent::LocalDigest(r) => DeployEventView::LocalDigest(
                match r {
                    Ok(Some(d)) => Ok(Some(d@)),
                    Ok(None) => Ok(None),
                    Err(e) => Err(e@),
                },
            ),
            DeployEvent::RemoteDigest(r) => DeployEventView::RemoteDigest(
                match r {
                    Ok(d) => Ok(d@),
                    Err(e) => Err(e@),
                },
            ),
            DeployEvent::Pulled(r) => DeployEventView::Pulled(res_view(*r)),
            DeployEvent::Slept => DeployEventView::Slept,
            DeployEvent::ImageExists(r) => DeployEventView::ImageExists(res_view(*r)),
            DeployEvent::Tagged(r) => DeployEventView::Tagged(res_view(*r)),
            DeployEvent::Running(r) => DeployEventView::Running(res_view(*r)),
            DeployEvent::ActivePort(r) => DeployEventView::ActivePort(res_view(*r)),
            DeployEvent::Started(r) => DeployEventView::Started(res_view(*r)),
            DeployEvent::Health(r) => DeployEventView::Health(res_view(*r)),
            DeployEvent::Removed => DeployEventView::Removed,
            DeployEvent::CaddyWritten(r) => DeployEventView::CaddyWritten(
                match r {
                    Ok(Some(d)) => Ok(Some(d@)),
                    Ok(None) => Ok(None),
                    Err(e) => Err(e@),
                },
            ),
            DeployEvent::Reloaded(r) => DeployEventView::Reloaded(res_view(*r)),
            DeployEvent::Restored => DeployEventView::Restored,
            DeployEvent::Stopped(r) => DeployEventView::Stopped(res_view(*r)),
            DeployEvent::ContainerExists(r) => DeployEventView::ContainerExists(res_view(*r)),
            DeployEvent::Swapped(r) => DeployEventView::Swapped(res_view(*r)),
        }
    }
}

impl View for DeployAction {
    type V = DeployActionView;

    open spec fn view(&self) -> DeployActionView {
        match self {
            DeployAction::CheckLocalDigest => DeployActionView::CheckLocalDigest,
            DeployAction::CheckRemoteDigest => DeployActionView::CheckRemoteDigest,
            DeployAction::Pull => DeployActionView::Pull,
            DeployAction::Sleep(n) => DeployActionView::Sleep(*n),
            DeployAction::CheckImageExists => DeployActionView::CheckImageExists,
            DeployAction::Tag(t) => DeployActionView::Tag(*t),
            DeployAction::CheckRunning(x) => DeployActionView::CheckRunning(*x),
            DeployAction::ReadActivePort => DeployActionView::ReadActivePort,
            DeployAction::RunContainer(x) => DeployActionView::RunContainer(*x),
            DeployAction::WaitHealthy(x) => DeployActionView::WaitHealthy(*x),
            DeployAction::RemoveContainer(x) => DeployActionView::RemoveContainer(*x),
            DeployAction::WriteCaddy(p) => DeployActionView::WriteCaddy(*p),
            DeployAction::ReloadCaddy => DeployActionView::ReloadCaddy,
            DeployAction::RestoreCaddy(o) => DeployActionView::RestoreCaddy(
                match o {
                    Some(c) => Some(c@),
                    None => None,
                },
            ),
            DeployAction::StopContainer(x) => DeployActionView::StopContainer(*x),
            DeployAction::CheckOlderImage => DeployActionView::CheckOlderImage,
            DeployAction::CheckContainer(x) => DeployActionView::CheckContainer(*x),
            DeployAction::StartContainer(x) => DeployActionView::StartContainer(*x),
            DeployAction::RunOlderContainer(x) => DeployActionView::RunOlderContainer(*x),
            DeployAction::SwapTags => DeployActionView::SwapTags,
            DeployAction::Finish(r) => DeployActionView::Finish(res_view(*r)),
        }
    }
}

impl View for DeployRun {
    type V = DeployRunView;

    closed spec fn view(&self) -> DeployRunView {
        DeployRunView {
            phase: self.phase,
            attempt: self.attempt,
            retries: self.retries,
            last_err: self.last_err@,
            new_slot: self.new_slot,
            old_slot: self.old_slot,
            a_running: self.a_running,
            had_healthcheck: self.had_healthcheck,
            old_caddy: match self.old_caddy {
                Some(c) => Some(c@),
                None => None,
            },
            pending: self.pending@,
        }
    }
}

pub open spec fn check_message() -> Seq<char> {
    "正在检查镜像更新…"@
}

pub open spec fn no_update_message() -> Seq<char> {
    "没有可用的更新（本地与远端镜像一致）"@
}

pub open spec fn check_failed_message(e: Seq<char>) -> Seq<char> {
    "检查镜像失败\n"@ + brief(e, 300)
}

pub open spec fn pulling_message(attempt: u32, retries: u32, image: Seq<char>) -> Seq<char> {
    "正在拉取镜像 ("@ + decimal(attempt as nat) + "/"@ + decimal(retries as nat) + ")…\n"@ + image
}

pub open spec fn retry_message(backoff: u64, e: Seq<char>) -> Seq<char> {
    "拉取失败，"@ + decimal(backoff as nat) + "s 后重试…\n"@ + brief(e, 200)
}

pub open spec fn pull_failed_message(retries: u32, e: Seq<char>) -> Seq<char> {
    "镜像拉取失败（已重试 "@ + decimal(retries as nat) + " 次）\n"@ + brief(e, 300)
}

pub open spec fn tagging_message() -> Seq<char> {
    "正在更新本地镜像标签…"@
}

pub open spec fn tag_failed_message(e: Seq<char>) -> Seq<char> {
    "镜像打标失败\n"@ + brief(e, 300)
}

pub open spec fn slot_failed_message(e: Seq<char>) -> Seq<char> {
    "槽位选择失败\n"@ + brief(e, 300)
}

pub open spec fn starting_message(slot: SlotId, cfg: DeployConfig) -> Seq<char> {
    "正在启动槽位 "@ + slot.spec_label() + "（"@ + slot.spec_config(cfg).name@ + "，端口 "@ + decimal(
        slot.spec_config(cfg).host_port as nat,
    ) + "）…"@
}

pub open spec fn start_failed_message(e: Seq<char>) -> Seq<char> {
    "启动容器失败\n"@ + brief(e, 300)
}

pub open spec fn waiting_message(timeout: u64) -> Seq<char> {
    "等待容器健康（超时 "@ + decimal(timeout as nat) + "s）…"@
}

pub open spec fn not_ready_message(e: Seq<char>) -> Seq<char> {
    "新容器未就绪，已停止新容器，未切换流量\n"@ + brief(e, 300)
}

pub open spec fn switching_message() -> Seq<char> {
    "正在切换 Caddy 流量…"@
}

pub open spec fn write_failed_message(e: Seq<char>) -> Seq<char> {
    "写入 Caddy 配置失败，已停止新容器\n"@ + brief(e, 300)
}

pub open spec fn reload_failed_message(e: Seq<char>) -> Seq<char> {
    "Caddy reload 失败，已尝试恢复配置并停止新容器\n"@ + brief(e, 300)
}

pub open spec fn stopping_message(slot: SlotId, cfg: DeployConfig) -> Seq<char> {
    "正在停止旧槽位 "@ + slot.spec_label() + "（"@ + slot.spec_config(cfg).name@ + "）…"@
}

pub open spec fn stop_failed_message(e: Seq<char>, name: Seq<char>) -> Seq<char> {
    "流量已切换，但停止旧容器失败: "@ + brief(e, 200) + "\n请人工检查 "@ + name
}

pub open spec fn success_message(slot: SlotId, cfg: DeployConfig, had_healthcheck: bool) -> Seq<
    char,
> {
    "部署成功\n新槽位: "@ + slot.spec_label() + " ("@ + slot.spec_config(cfg).name@ + ")\n端口: "@
        + decimal(slot.spec_config(cfg).host_port as nat) + if had_healthcheck {
        Seq::<char>::empty()
    } else {
        "\n（容器无 HEALTHCHECK，已按 running 视为就绪）"@
    }
}


pub type StepView = (DeployRunView, Seq<Seq<char>>, DeployActionView);

pub open spec fn go(s: DeployRunView, phase: Phase, replies: Seq<Seq<char>>, a: DeployActionView) -> StepView {
    (DeployRunView { phase, ..s }, replies, a)
}

/// The run ends in failure: the message is sent and becomes the error.
pub open spec fn fail(s: DeployRunView, msg: Seq<char>) -> StepView {
    (DeployRunView { phase: Phase::Finished, ..s }, seq![msg], DeployActionView::Finish(Err(msg)))
}

/// Pull attempt `attempt` begins.
pub open spec fn begin_pull(cfg: DeployConfig, s: DeployRunView, attempt: u32) -> StepView {
    (
        DeployRunView { phase: Phase::Pulling, attempt, ..s },
        seq![pulling_message(attempt, s.retries, cfg.remote_image@)],
        DeployActionView::Pull,
    )
}

/// The container of slot `new` is started; slot `old`, if any, is stopped after the switch.
pub open spec fn start_slot(cfg: DeployConfig, s: DeployRunView, new: SlotId, old: Option<SlotId>) -> StepView {
    (
        DeployRunView { phase: Phase::Starting, new_slot: new, old_slot: old, ..s },
        seq![starting_message(new, cfg)],
        DeployActionView::RunContainer(new),
    )
}

/// The new slot serves the traffic.
pub open spec fn succeed(cfg: DeployConfig, s: DeployRunView, first: Seq<Seq<char>>) -> StepView {
    (
        DeployRunView { phase: Phase::Finished, ..s },
        first.push(success_message(s.new_slot, cfg, s.had_healthcheck)),
        DeployActionView::Finish(Ok(())),
    )
}

/// The first slot of a run is removed, then the run fails with `msg`.
pub open spec fn remove_then_fail(s: DeployRunView, msg: Seq<char>) -> StepView {
    (
        DeployRunView { phase: Phase::RemovingThenFail, pending: msg, ..s },
        seq![],
        DeployActionView::RemoveContainer(s.new_slot),
    )
}

/// The events that a run in `phase` waits for.
pub open spec fn expects(phase: Phase, e: DeployEventView) -> bool {
    match (phase, e) {
        (Phase::Ready, DeployEventView::Begin) => true,
        (Phase::LocalDigest, DeployEventView::LocalDigest(_)) => true,
        (Phase::RemoteDigest, DeployEventView::RemoteDigest(_)) => true,
        (Phase::Pulling, DeployEventView::Pulled(_)) => true,
        (Phase::Sleeping, DeployEventView::Slept) => true,
        (Phase::ImageExists, DeployEventView::ImageExists(_)) => true,
        (Phase::TagOlder, DeployEventView::Tagged(_)) => true,
        (Phase::TagLocal, DeployEventView::Tagged(_)) => true,
        (Phase::RunningA, DeployEventView::Running(_)) => true,
        (Phase::RunningB, DeployEventView::Running(_)) => true,
        (Phase::ActivePort, DeployEventView::ActivePort(_)) => true,
        (Phase::Starting, DeployEventView::Started(_)) => true,
        (Phase::Health, DeployEventView::Health(_)) => true,
        (Phase::Writing, DeployEventView::CaddyWritten(_)) => true,
        (Phase::Reloading, DeployEventView::Reloaded(_)) => true,
        (Phase::Restoring, DeployEventView::Restored) => true,
        (Phase::ReloadingAgain, DeployEventView::Reloaded(_)) => true,
        (Phase::RemovingThenFail, DeployEventView::Removed) => true,
        (Phase::StoppingOld, DeployEventView::Stopped(_)) => true,
        _ => false,
    }
}

/// One step of a deployment: the run's next state, the messages it sends and its next
/// operation, after event `e`.
pub open spec fn deploy_next(cfg: DeployConfig, s: DeployRunView, e: DeployEventView) -> StepView {
    match (s.phase, e) {
        (Phase::Ready, DeployEventView::Begin) => {
            let s1 = DeployRunView {
                retries: if cfg.pull_retries < 1 { 1 } else { cfg.pull_retries },
                attempt: 0,
                ..s
            };
            go(s1, Phase::LocalDigest, seq![check_message()], DeployActionView::CheckLocalDigest)
        },
        (Phase::LocalDigest, DeployEventView::LocalDigest(r)) => match r {
            Err(err) => fail(s, check_failed_message(err)),
            Ok(None) => begin_pull(cfg, s, 1),
            Ok(Some(d)) => go(
                DeployRunView { pending: d, ..s },
                Phase::RemoteDigest,
                seq![],
                DeployActionView::CheckRemoteDigest,
            ),
        },
        (Phase::RemoteDigest, DeployEventView::RemoteDigest(r)) => match r {
            Err(err) => fail(s, check_failed_message(err)),
            Ok(d) => if d == s.pending {
                (
                    DeployRunView { phase: Phase::Finished, ..s },
                    seq![no_update_message()],
                    DeployActionView::Finish(Ok(())),
                )
            } else {
                begin_pull(cfg, s, 1)
            },
        },
        (Phase::Pulling, DeployEventView::Pulled(r)) => match r {
            Ok(()) => go(s, Phase::ImageExists, seq![tagging_message()], DeployActionView::CheckImageExists),
            Err(err) => if s.attempt < s.retries {
                let b = spec_backoff(s.attempt);
                go(
                    DeployRunView { last_err: err, ..s },
                    Phase::Sleeping,
                    seq![retry_message(b, err)],
                    DeployActionView::Sleep(b),
                )
            } else {
                fail(DeployRunView { last_err: err, ..s }, pull_failed_message(s.retries, err))
            },
        },
        (Phase::Sleeping, DeployEventView::Slept) => begin_pull(cfg, s, (s.attempt + 1) as u32),
        (Phase::ImageExists, DeployEventView::ImageExists(r)) => match r {
            Err(err) => fail(s, tag_failed_message(err)),
            Ok(true) => go(s, Phase::TagOlder, seq![], DeployActionView::Tag(TagMove::LocalToOlder)),
            Ok(false) => go(s, Phase::TagLocal, seq![], DeployActionView::Tag(TagMove::RemoteToLocal)),
        },
        (Phase::TagOlder, DeployEventView::Tagged(r)) => match r {
            Err(err) => fail(s, tag_failed_message(err)),
            Ok(()) => go(s, Phase::TagLocal, seq![], DeployActionView::Tag(TagMove::RemoteToLocal)),
        },
        (Phase::TagLocal, DeployEventView::Tagged(r)) => match r {
            Err(err) => fail(s, tag_failed_message(err)),
            Ok(()) => go(s, Phase::RunningA, seq![], DeployActionView::CheckRunning(SlotId::A)),
        },
        (Phase::RunningA, DeployEventView::Running(r)) => match r {
            Err(err) => fail(s, slot_failed_message(err)),
            Ok(a) => go(
                DeployRunView { a_running: a, ..s },
                Phase::RunningB,
                seq![],
                DeployActionView::CheckRunning(SlotId::B),
            ),
        },
        (Phase::RunningB, DeployEventView::Running(r)) => match r {
            Err(err) => fail(s, slot_failed_message(err)),
            Ok(b) => match spec_pick_by_running(s.a_running, b) {
                Some((new, old)) => start_slot(cfg, s, new, old),
                None => go(s, Phase::ActivePort, seq![], DeployActionView::ReadActivePort),
            },
        },
        (Phase::ActivePort, DeployEventView::ActivePort(r)) => match r {
            Err(err) => fail(s, slot_failed_message(err)),
            Ok(port) => match spec_pick_by_port(cfg, port) {
                Err(m) => fail(s, slot_failed_message(m)),
                Ok((new, old)) => start_slot(cfg, s, new, old),
            },
        },
        (Phase::Starting, DeployEventView::Started(r)) => match r {
            Err(err) => fail(s, start_failed_message(err)),
            Ok(()) => go(
                s,
                Phase::Health,
                seq![waiting_message(cfg.health_timeout_secs)],
                DeployActionView::WaitHealthy(s.new_slot),
            ),
        },
        (Phase::Health, DeployEventView::Health(r)) => match r {
            Err(err) => remove_then_fail(s, not_ready_message(err)),
            Ok(had) => go(
                DeployRunView { had_healthcheck: had, ..s },
                Phase::Writing,
                seq![switching_message()],
                DeployActionView::WriteCaddy(s.new_slot.spec_config(cfg).host_port),
            ),
        },
        (Phase::Writing, DeployEventView::CaddyWritten(r)) => match r {
            Err(err) => remove_then_fail(s, write_failed_message(err)),
            Ok(old) => go(
                DeployRunView { old_caddy: old, ..s },
                Phase::Reloading,
                seq![],
                DeployActionView::ReloadCaddy,
            ),
        },
        (Phase::Reloading, DeployEventView::Reloaded(r)) => match r {
            Err(err) => go(
                DeployRunView { pending: reload_failed_message(err), ..s },
                Phase::Restoring,
                seq![],
                DeployActionView::RestoreCaddy(s.old_caddy),
            ),
            Ok(()) => match s.old_slot {
                Some(old) => go(
                    s,
                    Phase::StoppingOld,
                    seq![stopping_message(old, cfg)],
                    DeployActionView::StopContainer(old),
                ),
                None => succeed(cfg, s, seq![]),
            },
        },
        (Phase::Restoring, DeployEventView::Restored) => go(
            s,
            Phase::ReloadingAgain,
            seq![],
            DeployActionView::ReloadCaddy,
        ),
        (Phase::ReloadingAgain, DeployEventView::Reloaded(_)) => remove_then_fail(s, s.pending),
        (Phase::RemovingThenFail, DeployEventView::Removed) => fail(s, s.pending),
        (Phase::StoppingOld, DeployEventView::Stopped(r)) => match r {
            Ok(()) => succeed(cfg, s, seq![]),
            Err(err) => succeed(
                cfg,
                s,
                seq![stop_failed_message(err, s.old_slot.unwrap().spec_config(cfg).name@)],
            ),
        },
        _ => (s, seq![], DeployActionView::Finish(Ok(()))),
    }
}


/// `prefix` followed by the brief of `e` cut to `max` characters.
pub(crate) fn with_brief(prefix: &str, e: &String, max: usize) -> (r: String)
    ensures
        r@ == prefix@ + brief(e@, max as nat),
{
    let mut m = chars_of(prefix);
    append(&mut m, &brief_of(&chars_of(e.as_str()), max));
    string_of(&m)
}

pub(crate) fn text(s: &str) -> (r: String)
    ensures
        r@ == s@,
{
    string_of(&chars_of(s))
}

fn pulling_text(attempt: u32, retries: u32, image: &String) -> (r: String)
    ensures
        r@ == pulling_message(attempt, retries, image@),
{
    let mut m = chars_of("正在拉取镜像 (");
    append(&mut m, &u64_decimal(attempt as u64));
    push_str(&mut m, "/");
    append(&mut m, &u64_decimal(retries as u64));
    push_str(&mut m, ")…\n");
    push_str(&mut m, image.as_str());
    string_of(&m)
}

fn retry_text(backoff: u64, e: &String) -> (r: String)
    ensures
        r@ == retry_message(backoff, e@),
{
    let mut m = chars_of("拉取失败，");
    append(&mut m, &u64_decimal(backoff));
    push_str(&mut m, "s 后重试…\n");
    append(&mut m, &brief_of(&chars_of(e.as_str()), 200));
    string_of(&m)
}

fn pull_failed_text(retries: u32, e: &String) -> (r: String)
    ensures
        r@ == pull_failed_message(retries, e@),
{
    let mut m = chars_of("镜像拉取失败（已重试 ");
    append(&mut m, &u64_decimal(retries as u64));
    push_str(&mut m, " 次）\n");
    append(&mut m, &brief_of(&chars_of(e.as_str()), 300));
    string_of(&m)
}

fn starting_text(slot: SlotId, cfg: &DeployConfig) -> (r: String)
    ensures
        r@ == starting_message(slot, *cfg),
{
    let c = slot.config(cfg);
    let mut m = chars_of("正在启动槽位 ");
    push_str(&mut m, slot.label());
    push_str(&mut m, "（");
    push_str(&mut m, c.name.as_str());
    push_str(&mut m, "，端口 ");
    append(&mut m, &u64_decimal(c.host_port as u64));
    push_str(&mut m, "）…");
    string_of(&m)
}

pub(crate) fn waiting_text(timeout: u64) -> (r: String)
    ensures
        r@ == waiting_message(timeout),
{
    let mut m = chars_of("等待容器健康（超时 ");
    append(&mut m, &u64_decimal(timeout));
    push_str(&mut m, "s）…");
    string_of(&m)
}

pub(crate) fn stopping_text(slot: SlotId, cfg: &DeployConfig) -> (r: String)
    ensures
        r@ == stopping_message(slot, *cfg),
{
    let mut m = chars_of("正在停止旧槽位 ");
    push_str(&mut m, slot.label());
    push_str(&mut m, "（");
    push_str(&mut m, slot.config(cfg).name.as_str());
    push_str(&mut m, "）…");
    string_of(&m)
}

pub(crate) fn stop_failed_text(e: &String, name: &String) -> (r: String)
    ensures
        r@ == stop_failed_message(e@, name@),
{
    let mut m = chars_of("流量已切换，但停止旧容器失败: ");
    append(&mut m, &brief_of(&chars_of(e.as_str()), 200));
    push_str(&mut m, "\n请人工检查 ");
    push_str(&mut m, name.as_str());
    string_of(&m)
}

fn success_text(slot: SlotId, cfg: &DeployConfig, had_healthcheck: bool) -> (r: String)
    ensures
        r@ == success_message(slot, *cfg, had_healthcheck),
{
    let c = slot.config(cfg);
    let mut m = chars_of("部署成功\n新槽位: ");
    push_str(&mut m, slot.label());
    push_str(&mut m, " (");
    push_str(&mut m, c.name.as_str());
    push_str(&mut m, ")\n端口: ");
    append(&mut m, &u64_decimal(c.host_port as u64));
    let ghost before = m@;
    if !had_healthcheck {
        push_str(&mut m, "\n（容器无 HEALTHCHECK，已按 running 视为就绪）");
    } else {
        assert(m@ == before + Seq::<char>::empty());
    }
    string_of(&m)
}

pub(crate) fn one(m: String) -> (r: Vec<String>)
    ensures
        string_views(r@) == seq![m@],
{
    let mut v: Vec<String> = Vec::new();
    v.push(m);
    assert(string_views(v@) =~= seq![m@]);
    v
}

pub(crate) fn none() -> (r: Vec<String>)
    ensures
        string_views(r@) == Seq::<Seq<char>>::empty(),
{
    let v: Vec<String> = Vec::new();
    assert(string_views(v@) =~= Seq::<Seq<char>>::empty());
    v
}

/// What every run satisfies: retries are counted from one, a pull attempt is within them,
/// and a run stopping the old slot knows which one it is.
pub open spec fn run_wf(s: DeployRunView) -> bool {
    &&& s.phase != Phase::Ready ==> s.retries >= 1
    &&& s.phase == Phase::Pulling ==> 1 <= s.attempt <= s.retries
    &&& s.phase == Phase::Sleeping ==> 1 <= s.attempt < s.retries
    &&& s.phase == Phase::StoppingOld ==> s.old_slot is Some
    &&& s.old_slot matches Some(o) ==> o != s.new_slot
}

pub type Stepped = (DeployRun, DeployStep);

pub open spec fn stepped_view(r: Stepped) -> StepView {
    (r.0@, string_views(r.1.replies@), r.1.action@)
}

impl DeployRun {
    #[verifier::type_invariant]
    spec fn inv(self) -> bool {
        run_wf(self@)
    }

    /// A run that has not begun: no pull attempt or retries counted yet, no error, no
    /// running slot known, slot `a` as the provisional new slot, nothing pending.
    pub fn new() -> (r: DeployRun)
        ensures
            r@ == (DeployRunView {
                phase: Phase::Ready,
                attempt: 0,
                retries: 0,
                last_err: Seq::<char>::empty(),
                new_slot: SlotId::A,
                old_slot: None,
                a_running: false,
                had_healthcheck: false,
                old_caddy: None,
                pending: Seq::<char>::empty(),
            }),
    {
        DeployRun {
            phase: Phase::Ready,
            attempt: 0,
            retries: 0,
            last_err: String::new(),
            new_slot: SlotId::A,
            old_slot: None,
            a_running: false,
            had_healthcheck: false,
            old_caddy: None,
            pending: String::new(),
        }
    }

    /// Whether the run waits for `e`.
    pub fn accepts(&self, e: &DeployEvent) -> (r: bool)
        ensures
            r == expects(self@.phase, e@),
    {
        match (self.phase, e) {
            (Phase::Ready, DeployEvent::Begin) => true,
            (Phase::LocalDigest, DeployEvent::LocalDigest(_)) => true,
            (Phase::RemoteDigest, DeployEvent::RemoteDigest(_)) => true,
            (Phase::Pulling, DeployEvent::Pulled(_)) => true,
            (Phase::Sleeping, DeployEvent::Slept) => true,
            (Phase::ImageExists, DeployEvent::ImageExists(_)) => true,
            (Phase::TagOlder, DeployEvent::Tagged(_)) => true,
            (Phase::TagLocal, DeployEvent::Tagged(_)) => true,
            (Phase::RunningA, DeployEvent::Running(_)) => true,
            (Phase::RunningB, DeployEvent::Running(_)) => true,
            (Phase::ActivePort, DeployEvent::ActivePort(_)) => true,
            (Phase::Starting, DeployEvent::Started(_)) => true,
            (Phase::Health, DeployEvent::Health(_)) => true,
            (Phase::Writing, DeployEvent::CaddyWritten(_)) => true,
            (Phase::Reloading, DeployEvent::Reloaded(_)) => true,
            (Phase::Restoring, DeployEvent::Restored) => true,
            (Phase::ReloadingAgain, DeployEvent::Reloaded(_)) => true,
            (Phase::RemovingThenFail, DeployEvent::Removed) => true,
            (Phase::StoppingOld, DeployEvent::Stopped(_)) => true,
            _ => false,
        }
    }

    /// Whether the run is over.
    pub fn is_finished(&self) -> (r: bool)
        ensures
            r == (self@.phase == Phase::Finished),
    {
        match self.phase {
            Phase::Finished => true,
            _ => false,
        }
    }

    fn go(self, phase: Phase, replies: Vec<String>, action: DeployAction) -> (r: Stepped)
        requires
            run_wf(DeployRunView { phase, ..self@ }),
        ensures
            stepped_view(r) == go(self@, phase, string_views(replies@), action@),
    {
        (DeployRun { phase, ..self }, DeployStep { replies, action })
    }

    fn fail(self, msg: String) -> (r: Stepped)
        requires
            run_wf(self@),
            self@.retries >= 1,
        ensures
            stepped_view(r) == fail(self@, msg@),
    {
        let replies = one(msg.clone());
        (DeployRun { phase: Phase::Finished, ..self }, DeployStep {
            replies,
            action: DeployAction::Finish(Err(msg)),
        })
    }

    fn begin_pull(self, cfg: &DeployConfig, attempt: u32) -> (r: Stepped)
        requires
            1 <= attempt <= self@.retries,
            run_wf(self@),
        ensures
            stepped_view(r) == begin_pull(*cfg, self@, attempt),
    {
        let replies = one(pulling_text(attempt, self.retries, &cfg.remote_image));
        (DeployRun { phase: Phase::Pulling, attempt, ..self }, DeployStep {
            replies,
            action: DeployAction::Pull,
        })
    }

    fn start_slot(self, cfg: &DeployConfig, new: SlotId, stop: Option<SlotId>) -> (r: Stepped)
        requires
            self@.retries >= 1,
            stop matches Some(o) ==> o != new,
        ensures
            stepped_view(r) == start_slot(*cfg, self@, new, stop),
    {
        let replies = one(starting_text(new, cfg));
        (DeployRun { phase: Phase::Starting, new_slot: new, old_slot: stop, ..self }, DeployStep {
            replies,
            action: DeployAction::RunContainer(new),
        })
    }

    fn succeed(self, cfg: &DeployConfig, first: Vec<String>) -> (r: Stepped)
        requires
            run_wf(self@),
            self@.retries >= 1,
        ensures
            stepped_view(r) == succeed(*cfg, self@, string_views(first@)),
    {
        let mut replies = first;
        let ghost before = replies@;
        let m = success_text(self.new_slot, cfg, self.had_healthcheck);
        replies.push(m);
        assert(string_views(replies@) =~= string_views(before).push(m@));
        (DeployRun { phase: Phase::Finished, ..self }, DeployStep {
            replies,
            action: DeployAction::Finish(Ok(())),
        })
    }

    fn remove_then_fail(self, msg: String) -> (r: Stepped)
        requires
            run_wf(self@),
            self@.retries >= 1,
        ensures
            stepped_view(r) == remove_then_fail(self@, msg@),
    {
        let slot = self.new_slot;
        (DeployRun { phase: Phase::RemovingThenFail, pending: msg, ..self }, DeployStep {
            replies: none(),
            action: DeployAction::RemoveContainer(slot),
        })
    }
}

impl DeployRun {
    /// Advances the run by one event: the run's next state, the messages to send and the
    /// next operation.
    pub fn step(self, cfg: &DeployConfig, e: DeployEvent) -> (r: Stepped)
        requires
            expects(self@.phase, e@),
        ensures
            stepped_view(r) == deploy_next(*cfg, self@, e@),
    {
        proof {
            use_type_invariant(&self);
        }
        match self.phase {
            Phase::Ready => self.on_begin(cfg, e),
            Phase::LocalDigest | Phase::RemoteDigest => self.on_digest(cfg, e),
            Phase::Pulling | Phase::Sleeping => self.on_pull(cfg, e),
            Phase::ImageExists | Phase::TagOlder | Phase::TagLocal => self.on_tag(cfg, e),
            Phase::RunningA | Phase::RunningB | Phase::ActivePort => self.on_pick(cfg, e),
            Phase::Starting | Phase::Health => self.on_start(cfg, e),
            _ => self.on_switch(cfg, e),
        }
    }

    fn on_begin(self, cfg: &DeployConfig, e: DeployEvent) -> (r: Stepped)
        requires
            self@.phase == Phase::Ready,
            run_wf(self@),
            expects(self@.phase, e@),
        ensures
            stepped_view(r) == deploy_next(*cfg, self@, e@),
    {
        let retries = if cfg.pull_retries < 1 { 1 } else { cfg.pull_retries };
        let run = DeployRun { retries, attempt: 0, ..self };
        let replies = one(text("正在检查镜像更新…"));
        run.go(Phase::LocalDigest, replies, DeployAction::CheckLocalDigest)
    }

    fn on_digest(self, cfg: &DeployConfig, e: DeployEvent) -> (r: Stepped)
        requires
            self@.phase == Phase::LocalDigest || self@.phase == Phase::RemoteDigest,
            run_wf(self@),
            expects(self@.phase, e@),
        ensures
            stepped_view(r) == deploy_next(*cfg, self@, e@),
    {
        match e {
            DeployEvent::LocalDigest(r) => match r {
                Err(err) => self.fail(with_brief("检查镜像失败\n", &err, 300)),
                Ok(None) => self.begin_pull(cfg, 1),
                Ok(Some(d)) => {
                    let run = DeployRun { pending: d, ..self };
                    run.go(Phase::RemoteDigest, none(), DeployAction::CheckRemoteDigest)
                },
            },
            DeployEvent::RemoteDigest(r) => match r {
                Err(err) => self.fail(with_brief("检查镜像失败\n", &err, 300)),
                Ok(d) => {
                    if equal(&chars_of(d.as_str()), &chars_of(self.pending.as_str())) {
                        let replies = one(text("没有可用的更新（本地与远端镜像一致）"));
                        self.go(Phase::Finished, replies, DeployAction::Finish(Ok(())))
                    } else {
                        self.begin_pull(cfg, 1)
                    }
                },
            },
            _ => self.fail(String::new()),
        }
    }

    fn on_pull(self, cfg: &DeployConfig, e: DeployEvent) -> (r: Stepped)
        requires
            self@.phase == Phase::Pulling || self@.phase == Phase::Sleeping,
            run_wf(self@),
            expects(self@.phase, e@),
        ensures
            stepped_view(r) == deploy_next(*cfg, self@, e@),
    {
        match e {
            DeployEvent::Pulled(r) => match r {
                Ok(()) => {
                    let replies = one(text("正在更新本地镜像标签…"));
                    self.go(Phase::ImageExists, replies, DeployAction::CheckImageExists)
                },
                Err(err) => {
                    if self.attempt < self.retries {
                        let b = backoff_secs(self.attempt);
                        let replies = one(retry_text(b, &err));
                        let run = DeployRun { last_err: err, ..self };
                        run.go(Phase::Sleeping, replies, DeployAction::Sleep(b))
                    } else {
                        let m = pull_failed_text(self.retries, &err);
                        let run = DeployRun { last_err: err, ..self };
                        run.fail(m)
                    }
                },
            },
            DeployEvent::Slept => {
                let next = self.attempt + 1;
                self.begin_pull(cfg, next)
            },
            _ => self.fail(String::new()),
        }
    }

    fn on_tag(self, cfg: &DeployConfig, e: DeployEvent) -> (r: Stepped)
        requires
            self@.phase == Phase::ImageExists || self@.phase == Phase::TagOlder || self@.phase
                == Phase::TagLocal,
            run_wf(self@),
            expects(self@.phase, e@),
        ensures
            stepped_view(r) == deploy_next(*cfg, self@, e@),
    {
        match e {
            DeployEvent::ImageExists(r) => match r {
                Err(err) => self.fail(with_brief("镜像打标失败\n", &err, 300)),
                Ok(true) => self.go(Phase::TagOlder, none(), DeployAction::Tag(TagMove::LocalToOlder)),
                Ok(false) => self.go(
                    Phase::TagLocal,
                    none(),
                    DeployAction::Tag(TagMove::RemoteToLocal),
                ),
            },
            DeployEvent::Tagged(r) => match r {
                Err(err) => self.fail(with_brief("镜像打标失败\n", &err, 300)),
                Ok(()) => match self.phase {
                    Phase::TagOlder => self.go(
                        Phase::TagLocal,
                        none(),
                        DeployAction::Tag(TagMove::RemoteToLocal),
                    ),
                    _ => self.go(Phase::RunningA, none(), DeployAction::CheckRunning(SlotId::A)),
                },
            },
            _ => self.fail(String::new()),
        }
    }

    fn on_pick(self, cfg: &DeployConfig, e: DeployEvent) -> (r: Stepped)
        requires
            self@.phase == Phase::RunningA || self@.phase == Phase::RunningB || self@.phase
                == Phase::ActivePort,
            run_wf(self@),
            expects(self@.phase, e@),
        ensures
            stepped_view(r) == deploy_next(*cfg, self@, e@),
    {
        match e {
            DeployEvent::Running(r) => match r {
                Err(err) => self.fail(with_brief("槽位选择失败\n", &err, 300)),
                Ok(run_now) => match self.phase {
                    Phase::RunningA => {
                        let run = DeployRun { a_running: run_now, ..self };
                        run.go(Phase::RunningB, none(), DeployAction::CheckRunning(SlotId::B))
                    },
                    _ => match pick_by_running(self.a_running, run_now) {
                        Some((new, stop)) => self.start_slot(cfg, new, stop),
                        None => self.go(Phase::ActivePort, none(), DeployAction::ReadActivePort),
                    },
                },
            },
            DeployEvent::ActivePort(r) => match r {
                Err(err) => self.fail(with_brief("槽位选择失败\n", &err, 300)),
                Ok(port) => match pick_by_port(cfg, port) {
                    Err(m) => self.fail(with_brief("槽位选择失败\n", &m, 300)),
                    Ok((new, stop)) => self.start_slot(cfg, new, stop),
                },
            },
            _ => self.fail(String::new()),
        }
    }

    fn on_start(self, cfg: &DeployConfig, e: DeployEvent) -> (r: Stepped)
        requires
            self@.phase == Phase::Starting || self@.phase == Phase::Health,
            run_wf(self@),
            expects(self@.phase, e@),
        ensures
            stepped_view(r) == deploy_next(*cfg, self@, e@),
    {
        match e {
            DeployEvent::Started(r) => match r {
                Err(err) => self.fail(with_brief("启动容器失败\n", &err, 300)),
                Ok(()) => {
                    let replies = one(waiting_text(cfg.health_timeout_secs));
                    let slot = self.new_slot;
                    self.go(Phase::Health, replies, DeployAction::WaitHealthy(slot))
                },
            },
            DeployEvent::Health(r) => match r {
                Err(err) => self.remove_then_fail(
                    with_brief("新容器未就绪，已停止新容器，未切换流量\n", &err, 300),
                ),
                Ok(had) => {
                    let port = self.new_slot.config(cfg).host_port;
                    let replies = one(text("正在切换 Caddy 流量…"));
                    let run = DeployRun { had_healthcheck: had, ..self };
                    run.go(Phase::Writing, replies, DeployAction::WriteCaddy(port))
                },
            },
            _ => self.fail(String::new()),
        }
    }

    fn on_switch(self, cfg: &DeployConfig, e: DeployEvent) -> (r: Stepped)
        requires
            self@.phase == Phase::Writing || self@.phase == Phase::Reloading || self@.phase
                == Phase::Restoring || self@.phase == Phase::ReloadingAgain || self@.phase
                == Phase::RemovingThenFail || self@.phase == Phase::StoppingOld,
            run_wf(self@),
            expects(self@.phase, e@),
        ensures
            stepped_view(r) == deploy_next(*cfg, self@, e@),
    {
        match e {
            DeployEvent::CaddyWritten(r) => match r {
                Err(err) => self.remove_then_fail(
                    with_brief("写入 Caddy 配置失败，已停止新容器\n", &err, 300),
                ),
                Ok(old) => {
                    let run = DeployRun { old_caddy: old, ..self };
                    run.go(Phase::Reloading, none(), DeployAction::ReloadCaddy)
                },
            },
            DeployEvent::Reloaded(r) => match self.phase {
                Phase::Reloading => match r {
                    Err(err) => {
                        let m = with_brief(
                            "Caddy reload 失败，已尝试恢复配置并停止新容器\n",
                            &err,
                            300,
                        );
                        let keep = self.old_caddy.clone();
                        proof {
                            assert(keep == self.old_caddy);
                        }
                        let run = DeployRun { pending: m, ..self };
                        run.go(Phase::Restoring, none(), DeployAction::RestoreCaddy(keep))
                    },
                    Ok(()) => match self.old_slot {
                        Some(stop) => {
                            let replies = one(stopping_text(stop, cfg));
                            self.go(Phase::StoppingOld, replies, DeployAction::StopContainer(stop))
                        },
                        None => self.succeed(cfg, none()),
                    },
                },
                _ => {
                    let m = self.pending.clone();
                    self.remove_then_fail(m)
                },
            },
            DeployEvent::Restored => self.go(Phase::ReloadingAgain, none(), DeployAction::ReloadCaddy),
            DeployEvent::Removed => {
                let m = self.pending.clone();
                self.fail(m)
            },
            DeployEvent::Stopped(r) => match r {
                Ok(()) => self.succeed(cfg, none()),
                Err(err) => {
                    let stop = self.old_slot.unwrap();
                    let first = one(stop_failed_text(&err, &stop.config(cfg).name));
                    self.succeed(cfg, first)
                },
            },
            _ => self.fail(String::new()),
        }
    }
}

} // verus!
