use qq_bot::deploy::caddy::{import_file_content, parse_active_port};
use qq_bot::deploy::config::{
    default_health_poll_interval, default_health_timeout, default_pull_retries, DeployConfig,
    DockerRunConfig, SlotConfig, SlotsConfig,
};
use qq_bot::deploy::deploy::{
    backoff_secs, pick_by_port, pick_by_running, slot_by_port, DeployAction, DeployEvent, DeployRun,
    SlotId, TagMove,
};
use qq_bot::deploy::plugin::{read_deploy_command, DeployCommand};
use qq_bot::deploy::rollback::RollbackRun;
use qq_bot::onebot::Segment;

fn s(x: &str) -> String {
    x.to_string()
}

fn cfg() -> DeployConfig {
    DeployConfig {
        group_id: s("100"),
        admin_qq: vec![s("42"), s("43")],
        remote_image: s("registry.example.com/app:latest"),
        local_image: s("app:local"),
        older_image: s("app:older"),
        project_dir: s("/srv/app"),
        pull_retries: 3,
        health_timeout_secs: 180,
        health_poll_interval_secs: 3,
        caddy_import_file: s("/etc/caddy/app.caddy"),
        caddy_template: s("reverse_proxy 127.0.0.1:{port}"),
        docker_run: DockerRunConfig {
            common_args: vec![s("--env-file"), s(".env")],
            slots: SlotsConfig {
                a: SlotConfig { name: s("app-a"), host_port: 8081, container_port: 8080 },
                b: SlotConfig { name: s("app-b"), host_port: 8082, container_port: 8080 },
            },
        },
    }
}

fn step(run: DeployRun, c: &DeployConfig, e: DeployEvent) -> (DeployRun, Vec<String>, DeployAction) {
    assert!(run.accepts(&e));
    let (next, st) = run.step(c, e);
    (next, st.replies, st.action)
}

fn rstep(run: RollbackRun, c: &DeployConfig, e: DeployEvent) -> (RollbackRun, Vec<String>, DeployAction) {
    assert!(run.accepts(&e));
    let (next, st) = run.step(c, e);
    (next, st.replies, st.action)
}

#[test]
fn defaults_of_the_deploy_table() {
    assert_eq!(default_pull_retries(), 5);
    assert_eq!(default_health_timeout(), 180);
    assert_eq!(default_health_poll_interval(), 3);
}

#[test]
fn slots_are_opposite_and_labelled() {
    let c = cfg();
    assert_eq!(SlotId::A.other(), SlotId::B);
    assert_eq!(SlotId::B.other(), SlotId::A);
    assert_eq!(SlotId::A.other().other(), SlotId::A);
    assert_eq!(SlotId::A.label(), "a");
    assert_eq!(SlotId::B.label(), "b");
    assert_eq!(SlotId::B.config(&c).name, "app-b");
    assert_eq!(slot_by_port(&c, 8081), Some(SlotId::A));
    assert_eq!(slot_by_port(&c, 8082), Some(SlotId::B));
    assert_eq!(slot_by_port(&c, 9000), None);
}

#[test]
fn slot_choice_from_running_containers() {
    assert_eq!(pick_by_running(true, false), Some((SlotId::B, Some(SlotId::A))));
    assert_eq!(pick_by_running(false, true), Some((SlotId::A, Some(SlotId::B))));
    assert_eq!(pick_by_running(false, false), Some((SlotId::A, None)));
    assert_eq!(pick_by_running(true, true), None);
}

#[test]
fn slot_choice_from_the_active_port() {
    let c = cfg();
    assert_eq!(pick_by_port(&c, Some(8082)), Ok((SlotId::A, Some(SlotId::B))));
    assert_eq!(pick_by_port(&c, Some(8081)), Ok((SlotId::B, Some(SlotId::A))));
    assert_eq!(
        pick_by_port(&c, None),
        Err(s("a/b 槽均在运行，且无法从 Caddy import 文件解析当前端口，请人工处理后再部署"))
    );
    assert_eq!(
        pick_by_port(&c, Some(7000)),
        Err(s("a/b 槽均在运行，Caddy 端口 7000 与配置的槽位端口不匹配，请人工处理后再部署"))
    );
}

#[test]
fn pull_backoff_doubles_up_to_thirty_seconds() {
    assert_eq!(backoff_secs(1), 1);
    assert_eq!(backoff_secs(2), 2);
    assert_eq!(backoff_secs(3), 4);
    assert_eq!(backoff_secs(5), 16);
    assert_eq!(backoff_secs(6), 30);
    assert_eq!(backoff_secs(64), 30);
}

#[test]
fn caddy_port_is_read_from_loopback_tokens() {
    assert_eq!(parse_active_port("reverse_proxy 127.0.0.1:8082"), Some(8082));
    assert_eq!(parse_active_port("reverse_proxy localhost:8081,"), Some(8081));
    assert_eq!(parse_active_port("reverse_proxy [::1]:9000}"), Some(9000));
    assert_eq!(parse_active_port("to http://app:7000/x"), Some(7000));
    assert_eq!(parse_active_port("upstream :0 :65536"), None);
    assert_eq!(parse_active_port("no port here"), None);
    assert_eq!(parse_active_port(""), None);
}

#[test]
fn written_import_file_reads_back_its_port() {
    let c = cfg();
    let content = import_file_content(&c.caddy_template, 8082);
    assert_eq!(content, "reverse_proxy 127.0.0.1:8082");
    assert_eq!(parse_active_port(&content), Some(8082));
    let t = "app.example.com {\n  reverse_proxy 127.0.0.1:{port} {\n  }\n}";
    let content = import_file_content(t, 8081);
    assert_eq!(content, "app.example.com {\n  reverse_proxy 127.0.0.1:8081 {\n  }\n}");
    assert_eq!(parse_active_port(&content), Some(8081));
    assert_eq!(import_file_content("{port} and {port}", 1), "1 and 1");
    assert_eq!(import_file_content("no placeholder", 1), "no placeholder");
}

fn at(qq: &str) -> Segment {
    Segment::At { qq: Some(s(qq)) }
}

fn txt(t: &str) -> Segment {
    Segment::Text { text: Some(s(t)) }
}

#[test]
fn deploy_commands_come_from_admins_mentioning_the_bot() {
    let c = cfg();
    let segs = vec![at("7"), txt(" 部署 ")];
    assert_eq!(read_deploy_command(&c, Some(100), 42, &segs, 7), Some(DeployCommand::Deploy));
    let segs = vec![at("7"), txt("回滚")];
    assert_eq!(read_deploy_command(&c, Some(100), 43, &segs, 7), Some(DeployCommand::Rollback));
    assert_eq!(read_deploy_command(&c, Some(100), 44, &segs, 7), None);
    assert_eq!(read_deploy_command(&c, Some(101), 43, &segs, 7), None);
    assert_eq!(read_deploy_command(&c, None, 43, &segs, 7), None);
    let segs = vec![txt("回滚")];
    assert_eq!(read_deploy_command(&c, Some(100), 43, &segs, 7), None);
    let segs = vec![at("7"), txt("部署一下")];
    assert_eq!(read_deploy_command(&c, Some(100), 43, &segs, 7), None);
}

#[test]
fn deployment_switches_to_the_idle_slot() {
    let c = cfg();
    let run = DeployRun::new();
    let (run, r, a) = step(run, &c, DeployEvent::Begin);
    assert_eq!(r, vec![s("正在检查镜像更新…")]);
    assert_eq!(a, DeployAction::CheckLocalDigest);
    let (run, r, a) = step(run, &c, DeployEvent::LocalDigest(Ok(Some(s("sha256:old")))));
    assert!(r.is_empty());
    assert_eq!(a, DeployAction::CheckRemoteDigest);
    let (run, r, a) = step(run, &c, DeployEvent::RemoteDigest(Ok(s("sha256:new"))));
    assert_eq!(r, vec![s("正在拉取镜像 (1/3)…\nregistry.example.com/app:latest")]);
    assert_eq!(a, DeployAction::Pull);
    let (run, r, a) = step(run, &c, DeployEvent::Pulled(Ok(())));
    assert_eq!(r, vec![s("正在更新本地镜像标签…")]);
    assert_eq!(a, DeployAction::CheckImageExists);
    let (run, _, a) = step(run, &c, DeployEvent::ImageExists(Ok(true)));
    assert_eq!(a, DeployAction::Tag(TagMove::LocalToOlder));
    let (run, _, a) = step(run, &c, DeployEvent::Tagged(Ok(())));
    assert_eq!(a, DeployAction::Tag(TagMove::RemoteToLocal));
    let (run, _, a) = step(run, &c, DeployEvent::Tagged(Ok(())));
    assert_eq!(a, DeployAction::CheckRunning(SlotId::A));
    let (run, _, a) = step(run, &c, DeployEvent::Running(Ok(true)));
    assert_eq!(a, DeployAction::CheckRunning(SlotId::B));
    let (run, r, a) = step(run, &c, DeployEvent::Running(Ok(false)));
    assert_eq!(r, vec![s("正在启动槽位 b（app-b，端口 8082）…")]);
    assert_eq!(a, DeployAction::RunContainer(SlotId::B));
    let (run, r, a) = step(run, &c, DeployEvent::Started(Ok(())));
    assert_eq!(r, vec![s("等待容器健康（超时 180s）…")]);
    assert_eq!(a, DeployAction::WaitHealthy(SlotId::B));
    let (run, r, a) = step(run, &c, DeployEvent::Health(Ok(true)));
    assert_eq!(r, vec![s("正在切换 Caddy 流量…")]);
    assert_eq!(a, DeployAction::WriteCaddy(8082));
    let (run, _, a) = step(run, &c, DeployEvent::CaddyWritten(Ok(Some(s("old")))));
    assert_eq!(a, DeployAction::ReloadCaddy);
    let (run, r, a) = step(run, &c, DeployEvent::Reloaded(Ok(())));
    assert_eq!(r, vec![s("正在停止旧槽位 a（app-a）…")]);
    assert_eq!(a, DeployAction::StopContainer(SlotId::A));
    let (run, r, a) = step(run, &c, DeployEvent::Stopped(Ok(())));
    assert_eq!(r, vec![s("部署成功\n新槽位: b (app-b)\n端口: 8082")]);
    assert_eq!(a, DeployAction::Finish(Ok(())));
    assert!(run.is_finished());
}

#[test]
fn no_update_when_digests_match() {
    let c = cfg();
    let (run, _, _) = step(DeployRun::new(), &c, DeployEvent::Begin);
    let (run, _, _) = step(run, &c, DeployEvent::LocalDigest(Ok(Some(s("sha256:same")))));
    let (run, r, a) = step(run, &c, DeployEvent::RemoteDigest(Ok(s("sha256:same"))));
    assert_eq!(r, vec![s("没有可用的更新（本地与远端镜像一致）")]);
    assert_eq!(a, DeployAction::Finish(Ok(())));
    assert!(run.is_finished());
}

#[test]
fn failed_check_ends_the_run() {
    let c = cfg();
    let (run, _, _) = step(DeployRun::new(), &c, DeployEvent::Begin);
    let (run, r, a) = step(run, &c, DeployEvent::LocalDigest(Err(s("  docker: not found \n"))));
    assert_eq!(r, vec![s("检查镜像失败\ndocker: not found")]);
    assert_eq!(a, DeployAction::Finish(Err(s("检查镜像失败\ndocker: not found"))));
    assert!(run.is_finished());
}

#[test]
fn pull_is_retried_with_backoff_then_given_up() {
    let c = cfg();
    let (run, _, _) = step(DeployRun::new(), &c, DeployEvent::Begin);
    let (run, r, a) = step(run, &c, DeployEvent::LocalDigest(Ok(None)));
    assert_eq!(r, vec![s("正在拉取镜像 (1/3)…\nregistry.example.com/app:latest")]);
    assert_eq!(a, DeployAction::Pull);
    let (run, r, a) = step(run, &c, DeployEvent::Pulled(Err(s("timeout"))));
    assert_eq!(r, vec![s("拉取失败，1s 后重试…\ntimeout")]);
    assert_eq!(a, DeployAction::Sleep(1));
    let (run, r, a) = step(run, &c, DeployEvent::Slept);
    assert_eq!(r, vec![s("正在拉取镜像 (2/3)…\nregistry.example.com/app:latest")]);
    assert_eq!(a, DeployAction::Pull);
    let (run, r, a) = step(run, &c, DeployEvent::Pulled(Err(s("timeout"))));
    assert_eq!(r, vec![s("拉取失败，2s 后重试…\ntimeout")]);
    assert_eq!(a, DeployAction::Sleep(2));
    let (run, _, _) = step(run, &c, DeployEvent::Slept);
    let (run, r, a) = step(run, &c, DeployEvent::Pulled(Err(s("denied"))));
    assert_eq!(r, vec![s("镜像拉取失败（已重试 3 次）\ndenied")]);
    assert_eq!(a, DeployAction::Finish(Err(s("镜像拉取失败（已重试 3 次）\ndenied"))));
    assert!(run.is_finished());
}

#[test]
fn unhealthy_container_is_removed_without_switching() {
    let mut c = cfg();
    c.pull_retries = 0;
    let (run, _, _) = step(DeployRun::new(), &c, DeployEvent::Begin);
    let (run, r, _) = step(run, &c, DeployEvent::LocalDigest(Ok(None)));
    assert_eq!(r, vec![s("正在拉取镜像 (1/1)…\nregistry.example.com/app:latest")]);
    let (run, _, _) = step(run, &c, DeployEvent::Pulled(Ok(())));
    let (run, _, a) = step(run, &c, DeployEvent::ImageExists(Ok(false)));
    assert_eq!(a, DeployAction::Tag(TagMove::RemoteToLocal));
    let (run, _, _) = step(run, &c, DeployEvent::Tagged(Ok(())));
    let (run, _, _) = step(run, &c, DeployEvent::Running(Ok(false)));
    let (run, r, a) = step(run, &c, DeployEvent::Running(Ok(false)));
    assert_eq!(r, vec![s("正在启动槽位 a（app-a，端口 8081）…")]);
    assert_eq!(a, DeployAction::RunContainer(SlotId::A));
    let (run, _, _) = step(run, &c, DeployEvent::Started(Ok(())));
    let (run, r, a) = step(run, &c, DeployEvent::Health(Err(s("容器 app-a 未在运行"))));
    assert!(r.is_empty());
    assert_eq!(a, DeployAction::RemoveContainer(SlotId::A));
    let (run, r, a) = step(run, &c, DeployEvent::Removed);
    let m = s("新容器未就绪，已停止新容器，未切换流量\n容器 app-a 未在运行");
    assert_eq!(r, vec![m.clone()]);
    assert_eq!(a, DeployAction::Finish(Err(m)));
    assert!(run.is_finished());
}

#[test]
fn failed_reload_restores_the_import_file() {
    let c = cfg();
    let (run, _, _) = step(DeployRun::new(), &c, DeployEvent::Begin);
    let (run, _, _) = step(run, &c, DeployEvent::LocalDigest(Ok(None)));
    let (run, _, _) = step(run, &c, DeployEvent::Pulled(Ok(())));
    let (run, _, _) = step(run, &c, DeployEvent::ImageExists(Ok(false)));
    let (run, _, _) = step(run, &c, DeployEvent::Tagged(Ok(())));
    let (run, _, _) = step(run, &c, DeployEvent::Running(Ok(true)));
    let (run, _, a) = step(run, &c, DeployEvent::Running(Ok(true)));
    assert_eq!(a, DeployAction::ReadActivePort);
    let (run, r, a) = step(run, &c, DeployEvent::ActivePort(Ok(Some(8081))));
    assert_eq!(r, vec![s("正在启动槽位 b（app-b，端口 8082）…")]);
    assert_eq!(a, DeployAction::RunContainer(SlotId::B));
    let (run, _, _) = step(run, &c, DeployEvent::Started(Ok(())));
    let (run, _, _) = step(run, &c, DeployEvent::Health(Ok(false)));
    let (run, _, _) = step(run, &c, DeployEvent::CaddyWritten(Ok(Some(s("before")))));
    let (run, r, a) = step(run, &c, DeployEvent::Reloaded(Err(s("bad config"))));
    assert!(r.is_empty());
    assert_eq!(a, DeployAction::RestoreCaddy(Some(s("before"))));
    let (run, _, a) = step(run, &c, DeployEvent::Restored);
    assert_eq!(a, DeployAction::ReloadCaddy);
    let (run, _, a) = step(run, &c, DeployEvent::Reloaded(Ok(())));
    assert_eq!(a, DeployAction::RemoveContainer(SlotId::B));
    let (run, r, _) = step(run, &c, DeployEvent::Removed);
    assert_eq!(r, vec![s("Caddy reload 失败，已尝试恢复配置并停止新容器\nbad config")]);
    assert!(run.is_finished());
}

#[test]
fn success_notes_a_missing_healthcheck_and_a_failed_stop() {
    let c = cfg();
    let (run, _, _) = step(DeployRun::new(), &c, DeployEvent::Begin);
    let (run, _, _) = step(run, &c, DeployEvent::LocalDigest(Ok(None)));
    let (run, _, _) = step(run, &c, DeployEvent::Pulled(Ok(())));
    let (run, _, _) = step(run, &c, DeployEvent::ImageExists(Ok(false)));
    let (run, _, _) = step(run, &c, DeployEvent::Tagged(Ok(())));
    let (run, _, _) = step(run, &c, DeployEvent::Running(Ok(false)));
    let (run, _, _) = step(run, &c, DeployEvent::Running(Ok(true)));
    let (run, _, _) = step(run, &c, DeployEvent::Started(Ok(())));
    let (run, _, a) = step(run, &c, DeployEvent::Health(Ok(false)));
    assert_eq!(a, DeployAction::WriteCaddy(8081));
    let (run, _, _) = step(run, &c, DeployEvent::CaddyWritten(Ok(None)));
    let (run, _, a) = step(run, &c, DeployEvent::Reloaded(Ok(())));
    assert_eq!(a, DeployAction::StopContainer(SlotId::B));
    let (run, r, a) = step(run, &c, DeployEvent::Stopped(Err(s("timeout"))));
    assert_eq!(
        r,
        vec![
            s("流量已切换，但停止旧容器失败: timeout\n请人工检查 app-b"),
            s("部署成功\n新槽位: a (app-a)\n端口: 8081\n（容器无 HEALTHCHECK，已按 running 视为就绪）"),
        ]
    );
    assert_eq!(a, DeployAction::Finish(Ok(())));
    assert!(run.is_finished());
}

#[test]
fn runs_refuse_unexpected_events() {
    let run = DeployRun::new();
    assert!(!run.accepts(&DeployEvent::Slept));
    assert!(run.accepts(&DeployEvent::Begin));
    let r = RollbackRun::new();
    assert!(!r.accepts(&DeployEvent::Removed));
    assert!(!r.is_finished());
}

#[test]
fn rollback_restarts_the_stopped_slot() {
    let c = cfg();
    let (run, r, a) = rstep(RollbackRun::new(), &c, DeployEvent::Begin);
    assert_eq!(r, vec![s("正在检查可回滚版本…")]);
    assert_eq!(a, DeployAction::CheckOlderImage);
    let (run, _, a) = rstep(run, &c, DeployEvent::ImageExists(Ok(true)));
    assert_eq!(a, DeployAction::ReadActivePort);
    let (run, _, a) = rstep(run, &c, DeployEvent::ActivePort(Ok(Some(8082))));
    assert_eq!(a, DeployAction::CheckContainer(SlotId::A));
    let (run, _, a) = rstep(run, &c, DeployEvent::ContainerExists(Ok(true)));
    assert_eq!(a, DeployAction::CheckRunning(SlotId::A));
    let (run, r, a) = rstep(run, &c, DeployEvent::Running(Ok(false)));
    assert_eq!(r, vec![s("正在重启槽位 a（app-a）…")]);
    assert_eq!(a, DeployAction::StartContainer(SlotId::A));
    let (run, r, a) = rstep(run, &c, DeployEvent::Started(Ok(())));
    assert_eq!(r, vec![s("等待容器健康（超时 180s）…")]);
    assert_eq!(a, DeployAction::WaitHealthy(SlotId::A));
    let (run, _, a) = rstep(run, &c, DeployEvent::Health(Ok(true)));
    assert_eq!(a, DeployAction::WriteCaddy(8081));
    let (run, _, a) = rstep(run, &c, DeployEvent::CaddyWritten(Ok(Some(s("x")))));
    assert_eq!(a, DeployAction::ReloadCaddy);
    let (run, r, a) = rstep(run, &c, DeployEvent::Reloaded(Ok(())));
    assert_eq!(r, vec![s("正在停止旧槽位 b（app-b）…")]);
    assert_eq!(a, DeployAction::StopContainer(SlotId::B));
    let (run, r, a) = rstep(run, &c, DeployEvent::Stopped(Ok(())));
    assert_eq!(r, vec![s("正在交换镜像标签…")]);
    assert_eq!(a, DeployAction::SwapTags);
    let (run, r, a) = rstep(run, &c, DeployEvent::Swapped(Ok(())));
    assert_eq!(r, vec![s("回滚成功\n当前槽位: a (app-a)\n端口: 8081")]);
    assert_eq!(a, DeployAction::Finish(Ok(())));
    assert!(run.is_finished());
}

#[test]
fn rollback_runs_the_older_image_when_no_container_is_left() {
    let c = cfg();
    let (run, _, _) = rstep(RollbackRun::new(), &c, DeployEvent::Begin);
    let (run, _, _) = rstep(run, &c, DeployEvent::ImageExists(Ok(true)));
    let (run, _, a) = rstep(run, &c, DeployEvent::ActivePort(Ok(Some(8081))));
    assert_eq!(a, DeployAction::CheckContainer(SlotId::B));
    let (run, r, a) = rstep(run, &c, DeployEvent::ContainerExists(Ok(false)));
    assert_eq!(r, vec![s("正在用 app:older 启动槽位 b（app-b，端口 8082）…")]);
    assert_eq!(a, DeployAction::RunOlderContainer(SlotId::B));
    let (run, _, _) = rstep(run, &c, DeployEvent::Started(Ok(())));
    let (run, r, a) = rstep(run, &c, DeployEvent::Health(Err(s("unhealthy"))));
    assert!(r.is_empty());
    assert_eq!(a, DeployAction::StopContainer(SlotId::B));
    let (run, r, a) = rstep(run, &c, DeployEvent::Stopped(Ok(())));
    let m = s("回滚目标未就绪，已停止目标槽，未切换流量\nunhealthy");
    assert_eq!(r, vec![m.clone()]);
    assert_eq!(a, DeployAction::Finish(Err(m)));
    assert!(run.is_finished());
}

#[test]
fn rollback_without_an_older_image_does_nothing() {
    let c = cfg();
    let (run, _, _) = rstep(RollbackRun::new(), &c, DeployEvent::Begin);
    let (run, r, a) = rstep(run, &c, DeployEvent::ImageExists(Ok(false)));
    let m = s("没有可回滚的版本（app:older 不存在）");
    assert_eq!(r, vec![m.clone()]);
    assert_eq!(a, DeployAction::Finish(Err(m)));
    assert!(run.is_finished());
}

#[test]
fn rollback_refuses_an_unknown_active_port() {
    let c = cfg();
    let (run, _, _) = rstep(RollbackRun::new(), &c, DeployEvent::Begin);
    let (run, _, _) = rstep(run, &c, DeployEvent::ImageExists(Ok(true)));
    let (_, r, _) = rstep(run, &c, DeployEvent::ActivePort(Ok(Some(1234))));
    assert_eq!(
        r,
        vec![s("槽位选择失败\nCaddy 端口 1234 与配置的槽位端口不匹配，请人工处理后再回滚")]
    );
}
