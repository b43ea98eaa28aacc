use qq_bot::deploy::docker::{remote_digest_step, DigestProbe, RemoteDigestStep};
use qq_bot::deploy::swap::{SwapAction, SwapEvent, SwapRun};
use qq_bot::deploy::config::SlotConfig;
use qq_bot::deploy::docker::{
    buildx_digest, container_running, digest_from_listing, extract_digest, health_from_inspect, image_id_outcome,
    local_digest_from_id, local_digest_step, manifest_digest, poll_decision, poll_interval_secs,
    pull_outcome, remove_outcome, run_args, run_outcome, serde_json_lite_digest, start_outcome,
    stop_outcome, tag_outcome, truncate_output, DigestNotFound, HealthStatus, LocalDigestStep,
    PollDecision,
};

fn s(x: &str) -> String {
    x.to_string()
}

#[test]
fn output_is_trimmed_and_cut_by_characters() {
    assert_eq!(truncate_output("  hello \n", 10), "hello");
    assert_eq!(truncate_output("abcdef", 3), "abc...");
    assert_eq!(truncate_output("abc", 3), "abc");
    assert_eq!(truncate_output("镜像拉取失败", 2), "镜像...");
    assert_eq!(truncate_output("", 0), "");
    assert_eq!(truncate_output("x", 0), "...");
}

#[test]
fn digest_is_found_in_inspect_output() {
    assert_eq!(extract_digest("repo/app@sha256:abc\n"), Some(s("sha256:abc")));
    assert_eq!(extract_digest("a@b@c"), Some(s("c")));
    assert_eq!(extract_digest("sha256:123"), Some(s("sha256:123")));
    assert_eq!(extract_digest("Digest:    sha256:9f8e rest"), Some(s("sha256:9f8e")));
    assert_eq!(extract_digest("\"digest\": \"sha256:77\","), Some(s("sha256:77")));
    assert_eq!(extract_digest("<no value>"), None);
    assert_eq!(extract_digest("   "), None);
    assert_eq!(extract_digest("nothing here"), None);
}

#[test]
fn json_digest_takes_the_first_sha256_value() {
    assert_eq!(
        serde_json_lite_digest("{\"mediaType\": \"x\", \"digest\": \"sha256:abc\"}"),
        Ok(s("sha256:abc"))
    );
    assert_eq!(
        serde_json_lite_digest("{\"digest\":\"md5:1\",\"config\":{\"digest\" :  \"sha256:d\"}}"),
        Ok(s("sha256:d"))
    );
    assert_eq!(serde_json_lite_digest("{\"digest\": 5}"), Err(DigestNotFound));
    assert_eq!(serde_json_lite_digest("{}"), Err(DigestNotFound));
}

#[test]
fn running_state_is_read_case_insensitively() {
    assert!(container_running(0, "true\n"));
    assert!(container_running(0, " TRUE "));
    assert!(!container_running(0, "false"));
    assert!(!container_running(1, "true"));
}

#[test]
fn health_status_from_the_inspection() {
    assert_eq!(health_from_inspect(0, "healthy\n"), HealthStatus::Healthy);
    assert_eq!(health_from_inspect(0, "unhealthy"), HealthStatus::Unhealthy);
    assert_eq!(health_from_inspect(0, "starting"), HealthStatus::Starting);
    assert_eq!(health_from_inspect(0, "<no value>"), HealthStatus::RunningNoHealthcheck);
    assert_eq!(health_from_inspect(0, "<nil>"), HealthStatus::RunningNoHealthcheck);
    assert_eq!(health_from_inspect(0, " "), HealthStatus::RunningNoHealthcheck);
    assert_eq!(health_from_inspect(1, "healthy"), HealthStatus::RunningNoHealthcheck);
    assert_eq!(health_from_inspect(0, "odd"), HealthStatus::Unknown(s("odd")));
}

#[test]
fn poll_decisions_of_the_health_wait() {
    assert_eq!(poll_decision(&HealthStatus::Healthy, true, "app-a", 9), PollDecision::Ready(true));
    assert_eq!(
        poll_decision(&HealthStatus::RunningNoHealthcheck, false, "app-a", 9),
        PollDecision::Ready(false)
    );
    assert_eq!(
        poll_decision(&HealthStatus::Unhealthy, false, "app-a", 9),
        PollDecision::Failed(s("容器 app-a 健康检查失败 (unhealthy)"))
    );
    assert_eq!(
        poll_decision(&HealthStatus::NotRunning, false, "app-a", 9),
        PollDecision::Failed(s("容器 app-a 未在运行"))
    );
    assert_eq!(poll_decision(&HealthStatus::Starting, false, "app-a", 9), PollDecision::Wait);
    assert_eq!(
        poll_decision(&HealthStatus::Unknown(s("x")), true, "app-a", 9),
        PollDecision::Failed(s("等待容器 app-a 健康超时 (9s)"))
    );
    assert_eq!(poll_interval_secs(0), 1);
    assert_eq!(poll_interval_secs(4), 4);
}

#[test]
fn local_digest_steps() {
    assert_eq!(
        local_digest_step(0, "app@sha256:1", ""),
        LocalDigestStep::Answer(Some(s("sha256:1")))
    );
    assert_eq!(local_digest_step(0, "<no value>", ""), LocalDigestStep::Answer(None));
    assert_eq!(
        local_digest_step(1, "", "Error: No such image: app"),
        LocalDigestStep::Answer(None)
    );
    assert_eq!(local_digest_step(1, "", "template error"), LocalDigestStep::InspectId);
    assert_eq!(local_digest_from_id(0, "sha256:fe\n"), Some(s("sha256:fe")));
    assert_eq!(local_digest_from_id(0, " abc \n"), Some(s("abc")));
    assert_eq!(local_digest_from_id(1, "sha256:fe"), None);
}

#[test]
fn remote_digest_from_listing_and_manifest() {
    let listing = "Name: app\nMediaType: x\nDigest:    sha256:aa\n";
    assert_eq!(digest_from_listing(0, listing), Some(s("sha256:aa")));
    assert_eq!(digest_from_listing(0, "Name: app"), None);
    assert_eq!(digest_from_listing(1, listing), None);
    assert_eq!(buildx_digest("{}", 0, listing), Some(s("sha256:aa")));
    assert_eq!(buildx_digest("{\"digest\": \"sha256:bb\"}", 1, listing), Some(s("sha256:bb")));
    assert_eq!(buildx_digest("{}", 0, "Name: app"), None);
    assert_eq!(
        manifest_digest(0, "{\"config\": {\"digest\": \"sha256:cc\"}}", ""),
        Ok(s("sha256:cc"))
    );
    assert_eq!(manifest_digest(0, "x\nref sha256:dd\n", ""), Ok(s("sha256:dd")));
    assert_eq!(
        manifest_digest(1, "", " no such manifest \n"),
        Err(s("无法获取远端镜像 digest: no such manifest"))
    );
    assert_eq!(
        manifest_digest(0, "empty", ""),
        Err(s("无法从 manifest 输出解析 digest: empty"))
    );
}

#[test]
fn command_outcomes() {
    assert_eq!(pull_outcome(0, "", ""), Ok(()));
    assert_eq!(
        pull_outcome(1, "out", "err"),
        Err(s("docker pull 失败 (exit 1): out\nerr"))
    );
    assert_eq!(
        pull_outcome(-1, "", "boom"),
        Err(s("docker pull 失败 (exit -1): boom"))
    );
    assert_eq!(tag_outcome(0, "a", "b", "x"), Ok(()));
    assert_eq!(tag_outcome(1, "a", "b", "x\n"), Err(s("docker tag a -> b 失败: x")));
    assert_eq!(start_outcome(1, "app-a", "gone"), Err(s("docker start app-a 失败: gone")));
    assert_eq!(stop_outcome(1, "app-a", "Error: No such container: app-a"), Ok(()));
    assert_eq!(stop_outcome(1, "app-a", "busy"), Err(s("docker stop app-a 失败: busy")));
    assert_eq!(remove_outcome(0, "app-a", ""), Ok(()));
    assert_eq!(remove_outcome(2, "app-a", "busy"), Err(s("docker rm app-a 失败: busy")));
    assert_eq!(image_id_outcome(0, "app", " sha256:1 \n", ""), Ok(s("sha256:1")));
    assert_eq!(
        image_id_outcome(1, "app", "", "missing"),
        Err(s("无法获取镜像 app 的 ID: missing"))
    );
    assert_eq!(run_outcome(0, "abc123\n", ""), Ok(s("abc123")));
    assert_eq!(run_outcome(125, "", "conflict"), Err(s("docker run 失败: conflict")));
}

#[test]
fn run_arguments_map_the_slot_port() {
    let slot = SlotConfig { name: s("app-b"), host_port: 8082, container_port: 80 };
    let args = run_args(&slot, &vec![s("--env-file"), s(".env")], "app:local");
    assert_eq!(
        args,
        vec![
            s("run"),
            s("-d"),
            s("--name"),
            s("app-b"),
            s("-p"),
            s("8082:80"),
            s("--env-file"),
            s(".env"),
            s("app:local"),
        ]
    );
}

#[test]
fn remote_digest_tries_buildx_then_manifest() {
    let listing = Some((0, s("Name: x\nDigest: sha256:aa\n")));
    assert_eq!(remote_digest_step(0, "{}", &None, &None), RemoteDigestStep::Run(DigestProbe::BuildxListing));
    assert_eq!(remote_digest_step(0, "{}", &listing, &None), RemoteDigestStep::Answer(Ok(s("sha256:aa"))));
    let empty = Some((0, s("Name: x")));
    assert_eq!(remote_digest_step(0, "{}", &empty, &None), RemoteDigestStep::Run(DigestProbe::Manifest));
    assert_eq!(remote_digest_step(1, "", &None, &None), RemoteDigestStep::Run(DigestProbe::Manifest));
    assert_eq!(
        remote_digest_step(1, "", &None, &Some((0, s("{\"digest\": \"sha256:cc\"}"), s("")))),
        RemoteDigestStep::Answer(Ok(s("sha256:cc")))
    );
    assert_eq!(
        remote_digest_step(1, "", &None, &Some((1, s(""), s("denied")))),
        RemoteDigestStep::Answer(Err(s("无法获取远端镜像 digest: denied")))
    );
}

#[test]
fn tag_swap_crosses_the_ids() {
    let (run, a) = SwapRun::new("app:local", "app:older");
    assert_eq!(a, SwapAction::InspectId(s("app:local")));
    let (run, a) = run.step(SwapEvent::Inspected(Ok((0, s("sha256:L\n"), s("")))));
    assert_eq!(a, SwapAction::InspectId(s("app:older")));
    let (run, a) = run.step(SwapEvent::Inspected(Ok((0, s("sha256:O\n"), s("")))));
    assert_eq!(a, SwapAction::Tag(s("sha256:O"), s("app:local")));
    let e = SwapEvent::Tagged(Ok((0, s(""))));
    assert!(run.accepts(&e));
    let (run, a) = run.step(e);
    assert_eq!(a, SwapAction::Tag(s("sha256:L"), s("app:older")));
    let (run, a) = run.step(SwapEvent::Tagged(Ok((0, s("")))));
    assert_eq!(a, SwapAction::Finish(Ok(())));
    assert!(run.is_finished());

    let (run, _) = SwapRun::new("app:local", "app:older");
    let (run, _) = run.step(SwapEvent::Inspected(Ok((0, s("sha256:L"), s("")))));
    let (run, a) = run.step(SwapEvent::Inspected(Ok((1, s(""), s("No such image")))));
    assert_eq!(a, SwapAction::Finish(Err(s("无法获取镜像 app:older 的 ID: No such image"))));
    assert!(run.is_finished());
}
