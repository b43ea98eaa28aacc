use qq_bot::feedback::plugin::{announce_accepts, announce_next, AnnounceAction, AnnounceEvent, AnnouncePhase};
use qq_bot::data_client::entities::{
    DateTime, FeedbackDetail, FeedbackMsg, FeedbackMsgType, FeedbackStatus, RabbitFeedbackMessage,
};
use qq_bot::feedback::api::{
    feedback_count_url, feedback_list_url, feedback_msg_url, feedback_url, status_update_needed,
    token_claims, token_expiry, token_fresh,
};
use qq_bot::feedback::commands::framework::{CommandContext, ContentSource, Reply};
use qq_bot::feedback::commands::handler::fast_reply::{
    FastReplyDeleteCommand, FastReplyDetailCommand, FastReplyListCommand, FastReplyUpdateCommand,
};
use qq_bot::feedback::commands::handler::feedback::{
    FeedbackConfirmCommand, FeedbackDetailCommand, FeedbackImageCommand, FeedbackListCommand,
    FeedbackReplyCommand, FeedbackResolveCommand, ListQuery, UpdateAction, UpdateEvent,
};
use qq_bot::feedback::commands::handler::misc::HelperCommand;
use qq_bot::feedback::commands::{find_command, help, CommandKind};
use qq_bot::feedback::plugin::{announcement, read_command};
use qq_bot::feedback::utils::{format_feedback_detail, format_feedback_summary, truncate_string};
use qq_bot::onebot::Segment;

fn s(x: &str) -> String {
    x.to_string()
}

fn ctx(args: &[&str], target: Option<u32>) -> CommandContext {
    CommandContext::new(args.iter().map(|a| s(a)).collect(), target)
}

fn time(h: u32) -> DateTime {
    DateTime { year: 2024, month: 3, day: 5, hour: h, minute: 7, second: 9 }
}

fn item(id: i32, msgs: Vec<FeedbackMsg>, img: Option<&str>, stu: Option<&str>) -> FeedbackDetail {
    FeedbackDetail {
        id,
        contact: None,
        create_time: time(8),
        desc: s("登录不了"),
        img_url: img.map(s),
        stu_id: stu.map(s),
        status: FeedbackStatus::Unconfirmed,
        update_time: time(9),
        comment: None,
        msgs,
    }
}

fn msg(text: Option<&str>) -> FeedbackMsg {
    FeedbackMsg {
        id: 1,
        typ: FeedbackMsgType::Comment,
        msg: text.map(s),
        feedback_id: 7,
        created_at: time(10),
    }
}

#[test]
fn context_reads_tokens_in_order() {
    let mut c = ctx(&["12", "abc", "-3", "#x"], None);
    assert_eq!(c.get_feedback_id(), Some(12));
    assert_eq!(c.next_number(), None);
    assert_eq!(c.next_number(), Some(-3));
    assert_eq!(c.next_fast_reply_id(), Some(s("x")));
    assert_eq!(c.next_token(), None);
    assert_eq!(c.get_content(), None);
}

#[test]
fn replied_feedback_id_wins_over_arguments() {
    let mut c = ctx(&["99", "hello"], Some(5));
    assert_eq!(c.get_feedback_id(), Some(5));
    assert_eq!(c.get_content(), Some(s("99 hello")));
    let mut c = ctx(&["x1"], None);
    assert_eq!(c.get_feedback_id(), None);
    let mut c = ctx(&["+7"], None);
    assert_eq!(c.get_feedback_id(), Some(7));
    let mut c = ctx(&["4294967296"], None);
    assert_eq!(c.get_feedback_id(), None);
    let mut c = ctx(&["hi"], None);
    assert_eq!(c.next_fast_reply_id(), None);
}

#[test]
fn content_source_of_the_remaining_tokens() {
    assert_eq!(ctx(&[], None).content_source(), ContentSource::Nothing);
    assert_eq!(ctx(&["#greet", "x"], None).content_source(), ContentSource::FastReply(s("greet")));
    assert_eq!(ctx(&["#"], None).content_source(), ContentSource::FastReply(s("")));
    assert_eq!(ctx(&["thanks", "a", "lot"], None).content_source(), ContentSource::Text(s("thanks a lot")));
}

#[test]
fn commands_are_found_by_name() {
    assert_eq!(find_command("帮助"), Some(CommandKind::Help));
    assert_eq!(find_command("回复"), Some(CommandKind::FeedbackReply));
    assert_eq!(find_command("回复列表"), Some(CommandKind::FastReplyList));
    assert_eq!(find_command("回复详情"), Some(CommandKind::FastReplyDetail));
    assert_eq!(find_command("部署"), None);
    assert_eq!(find_command(""), None);
    assert_eq!(CommandKind::FeedbackList.name(), "列表");
}

#[test]
fn test_helper_command() {
    let text = HelperCommand.render();
    assert_eq!(HelperCommand.command_name(), "帮助");
    assert!(text.starts_with("帮助\n    查看帮助信息\n\n列表 [未确认/已确认/已解决]"));
    assert!(text.contains("回复详情 #<快捷回复id>：查看快捷回复详情"));
    assert!(text.ends_with(
        "注：必须 @ 机器人，且在指定反馈群内才会处理消息。\n注：问题 id 参数可以通过回复消息或是直接指定获得。"
    ));
    assert_eq!(text, help());
}

#[test]
fn summary_and_detail_of_an_item() {
    let f = item(7, vec![], Some("http://img"), None);
    assert_eq!(
        format_feedback_summary(&f),
        "#7(未回复)\n学号：未提供\n时间：2024-03-05 08:07:09\n描述：登录不了\n（含有图片）"
    );
    assert_eq!(
        format_feedback_detail(&f),
        "#7 \n学号：未提供\n时间：2024-03-05 08:07:09\n描述：登录不了\n\n回复：(无)\n\n（含有图片）"
    );
    let f = item(8, vec![msg(Some("已处理")), msg(None)], None, Some("2021001"));
    assert_eq!(
        format_feedback_summary(&f),
        "#8(已回复)\n学号：2021001\n时间：2024-03-05 08:07:09\n描述：登录不了"
    );
    assert_eq!(
        format_feedback_detail(&f),
        "#8 \n学号：2021001\n时间：2024-03-05 08:07:09\n描述：登录不了\n\n--- 回复列表 ---\n[回复] 2024-03-05 10:07: 已处理\n[回复] 2024-03-05 10:07: "
    );
}

#[test]
fn long_strings_are_cut() {
    assert_eq!(truncate_string("你好世界", 2), "你好...");
    assert_eq!(truncate_string("abc", 3), "abc");
    assert_eq!(truncate_string(" a ", 1), " ...");
}

#[test]
fn dates_are_written_like_chrono() {
    let t = DateTime { year: 987, month: 12, day: 31, hour: 23, minute: 59, second: 1 };
    assert_eq!(t.to_second_string(), "0987-12-31 23:59:01");
    assert_eq!(t.to_minute_string(), "0987-12-31 23:59");
    let t = DateTime { year: 12345, month: 1, day: 2, hour: 3, minute: 4, second: 5 };
    assert_eq!(t.to_minute_string(), "+12345-01-02 03:04");
    let t = DateTime { year: -44, month: 3, day: 15, hour: 0, minute: 0, second: 0 };
    assert_eq!(t.to_minute_string(), "-0044-03-15 00:00");
}

#[test]
fn status_codes_and_names() {
    assert_eq!(FeedbackStatus::from_code(None), FeedbackStatus::Unconfirmed);
    assert_eq!(FeedbackStatus::from_code(Some(0)), FeedbackStatus::Unconfirmed);
    assert_eq!(FeedbackStatus::from_code(Some(2)), FeedbackStatus::Confirmed);
    assert_eq!(FeedbackStatus::from_code(Some(3)), FeedbackStatus::Resolved);
    for st in [FeedbackStatus::Unconfirmed, FeedbackStatus::Confirmed, FeedbackStatus::Resolved] {
        assert_eq!(FeedbackStatus::from_code(Some(st.code())), st);
        assert_eq!(i8::from(st), st.code());
    }
    assert_eq!(FeedbackStatus::Resolved.code(), 3);
    assert_eq!(FeedbackStatus::Resolved.ordinal(), 2);
    assert_eq!(FeedbackStatus::Confirmed.name(), "Confirmed");
    assert_eq!(FeedbackMsgType::from_name("anything"), FeedbackMsgType::Comment);
    assert_eq!(FeedbackMsgType::Comment.name(), "comment");
}

#[test]
fn back_end_addresses() {
    assert_eq!(
        feedback_list_url("https://w", FeedbackStatus::Resolved, 2, 5),
        "https://w/feedback?status=3&page=2&pageSize=5"
    );
    assert_eq!(
        feedback_count_url("https://w", FeedbackStatus::Unconfirmed),
        "https://w/feedback?status=0&page=1&pageSize=0"
    );
    assert_eq!(feedback_url("https://w", 2879), "https://w/feedback/2879");
    assert_eq!(feedback_msg_url("https://w", 1), "https://w/feedback/1/msg");
    assert!(!status_update_needed(FeedbackStatus::Resolved, FeedbackStatus::Resolved));
    assert!(status_update_needed(FeedbackStatus::Unconfirmed, FeedbackStatus::Confirmed));
}

#[test]
fn tokens_last_eight_hours_and_renew_an_hour_early() {
    assert_eq!(token_expiry(1000), 29800);
    let c = token_claims(12, 1000);
    assert_eq!((c.id, c.exp), (12, 29800));
    assert!(token_fresh(Some(4601), 1000));
    assert!(!token_fresh(Some(4600), 1000));
    assert!(!token_fresh(Some(10), 0));
    assert!(!token_fresh(None, 0));
}

#[test]
fn list_query_defaults_and_bounds() {
    let l = FeedbackListCommand;
    assert_eq!(
        l.plan(ctx(&[], None)),
        Ok(ListQuery { status: FeedbackStatus::Unconfirmed, page: 1, per_page: 5 })
    );
    assert_eq!(
        l.plan(ctx(&["已解决", "0", "100"], None)),
        Ok(ListQuery { status: FeedbackStatus::Resolved, page: 1, per_page: 20 })
    );
    assert_eq!(
        l.plan(ctx(&["已确认", "x", "-2"], None)),
        Ok(ListQuery { status: FeedbackStatus::Confirmed, page: 1, per_page: 1 })
    );
    assert_eq!(
        l.plan(ctx(&["未确认", "3"], None)),
        Ok(ListQuery { status: FeedbackStatus::Unconfirmed, page: 3, per_page: 5 })
    );
    assert_eq!(l.plan(ctx(&["全部"], None)), Err(s(l.command_usage())));
}

#[test]
fn list_answer_shows_the_page() {
    let l = FeedbackListCommand;
    let q = ListQuery { status: FeedbackStatus::Unconfirmed, page: 2, per_page: 5 };
    assert_eq!(l.render(&q, 11, &vec![]), "没有找到符合条件的反馈。");
    let fs = vec![item(1, vec![], None, None), item(2, vec![], None, Some("9"))];
    assert_eq!(
        l.render(&q, 11, &fs),
        "#1(未回复)\n学号：未提供\n时间：2024-03-05 08:07:09\n描述：登录不了\n\n#2(未回复)\n学号：9\n时间：2024-03-05 08:07:09\n描述：登录不了\n\n第 2 / 3 页，共 11 条反馈。"
    );
    assert!(l.render(&q, 10, &fs).ends_with("第 2 / 2 页，共 10 条反馈。"));
}

#[test]
fn detail_and_image_answers() {
    let d = FeedbackDetailCommand;
    assert_eq!(d.plan(ctx(&["7"], None)), Ok(7));
    assert_eq!(d.plan(ctx(&[], None)), Err(s("查看 <问题 id>\n    查看指定问题的详细信息")));
    assert_eq!(d.render(&None), "未找到指定 ID 的问题反馈。");
    let i = FeedbackImageCommand;
    assert_eq!(i.plan(ctx(&[], Some(3))), Ok(3));
    assert_eq!(i.render(&Some(item(1, vec![], Some("u"), None))), Reply::Image(s("u")));
    assert_eq!(i.render(&Some(item(1, vec![], None, None))), Reply::Text(s("该反馈没有附加图片。")));
    assert_eq!(i.render(&None), Reply::Text(s("未找到指定 ID 的问题反馈。")));
}

#[test]
fn answering_fetches_adds_and_shows_again() {
    let (run, a) = FeedbackReplyCommand.start(ctx(&["7", "已", "修复"], None));
    assert_eq!(a, UpdateAction::FetchDetail(7));
    assert!(run.accepts(&UpdateEvent::Detail(None)));
    let (run, a) = run.step(UpdateEvent::Detail(Some(item(7, vec![], None, None))));
    assert_eq!(a, UpdateAction::AddMessage(7, s("已 修复")));
    let (run, a) = run.step(UpdateEvent::Added);
    assert_eq!(a, UpdateAction::FetchDetail(7));
    let after = item(7, vec![msg(Some("已 修复"))], None, None);
    let expected = format_feedback_detail(&after);
    let (_, a) = run.step(UpdateEvent::Detail(Some(after)));
    assert_eq!(a, UpdateAction::Respond(expected));
}

#[test]
fn answering_with_a_quick_reply_looks_it_up_first() {
    let (run, a) = FeedbackReplyCommand.start(ctx(&["#thanks"], Some(9)));
    assert_eq!(a, UpdateAction::LookupFastReply(s("thanks")));
    let (_, a) = run.step(UpdateEvent::FastReply(None));
    assert_eq!(
        a,
        UpdateAction::Respond(s("回复 <问题 id> [...回复内容] / #[快捷回复id]\n    给指定问题添加回复"))
    );
    let (run, _) = FeedbackReplyCommand.start(ctx(&["#thanks"], Some(9)));
    let (run, a) = run.step(UpdateEvent::FastReply(Some(s("谢谢反馈"))));
    assert_eq!(a, UpdateAction::FetchDetail(9));
    let (_, a) = run.step(UpdateEvent::Detail(Some(item(9, vec![], None, None))));
    assert_eq!(a, UpdateAction::AddMessage(9, s("谢谢反馈")));
    let (_, a) = FeedbackReplyCommand.start(ctx(&["9"], None));
    assert!(matches!(a, UpdateAction::Respond(_)));
}

#[test]
fn confirming_a_missing_item_changes_nothing() {
    let (run, a) = FeedbackConfirmCommand.start(ctx(&["5"], None));
    assert_eq!(a, UpdateAction::FetchDetail(5));
    let (_, a) = run.step(UpdateEvent::Detail(None));
    assert_eq!(a, UpdateAction::Respond(s("未找到指定 ID 的问题反馈。")));
    let (run, _) = FeedbackConfirmCommand.start(ctx(&["5"], None));
    let (run, a) = run.step(UpdateEvent::Detail(Some(item(5, vec![], None, None))));
    assert_eq!(a, UpdateAction::SetStatus(5, FeedbackStatus::Confirmed));
    let (_, a) = run.step(UpdateEvent::StatusSet);
    assert_eq!(a, UpdateAction::FetchDetail(5));
    let (_, a) = FeedbackConfirmCommand.start(ctx(&[], None));
    assert_eq!(a, UpdateAction::Respond(s("确认 <问题 id>\n    标记问题为已确认")));
}

#[test]
fn resolving_adds_the_answer_then_sets_the_status() {
    let (run, _) = FeedbackResolveCommand.start(ctx(&["6", "ok"], None));
    let (run, a) = run.step(UpdateEvent::Detail(Some(item(6, vec![], None, None))));
    assert_eq!(a, UpdateAction::AddMessage(6, s("ok")));
    let (run, a) = run.step(UpdateEvent::Added);
    assert_eq!(a, UpdateAction::SetStatus(6, FeedbackStatus::Resolved));
    let (_, a) = run.step(UpdateEvent::StatusSet);
    assert_eq!(a, UpdateAction::FetchDetail(6));

    let (run, _) = FeedbackResolveCommand.start(ctx(&["6"], None));
    let (_, a) = run.step(UpdateEvent::Detail(Some(item(6, vec![], None, None))));
    assert_eq!(a, UpdateAction::SetStatus(6, FeedbackStatus::Resolved));

    let (run, _) = FeedbackResolveCommand.start(ctx(&["#bye"], Some(6)));
    let (run, a) = run.step(UpdateEvent::Detail(Some(item(6, vec![], None, None))));
    assert_eq!(a, UpdateAction::LookupFastReply(s("bye")));
    let (_, a) = run.step(UpdateEvent::FastReply(None));
    assert_eq!(a, UpdateAction::SetStatus(6, FeedbackStatus::Resolved));
}

#[test]
fn vanished_item_after_a_change() {
    let (run, _) = FeedbackConfirmCommand.start(ctx(&["5"], None));
    let (run, _) = run.step(UpdateEvent::Detail(Some(item(5, vec![], None, None))));
    let (run, _) = run.step(UpdateEvent::StatusSet);
    let (_, a) = run.step(UpdateEvent::Detail(None));
    assert_eq!(a, UpdateAction::Respond(s("内部错误：问题反馈在更新后被删除。")));
}

#[test]
fn quick_reply_commands() {
    let l = FastReplyListCommand;
    assert_eq!(l.render(&vec![]), "当前没有任何快捷回复。");
    assert_eq!(
        l.render(&vec![(s("a"), s("0123456789ab")), (s("b"), s("短"))]),
        "#a\n0123456789...\n\n#b\n短"
    );
    let u = FastReplyUpdateCommand;
    assert_eq!(u.plan(ctx(&["#hi", "你好", "呀"], None)), Ok((s("hi"), s("你好 呀"))));
    assert_eq!(u.plan(ctx(&["#hi"], None)), Err(s(u.command_usage())));
    assert_eq!(u.plan(ctx(&["hi", "x"], None)), Err(s(u.command_usage())));
    assert_eq!(u.done(), "快捷回复已更新。");
    let d = FastReplyDeleteCommand;
    assert_eq!(d.plan(ctx(&["#hi"], None)), Ok(s("hi")));
    assert_eq!(d.plan(ctx(&[], None)), Err(s("回复删除 #<快捷回复id>：删除快捷回复")));
    assert_eq!(d.decide(true), (true, s("快捷回复已删除。")));
    assert_eq!(d.decide(false), (false, s("未找到指定 ID 的快捷回复。")));
    let v = FastReplyDetailCommand;
    assert_eq!(v.plan(ctx(&["#hi"], None)), Ok(s("hi")));
    assert_eq!(v.render("hi", &Some(s("你好"))), "#hi\n你好");
    assert_eq!(v.render("hi", &None), "未找到指定 ID 的快捷回复。");
}

fn reply(id: &str) -> Segment {
    Segment::Reply { id: Some(s(id)) }
}

fn at(qq: &str) -> Segment {
    Segment::At { qq: Some(s(qq)) }
}

fn txt(t: &str) -> Segment {
    Segment::Text { text: Some(s(t)) }
}

#[test]
fn commands_are_read_from_mentions() {
    let segs = vec![reply("345"), at("10"), txt("回复\u{3000}7  谢谢\t你")];
    let c = read_command(&segs, 10).unwrap();
    assert_eq!(c.target, Some(345));
    assert_eq!(c.args, vec![s("回复\u{3000}7"), s("谢谢"), s("你")]);
    let segs = vec![at("11"), txt("帮助")];
    assert!(read_command(&segs, 10).is_none());
    let segs = vec![txt("列表"), at("10"), txt("已解决")];
    let c = read_command(&segs, 10).unwrap();
    assert_eq!(c.target, None);
    assert_eq!(c.args, vec![s("列表"), s("已解决")]);
    let segs = vec![at("10"), txt("回复 7 \u{3000} 谢谢")];
    assert_eq!(read_command(&segs, 10).unwrap().args, vec![s("回复"), s("7"), s("谢谢")]);
    let segs = vec![reply("1"), reply("x"), at("10")];
    assert_eq!(read_command(&segs, 10).unwrap().target, None);
}

#[test]
fn new_feedback_is_announced() {
    let f = RabbitFeedbackMessage { stu_id: None, desc: s("打不开"), img_url: Some(s("u")), id: 12 };
    assert_eq!(announcement(&f), "收到新的反馈 #12 \n学号: 未提供\n打不开\n（含有图片）");
    let f = RabbitFeedbackMessage { stu_id: Some(s("2021")), desc: s("x"), img_url: None, id: 3 };
    assert_eq!(announcement(&f), "收到新的反馈 #3 \n学号: 2021\nx");
}

#[test]
fn announcements_are_acked_after_send_and_store() {
    let e = AnnounceEvent::Sent(Ok(77));
    assert!(announce_accepts(AnnouncePhase::Sending, &e));
    assert_eq!(announce_next(12, AnnouncePhase::Sending, &e), (AnnouncePhase::Storing, AnnounceAction::Store(12, 77)));
    let e = AnnounceEvent::Stored(Ok(()));
    assert!(!announce_accepts(AnnouncePhase::Sending, &e));
    assert_eq!(announce_next(12, AnnouncePhase::Storing, &e), (AnnouncePhase::Done, AnnounceAction::Ack));
    let e = AnnounceEvent::Stored(Err(s("db locked")));
    assert_eq!(announce_next(12, AnnouncePhase::Storing, &e), (AnnouncePhase::Done, AnnounceAction::LeaveUnacked));
    let e = AnnounceEvent::Sent(Err(s("offline")));
    assert_eq!(announce_next(12, AnnouncePhase::Sending, &e), (AnnouncePhase::Done, AnnounceAction::LeaveUnacked));
}

#[test]
fn list_urls_use_the_back_end_codes() {
    assert_eq!(
        feedback_list_url("b", FeedbackStatus::Confirmed, 1, 5),
        "b/feedback?status=1&page=1&pageSize=5"
    );
    assert_eq!(feedback_count_url("b", FeedbackStatus::Resolved), "b/feedback?status=3&page=1&pageSize=0");
}
