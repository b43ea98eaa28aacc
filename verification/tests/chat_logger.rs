use qq_bot::chat_logger::collector::{file_url_plan, kind_of, positions, SegmentKind, UrlPlan};
use qq_bot::chat_logger::collector::{
    describe_file, group_upload_record, image_extension, local_source, message_record, now_millis,
    sanitize_filename, saved_file_name, saved_image_name, saved_list, FileObject, JsonField,
    MessageFacts,
};
use qq_bot::chat_logger::commands::{
    monitor_reply, parse_logger_command, stats_reply, unmonitor_reply, LoggerCommand,
};
use qq_bot::chat_logger::config::{default_file_dir, default_image_dir};
use qq_bot::chat_logger::plugin::command_text;
use qq_bot::data_client::entities::NewChatRecord;
use qq_bot::onebot::Segment;

fn s(x: &str) -> String {
    x.to_string()
}

#[test]
fn default_directories() {
    assert_eq!(default_image_dir(), "data/chat_images");
    assert_eq!(default_file_dir(), "data/chat_files");
}

#[test]
fn picture_extensions_are_known_or_jpg() {
    assert_eq!(image_extension("http://h/p/pic.PNG?x=1", None), "png");
    assert_eq!(image_extension("http://h/p/pic.gif#top", None), "gif");
    assert_eq!(image_extension("http://h/p/pic.webp", Some("abc.BMP")), "bmp");
    assert_eq!(image_extension("http://h/a.png", Some("abc.image")), "jpg");
    assert_eq!(image_extension("http://h/download?file=a.png", None), "jpg");
    assert_eq!(image_extension("archive.tar.jpeg", None), "jpeg");
    assert_eq!(image_extension(".png", None), "jpg");
    assert_eq!(image_extension("dir/..", None), "jpg");
    assert_eq!(image_extension("", None), "jpg");
}

#[test]
fn file_names_are_made_safe() {
    assert_eq!(sanitize_filename("../../etc/passwd"), "_.._etc_passwd");
    assert_eq!(sanitize_filename("  report.pdf  "), "report.pdf");
    assert_eq!(sanitize_filename("a:b*c?d\"e<f>g|h\\i"), "a_b_c_d_e_f_g_h_i");
    assert_eq!(sanitize_filename("..."), "file");
    assert_eq!(sanitize_filename(" . . "), " ");
    assert_eq!(sanitize_filename(""), "file");
    assert_eq!(sanitize_filename("报告.docx"), "报告.docx");
    for name in ["..", ".", "/", "a/../b", " .x. "] {
        let t = sanitize_filename(name);
        assert!(!t.is_empty());
        assert!(!t.contains('/') && !t.contains('\\'));
        assert!(!t.starts_with('.') && !t.ends_with('.'));
    }
}

#[test]
fn clock_is_past_the_epoch() {
    let a = now_millis();
    let b = now_millis();
    assert!(a > 1_600_000_000_000);
    assert!(b >= a);
}

#[test]
fn saved_names() {
    assert_eq!(saved_file_name(17, Some("a/b.txt"), Some("id")), "17_a_b.txt");
    assert_eq!(saved_file_name(17, None, Some("/x")), "17__x");
    assert_eq!(saved_file_name(17, None, None), "17_file");
    assert_eq!(saved_image_name(-5, 2, 1700, "png"), "-5_2_1700.png");
    assert_eq!(saved_list(0, s("[]")), None);
    assert_eq!(saved_list(2, s("[1,2]")), Some(s("[1,2]")));
}

#[test]
fn local_sources() {
    assert_eq!(local_source("file:///tmp/a.txt"), Some(s("/tmp/a.txt")));
    assert_eq!(local_source("/data/a.txt"), Some(s("/data/a.txt")));
    assert_eq!(local_source("https://h/a.txt"), None);
    assert_eq!(local_source(""), None);
}

fn obj() -> FileObject {
    FileObject {
        name: JsonField::Missing,
        file: JsonField::Missing,
        file_name: JsonField::Missing,
        file_id: JsonField::Missing,
        id: JsonField::Missing,
        size: JsonField::Missing,
        file_size: JsonField::Missing,
        busid: JsonField::Missing,
        url: JsonField::Missing,
    }
}

#[test]
fn file_descriptions_in_their_several_shapes() {
    let mut o = obj();
    o.file = JsonField::Str(s("a.zip"));
    o.file_name = JsonField::Str(s("ignored"));
    o.id = JsonField::Str(s("f-1"));
    o.file_size = JsonField::Str(s("2048"));
    o.busid = JsonField::Int(102);
    let i = describe_file(&o);
    assert_eq!(i.name, Some(s("a.zip")));
    assert_eq!(i.file_id, Some(s("f-1")));
    assert_eq!(i.size, Some(2048));
    assert_eq!(i.busid, Some(102));
    assert_eq!(i.url, None);

    let mut o = obj();
    o.name = JsonField::Int(3);
    o.file = JsonField::Str(s("not used"));
    o.size = JsonField::Other;
    o.file_size = JsonField::Int(5);
    o.busid = JsonField::Str(s("x"));
    o.url = JsonField::Str(s("http://u"));
    let i = describe_file(&o);
    assert_eq!(i.name, None);
    assert_eq!(i.size, None);
    assert_eq!(i.busid, None);
    assert_eq!(i.url, Some(s("http://u")));
}

#[test]
fn records_of_messages_and_uploads() {
    let r: NewChatRecord = group_upload_record(9, 8, Some(s("a.zip")), s("[{}]"), None, 7, 100);
    assert_eq!(r.message_id, 0);
    assert_eq!(r.message_type, Some(s("notice")));
    assert_eq!(r.sub_type, Some(s("group_upload")));
    assert_eq!(r.human_text, Some(s("[file] a.zip")));
    assert_eq!(r.files, Some(s("[{}]")));
    assert_eq!((r.group_id, r.user_id, r.self_id, r.msg_time, r.font), (9, 8, 7, 100, 0));
    let r = group_upload_record(9, 0, None, s("[]"), Some(s("{}")), 7, 100);
    assert_eq!(r.human_text, Some(s("[file] ")));
    assert_eq!(r.original_json, Some(s("{}")));

    let m = MessageFacts {
        message_id: -3,
        user_id: 5,
        nickname: Some(s("nick")),
        card: None,
        role: Some(s("member")),
        message_type: s("group"),
        sub_type: s("normal"),
        raw_message: s("hi[CQ:image]"),
        text: Some(s("hi")),
        human_text: s("hi[image]"),
        self_id: 7,
        font: 14,
        time: 1700,
    };
    let r = message_record(m, 9, Some(s("[i]")), None, Some(s("[m]")), None);
    assert_eq!((r.message_id, r.group_id, r.user_id, r.font, r.msg_time), (-3, 9, 5, 14, 1700));
    assert_eq!(r.raw_message, Some(s("hi[CQ:image]")));
    assert_eq!(r.plain_text, Some(s("hi")));
    assert_eq!(r.images, Some(s("[i]")));
    assert_eq!(r.files, None);
    assert_eq!(r.nickname, Some(s("nick")));
    let d = NewChatRecord::default();
    assert_eq!(d.message_id, 0);
    assert_eq!(d.raw_message, None);
}

#[test]
fn logger_commands() {
    assert_eq!(parse_logger_command("监听 123"), LoggerCommand::Monitor(123));
    assert_eq!(parse_logger_command("  取消监听\t-5 extra"), LoggerCommand::Unmonitor(-5));
    assert_eq!(parse_logger_command("监听"), LoggerCommand::Usage(s("用法：监听 <群号>")));
    assert_eq!(parse_logger_command("取消监听 abc"), LoggerCommand::Usage(s("用法：取消监听 <群号>")));
    assert_eq!(parse_logger_command("统计监听 x"), LoggerCommand::Stats);
    assert_eq!(parse_logger_command("你好"), LoggerCommand::Ignore);
    assert_eq!(parse_logger_command(""), LoggerCommand::Ignore);
    assert_eq!(monitor_reply(123), "已开始监听群 123 的聊天记录。");
    assert_eq!(unmonitor_reply(-5, true), "已取消监听群 -5。");
    assert_eq!(unmonitor_reply(7, false), "群 7 本就不在监听列表中。");
}

#[test]
fn monitoring_statistics() {
    assert_eq!(stats_reply(&vec![]), "当前没有正在监听的群。");
    assert_eq!(
        stats_reply(&vec![(1, 10), (2, 0)]),
        "群 1：10 条\n群 2：0 条\n共 2 个群，累计 10 条聊天记录。"
    );
}

#[test]
fn management_text_needs_an_admin_mention() {
    let admins = vec![s("42")];
    let segs = vec![
        Segment::At { qq: Some(s("7")) },
        Segment::Text { text: Some(s(" 监听 1 ")) },
        Segment::Other,
    ];
    assert_eq!(command_text(&admins, 42, &segs, 7), Some(s("监听 1")));
    assert_eq!(command_text(&admins, 43, &segs, 7), None);
    assert_eq!(command_text(&admins, 42, &segs, 8), None);
}

#[test]
fn file_urls_and_segment_positions() {
    assert_eq!(file_url_plan(Some(s("http://u")), Some(s("f1"))), UrlPlan::Given(s("http://u")));
    assert_eq!(file_url_plan(None, Some(s("f1"))), UrlPlan::Resolve(s("f1")));
    assert_eq!(file_url_plan(None, None), UrlPlan::NoUrl);
    let kinds: Vec<SegmentKind> = ["text", "image", "file", "image", "at"].iter().map(|t| kind_of(t)).collect();
    assert_eq!(kinds[1], SegmentKind::Image);
    assert_eq!(kinds[4], SegmentKind::Other);
    assert_eq!(positions(&kinds, SegmentKind::Image), vec![1, 3]);
    assert_eq!(positions(&kinds, SegmentKind::File), vec![2]);
    assert_eq!(positions(&vec![SegmentKind::Other], SegmentKind::File), Vec::<usize>::new());
}
