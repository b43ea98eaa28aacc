//! The commands of the feedback plugin and how a command name selects one.

pub mod framework;
pub mod handler;

use vstd::prelude::*;
use crate::text::{chars_of, equal, join, join_with, string_of, trim, trim_class, views, CharClass};

verus! {

/// The commands, in the order the help lists them.
#[derive(Debug, Clone, Copy, PartialEq, Eq, Structural)]
pub enum CommandKind {
    Help,
    FeedbackList,
    FeedbackImage,
    FeedbackDetail,
    FeedbackReply,
    FeedbackConfirm,
    FeedbackResolve,
    FastReplyList,
    FastReplyUpdate,
    FastReplyDelete,
    FastReplyDetail,
}

/// The registered commands, in order.
pub open spec fn registry() -> Seq<CommandKind> {
    seq![
        CommandKind::Help,
        CommandKind::FeedbackList,
        CommandKind::FeedbackImage,
        CommandKind::FeedbackDetail,
        CommandKind::FeedbackReply,
        CommandKind::FeedbackConfirm,
        CommandKind::FeedbackResolve,
        CommandKind::FastReplyList,
        CommandKind::FastReplyUpdate,
        CommandKind::FastReplyDelete,
        CommandKind::FastReplyDetail,
    ]
}

pub open spec fn name_of(k: CommandKind) -> Seq<char> {
    match k {
        CommandKind::Help => "帮助"@,
        CommandKind::FeedbackList => "列表"@,
        CommandKind::FeedbackImage => "图片"@,
        CommandKind::FeedbackDetail => "查看"@,
        CommandKind::FeedbackReply => "回复"@,
        CommandKind::FeedbackConfirm => "确认"@,
        CommandKind::FeedbackResolve => "解决"@,
        CommandKind::FastReplyList => "回复列表"@,
        CommandKind::FastReplyUpdate => "回复更新"@,
        CommandKind::FastReplyDelete => "回复删除"@,
        CommandKind::FastReplyDetail => "回复详情"@,
    }
}

pub open spec fn usage_of(k: CommandKind) -> Seq<char> {
    match k {
        CommandKind::Help => "帮助\n    查看帮助信息"@,
        CommandKind::FeedbackList => "列表 [未确认/已确认/已解决] [页码] [每页个数]\n    查看反馈列表，默认为未确认，第 1 页，每页 5 条"@,
        CommandKind::FeedbackImage => "图片 <问题 id>\n    查看指定问题反馈的附加图片"@,
        CommandKind::FeedbackDetail => "查看 <问题 id>\n    查看指定问题的详细信息"@,
        CommandKind::FeedbackReply => "回复 <问题 id> [...回复内容] / #[快捷回复id]\n    给指定问题添加回复"@,
        CommandKind::FeedbackConfirm => "确认 <问题 id>\n    标记问题为已确认"@,
        CommandKind::FeedbackResolve => "解决 <问题 id> (可选->)[...回复内容] / #[快捷回复id]\n    标记问题为已解决，可选添加回复内容"@,
        CommandKind::FastReplyList => "回复列表：获取快捷回复列表"@,
        CommandKind::FastReplyUpdate => "回复更新 #<快捷回复id> <...快捷回复内容>：添加/更新快捷回复"@,
        CommandKind::FastReplyDelete => "回复删除 #<快捷回复id>：删除快捷回复"@,
        CommandKind::FastReplyDetail => "回复详情 #<快捷回复id>：查看快捷回复详情"@,
    }
}

impl CommandKind {
    /// The word that invokes the command.
    pub fn name(self) -> (r: &'static str)
        ensures
            r@ == name_of(self),
    {
        match self {
            CommandKind::Help => "帮助",
            CommandKind::FeedbackList => "列表",
            CommandKind::FeedbackImage => "图片",
            CommandKind::FeedbackDetail => "查看",
            CommandKind::FeedbackReply => "回复",
            CommandKind::FeedbackConfirm => "确认",
            CommandKind::FeedbackResolve => "解决",
            CommandKind::FastReplyList => "回复列表",
            CommandKind::FastReplyUpdate => "回复更新",
            CommandKind::FastReplyDelete => "回复删除",
            CommandKind::FastReplyDetail => "回复详情",
        }
    }

    /// How the command is used, as the help shows it.
    pub fn usage(self) -> (r: &'static str)
        ensures
            r@ == usage_of(self),
    {
        match self {
            CommandKind::Help => "帮助\n    查看帮助信息",
            CommandKind::FeedbackList => "列表 [未确认/已确认/已解决] [页码] [每页个数]\n    查看反馈列表，默认为未确认，第 1 页，每页 5 条",
            CommandKind::FeedbackImage => "图片 <问题 id>\n    查看指定问题反馈的附加图片",
            CommandKind::FeedbackDetail => "查看 <问题 id>\n    查看指定问题的详细信息",
            CommandKind::FeedbackReply => "回复 <问题 id> [...回复内容] / #[快捷回复id]\n    给指定问题添加回复",
            CommandKind::FeedbackConfirm => "确认 <问题 id>\n    标记问题为已确认",
            CommandKind::FeedbackResolve => "解决 <问题 id> (可选->)[...回复内容] / #[快捷回复id]\n    标记问题为已解决，可选添加回复内容",
            CommandKind::FastReplyList => "回复列表：获取快捷回复列表",
            CommandKind::FastReplyUpdate => "回复更新 #<快捷回复id> <...快捷回复内容>：添加/更新快捷回复",
            CommandKind::FastReplyDelete => "回复删除 #<快捷回复id>：删除快捷回复",
            CommandKind::FastReplyDetail => "回复详情 #<快捷回复id>：查看快捷回复详情",
        }
    }
}

fn registered() -> (r: Vec<CommandKind>)
    ensures
        r@ == registry(),
{
    let r = vec![
        CommandKind::Help,
        CommandKind::FeedbackList,
        CommandKind::FeedbackImage,
        CommandKind::FeedbackDetail,
        CommandKind::FeedbackReply,
        CommandKind::FeedbackConfirm,
        CommandKind::FeedbackResolve,
        CommandKind::FastReplyList,
        CommandKind::FastReplyUpdate,
        CommandKind::FastReplyDelete,
        CommandKind::FastReplyDetail,
    ];
    assert(r@ =~= registry());
    r
}

/// The command that `name` invokes.
pub fn find_command(name: &str) -> (r: Option<CommandKind>)
    ensures
        match r {
            Some(k) => registry().contains(k) && name_of(k) == name@,
            None => forall|k: CommandKind| registry().contains(k) ==> name_of(k) != name@,
        },
{
    let reg = registered();
    let n = chars_of(name);
    let mut i: usize = 0;
    while i < reg.len()
        invariant
            i <= reg@.len(),
            reg@ == registry(),
            n@ == name@,
            forall|j: int| 0 <= j < i ==> name_of(#[trigger] reg@[j]) != name@,
        decreases reg@.len() - i,
    {
        let k = reg[i];
        if equal(&chars_of(k.name()), &n) {
            assert(reg@[i as int] == k);
            return Some(k);
        }
        i = i + 1;
    }
    assert forall|k: CommandKind| registry().contains(k) implies name_of(k) != name@ by {
        let j = choose|j: int| 0 <= j < registry().len() && registry()[j] == k;
        assert(name_of(reg@[j]) != name@);
    }
    None
}

/// Every command is registered, and no two commands share a name: `find_command` on a
/// command's name gives that command.
pub proof fn each_name_selects_its_command(a: CommandKind, b: CommandKind)
    ensures
        registry().contains(a),
        name_of(a) == name_of(b) ==> a == b,
{
    reveal_strlit("帮助");
    reveal_strlit("列表");
    reveal_strlit("图片");
    reveal_strlit("查看");
    reveal_strlit("回复");
    reveal_strlit("确认");
    reveal_strlit("解决");
    reveal_strlit("回复列表");
    reveal_strlit("回复更新");
    reveal_strlit("回复删除");
    reveal_strlit("回复详情");
    let reg = registry();
    let i: int = match a {
        CommandKind::Help => 0,
        CommandKind::FeedbackList => 1,
        CommandKind::FeedbackImage => 2,
        CommandKind::FeedbackDetail => 3,
        CommandKind::FeedbackReply => 4,
        CommandKind::FeedbackConfirm => 5,
        CommandKind::FeedbackResolve => 6,
        CommandKind::FastReplyList => 7,
        CommandKind::FastReplyUpdate => 8,
        CommandKind::FastReplyDelete => 9,
        CommandKind::FastReplyDetail => 10,
    };
    assert(reg[i] == a);
    if name_of(a) == name_of(b) && a != b {
        assert(name_of(a).len() == name_of(b).len());
        assert(name_of(a)[0] == name_of(b)[0]);
        assert(name_of(a)[1] == name_of(b)[1]);
        if name_of(a).len() > 2 {
            assert(name_of(a)[2] == name_of(b)[2]);
            assert(name_of(a)[3] == name_of(b)[3]);
        }
    }
}

/// The tips at the end of the help.
pub const TIPS: &'static str = "
注：必须 @ 机器人，且在指定反馈群内才会处理消息。
注：问题 id 参数可以通过回复消息或是直接指定获得。
";

/// The help: every command's usage, in order, then the tips.
pub open spec fn help_text() -> Seq<char> {
    join(registry().map_values(|k: CommandKind| usage_of(k)), "\n\n"@) + "\n\n"@ + trim(
        TIPS@,
        CharClass::Whitespace,
    )
}

/// The help text.
pub fn help() -> (r: String)
    ensures
        r@ == help_text(),
{
    let reg = registered();
    let mut parts: Vec<Vec<char>> = Vec::new();
    let mut i: usize = 0;
    while i < reg.len()
        invariant
            i <= reg@.len(),
            reg@ == registry(),
            views(parts@) == registry().map_values(|k: CommandKind| usage_of(k)).take(i as int),
        decreases reg@.len() - i,
    {
        let u = chars_of(reg[i].usage());
        let ghost before = parts@;
        parts.push(u);
        assert(views(parts@) == views(before).push(u@));
        assert(registry().map_values(|k: CommandKind| usage_of(k)).take(i + 1) == registry().map_values(
            |k: CommandKind| usage_of(k),
        ).take(i as int).push(usage_of(registry()[i as int])));
        i = i + 1;
    }
    assert(registry().map_values(|k: CommandKind| usage_of(k)).take(i as int) == registry().map_values(
        |k: CommandKind| usage_of(k),
    ));
    let mut m = join_with(&parts, &chars_of("\n\n"));
    crate::text::push_str(&mut m, "\n\n");
    crate::text::append(&mut m, &trim_class(&chars_of(TIPS), CharClass::Whitespace));
    string_of(&m)
}

} // verus!
