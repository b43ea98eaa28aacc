//! The commands that manage the monitored groups: `监听`, `取消监听` and `统计监听`.

use vstd::prelude::*;
use crate::text::{
    append, chars_of, decimal, decimal_int, equal, i64_decimal, join, join_with, parse_i64,
    parse_i64_spec, push_str, split_words, string_of, u64_decimal, views, words, CharClass,
};

verus! {

/// What a management command asks for.
#[derive(Debug, Clone, PartialEq, Eq)]
pub enum LoggerCommand {
    /// Not a management command: no answer.
    Ignore,
    /// Answer with this usage.
    Usage(String),
    /// Start monitoring the group.
    Monitor(i64),
    /// Stop monitoring the group.
    Unmonitor(i64),
    /// Answer with the number of stored messages of each monitored group.
    Stats,
}

/// The group number after a command word.
pub open spec fn group_arg(t: Seq<Seq<char>>) -> Option<int> {
    if t.len() > 1 {
        parse_i64_spec(t[1])
    } else {
        None
    }
}

/// The management command that `text` holds; its words are separated by ASCII whitespace.
pub fn parse_logger_command(text: &str) -> (r: LoggerCommand)
    ensures
        ({
            let t = words(text@, CharClass::AsciiWhitespace);
            if t.len() == 0 {
                r is Ignore
            } else if t[0] == "监听"@ {
                match group_arg(t) {
                    Some(g) => r == LoggerCommand::Monitor(g as i64),
                    None => r matches LoggerCommand::Usage(u) && u@ == "用法：监听 <群号>"@,
                }
            } else if t[0] == "取消监听"@ {
                match group_arg(t) {
                    Some(g) => r == LoggerCommand::Unmonitor(g as i64),
                    None => r matches LoggerCommand::Usage(u) && u@ == "用法：取消监听 <群号>"@,
                }
            } else if t[0] == "统计监听"@ {
                r is Stats
            } else {
                r is Ignore
            }
        }),
{
    let t = split_words(&chars_of(text), CharClass::AsciiWhitespace);
    if t.len() == 0 {
        return LoggerCommand::Ignore;
    }
    let arg = if t.len() > 1 {
        parse_i64(&t[1])
    } else {
        None
    };
    assert(t@[0]@ == views(t@)[0]);
    if t.len() > 1 {
        assert(t@[1]@ == views(t@)[1]);
    }
    if equal(&t[0], &chars_of("监听")) {
        match arg {
            Some(g) => LoggerCommand::Monitor(g),
            None => LoggerCommand::Usage(string_of(&chars_of("用法：监听 <群号>"))),
        }
    } else if equal(&t[0], &chars_of("取消监听")) {
        match arg {
            Some(g) => LoggerCommand::Unmonitor(g),
            None => LoggerCommand::Usage(string_of(&chars_of("用法：取消监听 <群号>"))),
        }
    } else if equal(&t[0], &chars_of("统计监听")) {
        LoggerCommand::Stats
    } else {
        LoggerCommand::Ignore
    }
}

/// The answer once monitoring of `group_id` has started.
pub fn monitor_reply(group_id: i64) -> (r: String)
    ensures
        r@ == "已开始监听群 "@ + decimal_int(group_id as int) + " 的聊天记录。"@,
{
    let mut m = chars_of("已开始监听群 ");
    append(&mut m, &i64_decimal(group_id));
    push_str(&mut m, " 的聊天记录。");
    string_of(&m)
}

/// The answer once `group_id` was taken off the list; `removed` tells whether it was on it.
pub fn unmonitor_reply(group_id: i64, removed: bool) -> (r: String)
    ensures
        r@ == if removed {
            "已取消监听群 "@ + decimal_int(group_id as int) + "。"@
        } else {
            "群 "@ + decimal_int(group_id as int) + " 本就不在监听列表中。"@
        },
{
    let mut m = if removed {
        chars_of("已取消监听群 ")
    } else {
        chars_of("群 ")
    };
    append(&mut m, &i64_decimal(group_id));
    if removed {
        push_str(&mut m, "。");
    } else {
        push_str(&mut m, " 本就不在监听列表中。");
    }
    string_of(&m)
}

/// The sum of the counts.
pub open spec fn count_sum(counts: Seq<(i64, i64)>) -> int
    decreases counts.len(),
{
    if counts.len() == 0 {
        0
    } else {
        count_sum(counts.drop_last()) + counts.last().1
    }
}

/// Every running total of the counts fits in an `i64`.
pub open spec fn sums_fit(counts: Seq<(i64, i64)>) -> bool {
    forall|k: int| 0 <= k <= counts.len() ==> i64::MIN <= #[trigger] count_sum(counts.take(k))
        <= i64::MAX
}

pub open spec fn stat_line(p: (i64, i64)) -> Seq<char> {
    "群 "@ + decimal_int(p.0 as int) + "："@ + decimal_int(p.1 as int) + " 条"@
}

/// The answer of `统计监听`: one line per group with its count, then the number of groups
/// and the total; or a note that no group is monitored.
pub open spec fn stats_text(counts: Seq<(i64, i64)>) -> Seq<char> {
    if counts.len() == 0 {
        "当前没有正在监听的群。"@
    } else {
        join(
            counts.map_values(|p: (i64, i64)| stat_line(p)).push(
                "共 "@ + decimal(counts.len()) + " 个群，累计 "@ + decimal_int(count_sum(counts))
                    + " 条聊天记录。"@,
            ),
            "\n"@,
        )
    }
}

/// Adds the count of one group to a running total.
pub open spec fn add_count() -> spec_fn(int, (i64, i64)) -> int {
    |acc: int, p: (i64, i64)| acc + p.1
}

/// The total in the answer of `统计监听` is the arithmetic sum of all counts: a group more adds
/// its count, no group gives 0, and the answer's last line states the number of groups and
/// that sum.
pub proof fn stats_total_is_the_sum_of_the_counts(counts: Seq<(i64, i64)>, p: (i64, i64))
    ensures
        count_sum(Seq::<(i64, i64)>::empty()) == 0,
        count_sum(counts.push(p)) == count_sum(counts) + p.1,
        count_sum(counts) == counts.fold_left(0int, add_count()),
        counts.len() > 0 ==> stats_text(counts) == join(
            counts.map_values(|q: (i64, i64)| stat_line(q)),
            "\n"@,
        ) + "\n"@ + ("共 "@ + decimal(counts.len()) + " 个群，累计 "@ + decimal_int(
            counts.fold_left(0int, add_count()),
        ) + " 条聊天记录。"@),
    decreases counts.len(),
{
    assert(counts.push(p).drop_last() == counts);
    if counts.len() > 0 {
        stats_total_is_the_sum_of_the_counts(counts.drop_last(), counts.last());
        let lines = counts.map_values(|q: (i64, i64)| stat_line(q));
        let last = "共 "@ + decimal(counts.len()) + " 个群，累计 "@ + decimal_int(count_sum(counts))
            + " 条聊天记录。"@;
        assert(lines.push(last).drop_last() == lines);
        assert(lines.push(last).last() == last);
    }
}

/// The answer for the counts `(group, stored messages)` of the monitored groups.
pub fn stats_reply(counts: &Vec<(i64, i64)>) -> (r: String)
    requires
        sums_fit(counts@),
    ensures
        r@ == stats_text(counts@),
{
    if counts.len() == 0 {
        return string_of(&chars_of("当前没有正在监听的群。"));
    }
    let mut total: i64 = 0;
    let mut lines: Vec<Vec<char>> = Vec::new();
    let mut i: usize = 0;
    assert(counts@.take(0) == Seq::<(i64, i64)>::empty());
    while i < counts.len()
        invariant
            i <= counts@.len(),
            sums_fit(counts@),
            total == count_sum(counts@.take(i as int)),
            views(lines@) == counts@.take(i as int).map_values(|p: (i64, i64)| stat_line(p)),
        decreases counts@.len() - i,
    {
        let (g, c) = counts[i];
        assert(counts@.take(i + 1).drop_last() == counts@.take(i as int));
        assert(i64::MIN <= count_sum(counts@.take(i + 1)) <= i64::MAX);
        total = total + c;
        let mut line = chars_of("群 ");
        append(&mut line, &i64_decimal(g));
        push_str(&mut line, "：");
        append(&mut line, &i64_decimal(c));
        push_str(&mut line, " 条");
        let ghost before = lines@;
        lines.push(line);
        assert(views(lines@) == views(before).push(line@));
        assert(counts@.take(i + 1).map_values(|p: (i64, i64)| stat_line(p)) == counts@.take(
            i as int,
        ).map_values(|p: (i64, i64)| stat_line(p)).push(stat_line(counts@[i as int])));
        i = i + 1;
    }
    assert(counts@.take(i as int) == counts@);
    let mut last = chars_of("共 ");
    append(&mut last, &u64_decimal(counts.len() as u64));
    push_str(&mut last, " 个群，累计 ");
    append(&mut last, &i64_decimal(total));
    push_str(&mut last, " 条聊天记录。");
    let ghost before = lines@;
    lines.push(last);
    assert(views(lines@) == views(before).push(last@));
    string_of(&join_with(&lines, &chars_of("\n")))
}

} // verus!
