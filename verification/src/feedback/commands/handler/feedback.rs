//! The feedback commands: show a feedback item or its picture, answer, confirm or resolve
//! it, and list feedback.

use vstd::prelude::*;
use crate::data_client::entities::{FeedbackDetail, FeedbackStatus};
use crate::feedback::commands::framework::{
    content_of, fast_reply_ref, CommandContext, ContentSource, Reply,
};
use crate::feedback::utils::{detail_text, format_feedback_detail, format_feedback_summary, summary_text};
use crate::text::{
    append, chars_of, decimal, equal, join, join_with, parse_i64_spec, parse_unsigned, push_str,
    string_of, u64_decimal, views, lemma_parse_decimal,
};

verus! {

pub struct FeedbackDetailCommand;

pub struct FeedbackImageCommand;

pub struct FeedbackReplyCommand;

pub struct FeedbackConfirmCommand;

pub struct FeedbackResolveCommand;

pub struct FeedbackListCommand;

pub open spec fn not_found_text() -> Seq<char> {
    "未找到指定 ID 的问题反馈。"@
}

pub open spec fn vanished_text() -> Seq<char> {
    "内部错误：问题反馈在更新后被删除。"@
}

/// The feedback item that a command is about: the one replied to, else the first argument
/// as a number.
pub open spec fn feedback_id_of(ctx: CommandContext) -> Option<u32> {
    if ctx.target() is Some {
        ctx.target()
    } else if ctx.rest().len() > 0 {
        match parse_unsigned(ctx.rest()[0], 0xFFFF_FFFF) {
            Some(v) => Some(v as u32),
            None => None,
        }
    } else {
        None
    }
}

/// The arguments after the feedback item's number, when the number was read from them.
pub open spec fn after_id(ctx: CommandContext) -> Seq<Seq<char>> {
    if ctx.target() is None && ctx.rest().len() > 0 {
        ctx.rest().drop_first()
    } else {
        ctx.rest()
    }
}

pub open spec fn detail_usage() -> Seq<char> {
    "查看 <问题 id>\n    查看指定问题的详细信息"@
}

impl FeedbackDetailCommand {
    pub fn command_name(&self) -> (r: &'static str)
        ensures
            r@ == "查看"@,
    {
        "查看"
    }

    pub fn command_usage(&self) -> (r: &'static str)
        ensures
            r@ == detail_usage(),
    {
        "查看 <问题 id>\n    查看指定问题的详细信息"
    }

    /// The feedback item to show; the usage when none is given.
    pub fn plan(&self, ctx: CommandContext) -> (r: Result<u32, String>)
        ensures
            match feedback_id_of(ctx) {
                Some(id) => r == Ok::<u32, String>(id),
                None => r matches Err(u) && u@ == detail_usage(),
            },
    {
        let mut ctx = ctx;
        match ctx.get_feedback_id() {
            Some(id) => Ok(id),
            None => Err(string_of(&chars_of(self.command_usage()))),
        }
    }

    /// The answer: the item's detail, or a note that it does not exist.
    pub fn render(&self, detail: &Option<FeedbackDetail>) -> (r: String)
        ensures
            r@ == match detail {
                Some(d) => detail_text(*d),
                None => not_found_text(),
            },
    {
        match detail {
            Some(d) => format_feedback_detail(d),
            None => string_of(&chars_of("未找到指定 ID 的问题反馈。")),
        }
    }
}

pub open spec fn image_usage() -> Seq<char> {
    "图片 <问题 id>\n    查看指定问题反馈的附加图片"@
}

impl FeedbackImageCommand {
    pub fn command_name(&self) -> (r: &'static str)
        ensures
            r@ == "图片"@,
    {
        "图片"
    }

    pub fn command_usage(&self) -> (r: &'static str)
        ensures
            r@ == image_usage(),
    {
        "图片 <问题 id>\n    查看指定问题反馈的附加图片"
    }

    /// The feedback item whose picture to show; the usage when none is given.
    pub fn plan(&self, ctx: CommandContext) -> (r: Result<u32, String>)
        ensures
            match feedback_id_of(ctx) {
                Some(id) => r == Ok::<u32, String>(id),
                None => r matches Err(u) && u@ == image_usage(),
            },
    {
        let mut ctx = ctx;
        match ctx.get_feedback_id() {
            Some(id) => Ok(id),
            None => Err(string_of(&chars_of(self.command_usage()))),
        }
    }

    /// The answer: the item's picture, a note that it has none, or that it does not exist.
    pub fn render(&self, detail: &Option<FeedbackDetail>) -> (r: Reply)
        ensures
            match detail {
                Some(d) => match &d.img_url {
                    Some(u) => r matches Reply::Image(i) && i@ == u@,
                    None => r matches Reply::Text(t) && t@ == "该反馈没有附加图片。"@,
                },
                None => r matches Reply::Text(t) && t@ == not_found_text(),
            },
    {
        match detail {
            Some(d) => match &d.img_url {
                Some(u) => Reply::Image(u.clone()),
                None => Reply::Text(string_of(&chars_of("该反馈没有附加图片。"))),
            },
            None => Reply::Text(string_of(&chars_of("未找到指定 ID 的问题反馈。"))),
        }
    }
}


/// Which change a feedback command makes.
#[derive(Debug, Clone, Copy, PartialEq, Eq, Structural)]
pub enum UpdateKind {
    /// `回复`: add an answer.
    Answer,
    /// `确认`: mark as confirmed.
    Confirm,
    /// `解决`: mark as resolved, with an optional answer first.
    Resolve,
}

/// What a feedback change waits for.
#[derive(Debug, Clone, Copy, PartialEq, Eq, Structural)]
pub enum UpdatePhase {
    /// The content of a quick reply used as the answer, before anything else.
    AnswerContent,
    /// Whether the item exists.
    FirstDetail,
    /// The content of a quick reply used as the answer of a resolution.
    ResolveContent,
    /// The answer was added.
    Added,
    /// The status was set.
    StatusSet,
    /// The item after the change.
    FinalDetail,
    /// Nothing: the command has answered.
    Done,
}

/// Where a resolution's optional answer comes from.
#[derive(Debug, Clone, Copy, PartialEq, Eq, Structural)]
pub enum SourceKind {
    Nothing,
    FastReply,
    Text,
}

/// What the caller does next for a feedback change.
#[derive(Debug, Clone, PartialEq, Eq)]
pub enum UpdateAction {
    /// Look up the quick reply with this identifier, answered by `FastReply`.
    LookupFastReply(String),
    /// Fetch the feedback item, answered by `Detail`.
    FetchDetail(u32),
    /// Add this answer to the item, answered by `Added`.
    AddMessage(u32, String),
    /// Set the item's status, answered by `StatusSet`.
    SetStatus(u32, FeedbackStatus),
    /// Answer in the group; the command is over.
    Respond(String),
}

/// What the caller reports.
pub enum UpdateEvent {
    FastReply(Option<String>),
    Detail(Option<FeedbackDetail>),
    Added,
    StatusSet,
}

/// A feedback change in progress.
pub struct UpdateRun {
    kind: UpdateKind,
    phase: UpdatePhase,
    id: u32,
    content: String,
    source: SourceKind,
    fast: String,
}

pub ghost struct UpdateRunView {
    pub kind: UpdateKind,
    pub phase: UpdatePhase,
    pub id: u32,
    pub content: Seq<char>,
    pub source: SourceKind,
    pub fast: Seq<char>,
}

pub ghost enum UpdateActionView {
    LookupFastReply(Seq<char>),
    FetchDetail(u32),
    AddMessage(u32, Seq<char>),
    SetStatus(u32, FeedbackStatus),
    Respond(Seq<char>),
}

/// An event as the change sees it: a fetched item by its detail text.
pub ghost enum UpdateEventView {
    FastReply(Option<Seq<char>>),
    Detail(Option<Seq<char>>),
    Added,
    StatusSet,
}

impl View for UpdateRun {
    type V = UpdateRunView;

    closed spec fn view(&self) -> UpdateRunView {
        UpdateRunView {
            kind: self.kind,
            phase: self.phase,
            id: self.id,
            content: self.content@,
            source: self.source,
            fast: self.fast@,
        }
    }
}

impl View for UpdateAction {
    type V = UpdateActionView;

    open spec fn view(&self) -> UpdateActionView {
        match self {
            UpdateAction::LookupFastReply(f) => UpdateActionView::LookupFastReply(f@),
            UpdateAction::FetchDetail(id) => UpdateActionView::FetchDetail(*id),
            UpdateAction::AddMessage(id, m) => UpdateActionView::AddMessage(*id, m@),
            UpdateAction::SetStatus(id, st) => UpdateActionView::SetStatus(*id, *st),
            UpdateAction::Respond(m) => UpdateActionView::Respond(m@),
        }
    }
}

impl View for UpdateEvent {
    type V = UpdateEventView;

    open spec fn view(&self) -> UpdateEventView {
        match self {
            UpdateEvent::FastReply(c) => UpdateEventView::FastReply(
                match c {
                    Some(t) => Some(t@),
                    None => None,
                },
            ),
            UpdateEvent::Detail(d) => UpdateEventView::Detail(
                match d {
                    Some(f) => Some(detail_text(*f)),
                    None => None,
                },
            ),
            UpdateEvent::Added => UpdateEventView::Added,
            UpdateEvent::StatusSet => UpdateEventView::StatusSet,
        }
    }
}

/// A quick reply is looked up for an answer only by `回复`, and for a resolution only by
/// `解决` with a `#id` after the item's number.
pub open spec fn update_wf(s: UpdateRunView) -> bool {
    &&& s.phase == UpdatePhase::AnswerContent ==> s.kind == UpdateKind::Answer
    &&& s.phase == UpdatePhase::ResolveContent ==> s.kind == UpdateKind::Resolve && s.source
        == SourceKind::FastReply
}

/// The events that a change in `phase` waits for.
pub open spec fn update_expects(phase: UpdatePhase, e: UpdateEventView) -> bool {
    match (phase, e) {
        (UpdatePhase::AnswerContent, UpdateEventView::FastReply(_)) => true,
        (UpdatePhase::ResolveContent, UpdateEventView::FastReply(_)) => true,
        (UpdatePhase::FirstDetail, UpdateEventView::Detail(_)) => true,
        (UpdatePhase::FinalDetail, UpdateEventView::Detail(_)) => true,
        (UpdatePhase::Added, UpdateEventView::Added) => true,
        (UpdatePhase::StatusSet, UpdateEventView::StatusSet) => true,
        _ => false,
    }
}

pub open spec fn at(s: UpdateRunView, phase: UpdatePhase) -> UpdateRunView {
    UpdateRunView { phase, ..s }
}

/// The status that a change sets.
pub open spec fn target_status(kind: UpdateKind) -> FeedbackStatus {
    match kind {
        UpdateKind::Confirm => FeedbackStatus::Confirmed,
        _ => FeedbackStatus::Resolved,
    }
}

/// One step of a feedback change after event `e`.
pub open spec fn update_next(s: UpdateRunView, e: UpdateEventView) -> (UpdateRunView, UpdateActionView) {
    match (s.phase, e) {
        (UpdatePhase::AnswerContent, UpdateEventView::FastReply(c)) => match c {
            None => (at(s, UpdatePhase::Done), UpdateActionView::Respond(answer_usage())),
            Some(t) => (
                UpdateRunView { phase: UpdatePhase::FirstDetail, content: t, ..s },
                UpdateActionView::FetchDetail(s.id),
            ),
        },
        (UpdatePhase::FirstDetail, UpdateEventView::Detail(d)) => match d {
            None => (at(s, UpdatePhase::Done), UpdateActionView::Respond(not_found_text())),
            Some(_) => match s.kind {
                UpdateKind::Answer => (
                    at(s, UpdatePhase::Added),
                    UpdateActionView::AddMessage(s.id, s.content),
                ),
                UpdateKind::Confirm => (
                    at(s, UpdatePhase::StatusSet),
                    UpdateActionView::SetStatus(s.id, FeedbackStatus::Confirmed),
                ),
                UpdateKind::Resolve => match s.source {
                    SourceKind::FastReply => (
                        at(s, UpdatePhase::ResolveContent),
                        UpdateActionView::LookupFastReply(s.fast),
                    ),
                    SourceKind::Text => (
                        at(s, UpdatePhase::Added),
                        UpdateActionView::AddMessage(s.id, s.content),
                    ),
                    SourceKind::Nothing => (
                        at(s, UpdatePhase::StatusSet),
                        UpdateActionView::SetStatus(s.id, FeedbackStatus::Resolved),
                    ),
                },
            },
        },
        (UpdatePhase::ResolveContent, UpdateEventView::FastReply(c)) => match c {
            Some(t) => (
                UpdateRunView { phase: UpdatePhase::Added, content: t, ..s },
                UpdateActionView::AddMessage(s.id, t),
            ),
            None => (
                at(s, UpdatePhase::StatusSet),
                UpdateActionView::SetStatus(s.id, FeedbackStatus::Resolved),
            ),
        },
        (UpdatePhase::Added, UpdateEventView::Added) => match s.kind {
            UpdateKind::Resolve => (
                at(s, UpdatePhase::StatusSet),
                UpdateActionView::SetStatus(s.id, FeedbackStatus::Resolved),
            ),
            _ => (at(s, UpdatePhase::FinalDetail), UpdateActionView::FetchDetail(s.id)),
        },
        (UpdatePhase::StatusSet, UpdateEventView::StatusSet) => (
            at(s, UpdatePhase::FinalDetail),
            UpdateActionView::FetchDetail(s.id),
        ),
        (UpdatePhase::FinalDetail, UpdateEventView::Detail(d)) => match d {
            Some(t) => (at(s, UpdatePhase::Done), UpdateActionView::Respond(t)),
            None => (at(s, UpdatePhase::Done), UpdateActionView::Respond(vanished_text())),
        },
        _ => (s, UpdateActionView::Respond(Seq::<char>::empty())),
    }
}

pub open spec fn answer_usage() -> Seq<char> {
    "回复 <问题 id> [...回复内容] / #[快捷回复id]\n    给指定问题添加回复"@
}

pub open spec fn confirm_usage() -> Seq<char> {
    "确认 <问题 id>\n    标记问题为已确认"@
}

pub open spec fn resolve_usage() -> Seq<char> {
    "解决 <问题 id> (可选->)[...回复内容] / #[快捷回复id]\n    标记问题为已解决，可选添加回复内容"@
}

fn respond(s: &str) -> (r: UpdateAction)
    ensures
        r@ == UpdateActionView::Respond(s@),
{
    UpdateAction::Respond(string_of(&chars_of(s)))
}

impl UpdateRun {
    #[verifier::type_invariant]
    spec fn inv(self) -> bool {
        update_wf(self@)
    }

    /// The change of kind `kind` on item `id`, in `phase`.
    fn make(kind: UpdateKind, phase: UpdatePhase, id: u32) -> (r: UpdateRun)
        requires
            phase == UpdatePhase::Done || phase == UpdatePhase::FirstDetail,
        ensures
            r@.kind == kind && r@.phase == phase && r@.id == id && r@.source == SourceKind::Nothing,
    {
        UpdateRun {
            kind,
            phase,
            id,
            content: String::new(),
            source: SourceKind::Nothing,
            fast: String::new(),
        }
    }

    /// Whether the change waits for `e`.
    pub fn accepts(&self, e: &UpdateEvent) -> (r: bool)
        ensures
            r == update_expects(self@.phase, e@),
    {
        match (self.phase, e) {
            (UpdatePhase::AnswerContent, UpdateEvent::FastReply(_)) => true,
            (UpdatePhase::ResolveContent, UpdateEvent::FastReply(_)) => true,
            (UpdatePhase::FirstDetail, UpdateEvent::Detail(_)) => true,
            (UpdatePhase::FinalDetail, UpdateEvent::Detail(_)) => true,
            (UpdatePhase::Added, UpdateEvent::Added) => true,
            (UpdatePhase::StatusSet, UpdateEvent::StatusSet) => true,
            _ => false,
        }
    }

    /// Advances the change by one event.
    pub fn step(self, e: UpdateEvent) -> (r: (UpdateRun, UpdateAction))
        requires
            update_expects(self@.phase, e@),
        ensures
            (r.0@, r.1@) == update_next(self@, e@),
    {
        proof {
            use_type_invariant(&self);
        }
        match e {
            UpdateEvent::FastReply(c) => match self.phase {
                UpdatePhase::AnswerContent => match c {
                    None => (UpdateRun { phase: UpdatePhase::Done, ..self }, respond(
                        "回复 <问题 id> [...回复内容] / #[快捷回复id]\n    给指定问题添加回复",
                    )),
                    Some(t) => {
                        let id = self.id;
                        (UpdateRun { phase: UpdatePhase::FirstDetail, content: t, ..self },
                        UpdateAction::FetchDetail(id))
                    },
                },
                _ => match c {
                    Some(t) => {
                        let id = self.id;
                        let m = t.clone();
                        (UpdateRun { phase: UpdatePhase::Added, content: t, ..self },
                        UpdateAction::AddMessage(id, m))
                    },
                    None => {
                        let id = self.id;
                        (UpdateRun { phase: UpdatePhase::StatusSet, ..self }, UpdateAction::SetStatus(
                            id,
                            FeedbackStatus::Resolved,
                        ))
                    },
                },
            },
            UpdateEvent::Detail(d) => match self.phase {
                UpdatePhase::FirstDetail => match d {
                    None => (UpdateRun { phase: UpdatePhase::Done, ..self }, respond(
                        "未找到指定 ID 的问题反馈。",
                    )),
                    Some(_) => {
                        let id = self.id;
                        match self.kind {
                            UpdateKind::Answer => {
                                let m = self.content.clone();
                                (UpdateRun { phase: UpdatePhase::Added, ..self },
                                UpdateAction::AddMessage(id, m))
                            },
                            UpdateKind::Confirm => (UpdateRun {
                                phase: UpdatePhase::StatusSet,
                                ..self
                            }, UpdateAction::SetStatus(id, FeedbackStatus::Confirmed)),
                            UpdateKind::Resolve => match self.source {
                                SourceKind::FastReply => {
                                    let f = self.fast.clone();
                                    (UpdateRun { phase: UpdatePhase::ResolveContent, ..self },
                                    UpdateAction::LookupFastReply(f))
                                },
                                SourceKind::Text => {
                                    let m = self.content.clone();
                                    (UpdateRun { phase: UpdatePhase::Added, ..self },
                                    UpdateAction::AddMessage(id, m))
                                },
                                SourceKind::Nothing => (UpdateRun {
                                    phase: UpdatePhase::StatusSet,
                                    ..self
                                }, UpdateAction::SetStatus(id, FeedbackStatus::Resolved)),
                            },
                        }
                    },
                },
                _ => match d {
                    Some(f) => (UpdateRun { phase: UpdatePhase::Done, ..self }, UpdateAction::Respond(
                        format_feedback_detail(&f),
                    )),
                    None => (UpdateRun { phase: UpdatePhase::Done, ..self }, respond(
                        "内部错误：问题反馈在更新后被删除。",
                    )),
                },
            },
            UpdateEvent::Added => {
                let id = self.id;
                match self.kind {
                    UpdateKind::Resolve => (UpdateRun { phase: UpdatePhase::StatusSet, ..self },
                    UpdateAction::SetStatus(id, FeedbackStatus::Resolved)),
                    _ => (UpdateRun { phase: UpdatePhase::FinalDetail, ..self },
                    UpdateAction::FetchDetail(id)),
                }
            },
            UpdateEvent::StatusSet => {
                let id = self.id;
                (UpdateRun { phase: UpdatePhase::FinalDetail, ..self }, UpdateAction::FetchDetail(id))
            },
        }
    }
}

/// The first operation of an answer (`回复`) for the arguments `ctx`.
pub open spec fn answer_start(ctx: CommandContext, r: UpdateRunView, a: UpdateActionView) -> bool {
    match feedback_id_of(ctx) {
        None => a == UpdateActionView::Respond(answer_usage()) && r.phase == UpdatePhase::Done,
        Some(id) => {
            let t = after_id(ctx);
            &&& r.kind == UpdateKind::Answer
            &&& r.id == id
            &&& if t.len() == 0 {
                a == UpdateActionView::Respond(answer_usage()) && r.phase == UpdatePhase::Done
            } else if fast_reply_ref(t[0]) is Some {
                a == UpdateActionView::LookupFastReply(fast_reply_ref(t[0]).unwrap()) && r.phase
                    == UpdatePhase::AnswerContent
            } else if content_of(t) is Some {
                a == UpdateActionView::FetchDetail(id) && r.phase == UpdatePhase::FirstDetail
                    && r.content == content_of(t).unwrap()
            } else {
                a == UpdateActionView::Respond(answer_usage()) && r.phase == UpdatePhase::Done
            }
        },
    }
}

impl FeedbackReplyCommand {
    pub fn command_name(&self) -> (r: &'static str)
        ensures
            r@ == "回复"@,
    {
        "回复"
    }

    pub fn command_usage(&self) -> (r: &'static str)
        ensures
            r@ == answer_usage(),
    {
        "回复 <问题 id> [...回复内容] / #[快捷回复id]\n    给指定问题添加回复"
    }

    /// Starts adding an answer: the item comes first, then the answer's text or `#id` of a
    /// quick reply.
    pub fn start(&self, ctx: CommandContext) -> (r: (UpdateRun, UpdateAction))
        ensures
            answer_start(ctx, r.0@, r.1@),
    {
        let mut ctx = ctx;
        let id = match ctx.get_feedback_id() {
            Some(id) => id,
            None => {
                return (UpdateRun::make(UpdateKind::Answer, UpdatePhase::Done, 0), respond(
                    self.command_usage(),
                ));
            },
        };
        let run = UpdateRun::make(UpdateKind::Answer, UpdatePhase::Done, id);
        match ctx.content_source() {
            ContentSource::Nothing => (run, respond(self.command_usage())),
            ContentSource::FastReply(f) => (UpdateRun { phase: UpdatePhase::AnswerContent, ..run },
            UpdateAction::LookupFastReply(f)),
            ContentSource::Text(c) => (UpdateRun {
                phase: UpdatePhase::FirstDetail,
                content: c,
                ..run
            }, UpdateAction::FetchDetail(id)),
        }
    }
}

impl FeedbackConfirmCommand {
    pub fn command_name(&self) -> (r: &'static str)
        ensures
            r@ == "确认"@,
    {
        "确认"
    }

    pub fn command_usage(&self) -> (r: &'static str)
        ensures
            r@ == confirm_usage(),
    {
        "确认 <问题 id>\n    标记问题为已确认"
    }

    /// Starts confirming: the item is fetched first.
    pub fn start(&self, ctx: CommandContext) -> (r: (UpdateRun, UpdateAction))
        ensures
            match feedback_id_of(ctx) {
                None => r.1@ == UpdateActionView::Respond(confirm_usage()) && r.0@.phase
                    == UpdatePhase::Done,
                Some(id) => r.1@ == UpdateActionView::FetchDetail(id) && r.0@.phase
                    == UpdatePhase::FirstDetail && r.0@.kind == UpdateKind::Confirm && r.0@.id == id,
            },
    {
        let mut ctx = ctx;
        match ctx.get_feedback_id() {
            Some(id) => (UpdateRun::make(UpdateKind::Confirm, UpdatePhase::FirstDetail, id),
            UpdateAction::FetchDetail(id)),
            None => (UpdateRun::make(UpdateKind::Confirm, UpdatePhase::Done, 0), respond(
                self.command_usage(),
            )),
        }
    }
}

impl FeedbackResolveCommand {
    pub fn command_name(&self) -> (r: &'static str)
        ensures
            r@ == "解决"@,
    {
        "解决"
    }

    pub fn command_usage(&self) -> (r: &'static str)
        ensures
            r@ == resolve_usage(),
    {
        "解决 <问题 id> (可选->)[...回复内容] / #[快捷回复id]\n    标记问题为已解决，可选添加回复内容"
    }

    /// Starts resolving: the item is fetched first; the optional answer after its number is
    /// text or `#id` of a quick reply.
    pub fn start(&self, ctx: CommandContext) -> (r: (UpdateRun, UpdateAction))
        ensures
            match feedback_id_of(ctx) {
                None => r.1@ == UpdateActionView::Respond(resolve_usage()) && r.0@.phase
                    == UpdatePhase::Done,
                Some(id) => {
                    let t = after_id(ctx);
                    &&& r.1@ == UpdateActionView::FetchDetail(id)
                    &&& r.0@.phase == UpdatePhase::FirstDetail
                    &&& r.0@.kind == UpdateKind::Resolve
                    &&& r.0@.id == id
                    &&& if t.len() > 0 && fast_reply_ref(t[0]) is Some {
                        r.0@.source == SourceKind::FastReply && r.0@.fast == fast_reply_ref(
                            t[0],
                        ).unwrap()
                    } else if t.len() > 0 && content_of(t) is Some {
                        r.0@.source == SourceKind::Text && r.0@.content == content_of(t).unwrap()
                    } else {
                        r.0@.source == SourceKind::Nothing
                    }
                },
            },
    {
        let mut ctx = ctx;
        let id = match ctx.get_feedback_id() {
            Some(id) => id,
            None => {
                return (UpdateRun::make(UpdateKind::Resolve, UpdatePhase::Done, 0), respond(
                    self.command_usage(),
                ));
            },
        };
        let run = UpdateRun::make(UpdateKind::Resolve, UpdatePhase::FirstDetail, id);
        let run = match ctx.content_source() {
            ContentSource::Nothing => run,
            ContentSource::FastReply(f) => UpdateRun { source: SourceKind::FastReply, fast: f, ..run },
            ContentSource::Text(c) => UpdateRun { source: SourceKind::Text, content: c, ..run },
        };
        (run, UpdateAction::FetchDetail(id))
    }
}


/// Which page of which feedback items to list.
#[derive(Debug, Clone, Copy, PartialEq, Eq, Structural)]
pub struct ListQuery {
    pub status: FeedbackStatus,
    pub page: u32,
    pub per_page: u32,
}

pub open spec fn list_usage() -> Seq<char> {
    "列表 [未确认/已确认/已解决] [页码] [每页个数]\n    查看反馈列表，默认为未确认，第 1 页，每页 5 条"@
}

/// The status that a status word names.
pub open spec fn status_word(w: Seq<char>) -> Option<FeedbackStatus> {
    if w == "未确认"@ {
        Some(FeedbackStatus::Unconfirmed)
    } else if w == "已确认"@ {
        Some(FeedbackStatus::Confirmed)
    } else if w == "已解决"@ {
        Some(FeedbackStatus::Resolved)
    } else {
        None
    }
}

/// The number that the first token denotes, or `dflt` when there is no token or it is
/// not a number.
pub open spec fn number_or(t: Seq<Seq<char>>, dflt: int) -> int {
    if t.len() > 0 {
        match parse_i64_spec(t[0]) {
            Some(v) => v,
            None => dflt,
        }
    } else {
        dflt
    }
}

pub open spec fn after_first(t: Seq<Seq<char>>) -> Seq<Seq<char>> {
    if t.len() > 0 {
        t.drop_first()
    } else {
        t
    }
}

/// The list query of `列表 [status] [page] [per page]`: unconfirmed items by default, page
/// at least 1, between 1 and 20 items per page (each kept to its low 32 bits).
pub open spec fn list_query_of(t: Seq<Seq<char>>) -> Option<ListQuery> {
    let status = if t.len() == 0 {
        Some(FeedbackStatus::Unconfirmed)
    } else {
        status_word(t[0])
    };
    match status {
        None => None,
        Some(st) => {
            let t1 = after_first(t);
            let p = number_or(t1, 1);
            let n = number_or(after_first(t1), 5);
            let page = if p < 1 { 1 } else { p };
            let per = if n < 1 { 1 } else if n > 20 { 20 } else { n };
            Some(ListQuery { status: st, page: page as u32, per_page: per as u32 })
        },
    }
}

/// The word that names a status in `列表`.
pub open spec fn status_name(st: FeedbackStatus) -> Seq<char> {
    match st {
        FeedbackStatus::Unconfirmed => "未确认"@,
        FeedbackStatus::Confirmed => "已确认"@,
        FeedbackStatus::Resolved => "已解决"@,
    }
}

/// `列表 STATUS PAGE N` lists the named status at the asked page with `N` items a page when
/// `N` is between 1 and 20 (fewer become 1, more become 20); without page and size it is
/// page 1 with 5 items a page.
pub proof fn list_keeps_the_requested_page_size(st: FeedbackStatus, page: nat, n: nat)
    requires
        1 <= page <= 0xFFFF_FFFF,
        n <= 0xFFFF_FFFF,
    ensures
        list_query_of(seq![status_name(st), decimal(page), decimal(n)]) == Some(
            ListQuery {
                status: st,
                page: page as u32,
                per_page: (if n == 0 {
                    1nat
                } else if n > 20 {
                    20nat
                } else {
                    n
                }) as u32,
            },
        ),
        1 <= n <= 20 ==> list_query_of(seq![status_name(st), decimal(page), decimal(n)]).unwrap().per_page
            == n,
        list_query_of(seq![status_name(st)]) == Some(
            ListQuery { status: st, page: 1, per_page: 5 },
        ),
        list_query_of(Seq::<Seq<char>>::empty()) == Some(
            ListQuery { status: FeedbackStatus::Unconfirmed, page: 1, per_page: 5 },
        ),
{
    reveal_strlit("未确认");
    reveal_strlit("已确认");
    reveal_strlit("已解决");
    lemma_parse_decimal(page, 0);
    lemma_parse_decimal(n, 0);
    let t = seq![status_name(st), decimal(page), decimal(n)];
    assert(status_word(status_name(st)) == Some(st)) by {
        if st == FeedbackStatus::Confirmed {
            assert(status_name(st)[0] != "未确认"@[0]);
        }
        if st == FeedbackStatus::Resolved {
            assert(status_name(st)[0] != "未确认"@[0]);
            assert(status_name(st)[1] != "已确认"@[1]);
        }
    }
    assert(after_first(t) == seq![decimal(page), decimal(n)]);
    assert(after_first(after_first(t)) == seq![decimal(n)]);
    let one = seq![status_name(st)];
    assert(after_first(one) == Seq::<Seq<char>>::empty());
    assert(after_first(after_first(one)) == Seq::<Seq<char>>::empty());
}

/// How many pages `total` items fill at `per_page` items a page.
pub open spec fn page_count(total: u32, per_page: u32) -> u32 {
    (total / per_page + if total % per_page == 0 {
        0u32
    } else {
        1u32
    }) as u32
}

pub open spec fn summaries(fs: Seq<FeedbackDetail>) -> Seq<Seq<char>> {
    fs.map_values(|f: FeedbackDetail| summary_text(f))
}

/// The answer of `列表`: the summaries of the page, then which page of how many it is and
/// how many items there are; or a note that nothing matches.
pub open spec fn list_answer(q: ListQuery, total: u32, fs: Seq<FeedbackDetail>) -> Seq<char> {
    if fs.len() == 0 {
        "没有找到符合条件的反馈。"@
    } else {
        join(summaries(fs), "\n\n"@) + "\n\n第 "@ + decimal(q.page as nat) + " / "@ + decimal(
            page_count(total, q.per_page) as nat,
        ) + " 页，共 "@ + decimal(total as nat) + " 条反馈。"@
    }
}

impl FeedbackListCommand {
    pub fn command_name(&self) -> (r: &'static str)
        ensures
            r@ == "列表"@,
    {
        "列表"
    }

    pub fn command_usage(&self) -> (r: &'static str)
        ensures
            r@ == list_usage(),
    {
        "列表 [未确认/已确认/已解决] [页码] [每页个数]\n    查看反馈列表，默认为未确认，第 1 页，每页 5 条"
    }

    /// The query of the arguments; the usage when the status word is not known.
    pub fn plan(&self, ctx: CommandContext) -> (r: Result<ListQuery, String>)
        ensures
            match list_query_of(ctx.rest()) {
                Some(q) => r == Ok::<ListQuery, String>(q),
                None => r matches Err(u) && u@ == list_usage(),
            },
            r matches Ok(q) ==> 1 <= q.per_page <= 20,
    {
        let mut ctx = ctx;
        let status = match ctx.next_token() {
            None => FeedbackStatus::Unconfirmed,
            Some(w) => {
                let cs = chars_of(w.as_str());
                if equal(&cs, &chars_of("未确认")) {
                    FeedbackStatus::Unconfirmed
                } else if equal(&cs, &chars_of("已确认")) {
                    FeedbackStatus::Confirmed
                } else if equal(&cs, &chars_of("已解决")) {
                    FeedbackStatus::Resolved
                } else {
                    return Err(string_of(&chars_of(self.command_usage())));
                }
            },
        };
        let p: i64 = match ctx.next_number() {
            Some(v) => v,
            None => 1,
        };
        let n: i64 = match ctx.next_number() {
            Some(v) => v,
            None => 5,
        };
        let page: i64 = if p < 1 { 1 } else { p };
        let per: i64 = if n < 1 { 1 } else if n > 20 { 20 } else { n };
        Ok(ListQuery { status, page: page as u32, per_page: per as u32 })
    }

    /// The answer for the page `feedbacks` of a query with `total_count` items in all.
    pub fn render(&self, query: &ListQuery, total_count: u32, feedbacks: &Vec<FeedbackDetail>) -> (r:
        String)
        requires
            query.per_page > 0,
        ensures
            r@ == list_answer(*query, total_count, feedbacks@),
    {
        if feedbacks.len() == 0 {
            return string_of(&chars_of("没有找到符合条件的反馈。"));
        }
        let mut parts: Vec<Vec<char>> = Vec::new();
        let mut i: usize = 0;
        while i < feedbacks.len()
            invariant
                i <= feedbacks@.len(),
                views(parts@) == summaries(feedbacks@).take(i as int),
            decreases feedbacks@.len() - i,
        {
            let t = chars_of(format_feedback_summary(&feedbacks[i]).as_str());
            let ghost before = parts@;
            parts.push(t);
            assert(views(parts@) == views(before).push(t@));
            assert(summaries(feedbacks@).take(i + 1) == summaries(feedbacks@).take(i as int).push(
                summary_text(feedbacks@[i as int]),
            ));
            i = i + 1;
        }
        assert(summaries(feedbacks@).take(i as int) == summaries(feedbacks@));
        let mut m = join_with(&parts, &chars_of("\n\n"));
        let q = total_count / query.per_page;
        let extra: u32 = if total_count % query.per_page == 0 {
            0
        } else {
            1
        };
        assert(q + extra <= 0xFFFF_FFFF) by (nonlinear_arith)
            requires
                q == total_count / query.per_page,
                extra == if total_count % query.per_page == 0 { 0u32 } else { 1u32 },
                query.per_page > 0,
                total_count <= 0xFFFF_FFFF,
        {
            if query.per_page == 1 {
                assert(total_count % query.per_page == 0);
            } else {
                assert(q * query.per_page <= total_count);
                assert(q * 2 <= q * query.per_page);
            }
        }
        let pages: u32 = q + extra;
        push_str(&mut m, "\n\n第 ");
        append(&mut m, &u64_decimal(query.page as u64));
        push_str(&mut m, " / ");
        append(&mut m, &u64_decimal(pages as u64));
        push_str(&mut m, " 页，共 ");
        append(&mut m, &u64_decimal(total_count as u64));
        push_str(&mut m, " 条反馈。");
        string_of(&m)
    }
}

/// A feedback change works on its own item only: it stays well formed, keeps its kind and
/// item, and every request it makes names that item.
pub proof fn changes_touch_only_their_item(s: UpdateRunView, e: UpdateEventView)
    requires
        update_wf(s),
        update_expects(s.phase, e),
    ensures
        update_wf(update_next(s, e).0),
        update_next(s, e).0.id == s.id,
        update_next(s, e).0.kind == s.kind,
        update_next(s, e).1 matches UpdateActionView::FetchDetail(i) ==> i == s.id,
        update_next(s, e).1 matches UpdateActionView::AddMessage(i, _) ==> i == s.id,
        update_next(s, e).1 matches UpdateActionView::SetStatus(i, _) ==> i == s.id,
{
}

/// `确认` sets only the confirmed status, `解决` only the resolved one, and `回复` never sets
/// a status.
pub proof fn status_set_is_the_commands_target(
    s: UpdateRunView,
    e: UpdateEventView,
    id: u32,
    st: FeedbackStatus,
)
    requires
        update_wf(s),
        update_expects(s.phase, e),
        update_next(s, e).1 == UpdateActionView::SetStatus(id, st),
    ensures
        s.kind != UpdateKind::Answer,
        st == target_status(s.kind),
{
}

/// Nothing is changed before the item was found: an answer is added and a status set only
/// right after the item was fetched, or later in the same change; a missing item is
/// answered with the not-found text.
pub proof fn nothing_changes_before_the_item_is_found(s: UpdateRunView, e: UpdateEventView)
    requires
        update_expects(s.phase, e),
    ensures
        (update_next(s, e).1 is AddMessage || update_next(s, e).1 is SetStatus) ==> {
            ||| s.phase == UpdatePhase::FirstDetail && e matches UpdateEventView::Detail(Some(_))
            ||| s.phase == UpdatePhase::ResolveContent
            ||| s.phase == UpdatePhase::Added
        },
        s.phase == UpdatePhase::FirstDetail && e == UpdateEventView::Detail(None) ==> update_next(
            s,
            e,
        ) == (at(s, UpdatePhase::Done), UpdateActionView::Respond(not_found_text())),
{
}

/// A resolution with an answer adds the answer first and sets the resolved status after it.
pub proof fn answer_comes_before_the_resolution(s: UpdateRunView)
    requires
        s.kind == UpdateKind::Resolve,
        s.phase == UpdatePhase::Added,
    ensures
        update_next(s, UpdateEventView::Added) == (
            at(s, UpdatePhase::StatusSet),
            UpdateActionView::SetStatus(s.id, FeedbackStatus::Resolved),
        ),
{
}

/// A quick reply found for a resolution is always added as an answer, before the status
/// is set: the lookup's text is the next message added to the item, and the change then
/// waits for that message to be added.
pub proof fn found_quick_reply_is_added_before_resolving(s: UpdateRunView, t: Seq<char>)
    requires
        update_wf(s),
        s.phase == UpdatePhase::ResolveContent,
    ensures
        update_next(s, UpdateEventView::FastReply(Some(t))).1 == UpdateActionView::AddMessage(s.id, t),
        update_next(s, UpdateEventView::FastReply(Some(t))).0.phase == UpdatePhase::Added,
        update_next(s, UpdateEventView::FastReply(Some(t))).0.kind == UpdateKind::Resolve,
        update_next(update_next(s, UpdateEventView::FastReply(Some(t))).0, UpdateEventView::Added).1
            == UpdateActionView::SetStatus(s.id, FeedbackStatus::Resolved),
{
}

/// A quick reply found for `回复` becomes the answer: the item is fetched next, and once it
/// exists that text is what is added.
pub proof fn found_quick_reply_is_the_answer(s: UpdateRunView, t: Seq<char>, d: Seq<char>)
    requires
        update_wf(s),
        s.phase == UpdatePhase::AnswerContent,
    ensures
        update_next(s, UpdateEventView::FastReply(Some(t))).1 == UpdateActionView::FetchDetail(s.id),
        update_next(
            update_next(s, UpdateEventView::FastReply(Some(t))).0,
            UpdateEventView::Detail(Some(d)),
        ).1 == UpdateActionView::AddMessage(s.id, t),
{
}

/// How many events a feedback change can still take at most.
pub open spec fn update_remaining(s: UpdateRunView) -> int {
    match s.phase {
        UpdatePhase::Done => 0,
        UpdatePhase::FinalDetail => 1,
        UpdatePhase::StatusSet => 2,
        UpdatePhase::Added => 3,
        UpdatePhase::ResolveContent => 4,
        UpdatePhase::FirstDetail => 5,
        UpdatePhase::AnswerContent => 6,
    }
}

/// Every feedback change ends: each event brings it strictly closer to its answer.
pub proof fn every_change_ends(s: UpdateRunView, e: UpdateEventView)
    requires
        update_expects(s.phase, e),
    ensures
        0 <= update_remaining(update_next(s, e).0) < update_remaining(s),
{
}

} // verus!
