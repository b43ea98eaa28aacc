//! Swapping the `local_image` and `older_image` tags by image ID, so that neither image
//! loses its last reference while the tags move.

use vstd::prelude::*;
use crate::deploy::docker::{image_id_failure_message, image_id_outcome, tag_failure_message, tag_outcome};
use crate::text::{trim, CharClass};

verus! {

/// Where a tag swap stands.
#[derive(Debug, Clone, Copy, PartialEq, Eq, Structural)]
pub enum SwapPhase {
    /// Waiting for the ID of the image tagged `local`.
    InspectLocal,
    /// Waiting for the ID of the image tagged `older`.
    InspectOlder,
    /// Waiting for `local` to be set to the older image's ID.
    TagLocal,
    /// Waiting for `older` to be set to the local image's ID.
    TagOlder,
    /// Over.
    Done,
}

/// A tag swap in progress.
pub struct SwapRun {
    phase: SwapPhase,
    local: String,
    older: String,
    id_local: String,
    id_older: String,
}

pub ghost struct SwapView {
    pub phase: SwapPhase,
    pub local: Seq<char>,
    pub older: Seq<char>,
    pub id_local: Seq<char>,
    pub id_older: Seq<char>,
}

impl View for SwapRun {
    type V = SwapView;

    closed spec fn view(&self) -> SwapView {
        SwapView {
            phase: self.phase,
            local: self.local@,
            older: self.older@,
            id_local: self.id_local@,
            id_older: self.id_older@,
        }
    }
}

/// What the caller reports: the exit code, stdout and stderr of a docker command, or why it
/// could not be run.
#[derive(Debug)]
pub enum SwapEvent {
    /// `docker image inspect --format {{.Id}} IMAGE` ran, with code, stdout and stderr.
    Inspected(Result<(i32, String, String), String>),
    /// `docker tag SRC DST` ran, with code and stderr.
    Tagged(Result<(i32, String), String>),
}

pub ghost enum SwapEventView {
    Inspected(Result<(i32, Seq<char>, Seq<char>), Seq<char>>),
    Tagged(Result<(i32, Seq<char>), Seq<char>>),
}

impl View for SwapEvent {
    type V = SwapEventView;

    open spec fn view(&self) -> SwapEventView {
        match self {
            SwapEvent::Inspected(Ok((c, o, e))) => SwapEventView::Inspected(Ok((*c, o@, e@))),
            SwapEvent::Inspected(Err(m)) => SwapEventView::Inspected(Err(m@)),
            SwapEvent::Tagged(Ok((c, e))) => SwapEventView::Tagged(Ok((*c, e@))),
            SwapEvent::Tagged(Err(m)) => SwapEventView::Tagged(Err(m@)),
        }
    }
}

/// The docker command the caller runs next, or the swap's outcome.
#[derive(Debug, PartialEq, Eq)]
pub enum SwapAction {
    /// `docker image inspect --format {{.Id}} IMAGE`, answered by `Inspected`.
    InspectId(String),
    /// `docker tag SRC DST`, answered by `Tagged`.
    Tag(String, String),
    /// The swap is over.
    Finish(Result<(), String>),
}

pub ghost enum SwapActionView {
    InspectId(Seq<char>),
    Tag(Seq<char>, Seq<char>),
    Finish(Result<(), Seq<char>>),
}

impl View for SwapAction {
    type V = SwapActionView;

    open spec fn view(&self) -> SwapActionView {
        match self {
            SwapAction::InspectId(i) => SwapActionView::InspectId(i@),
            SwapAction::Tag(s, d) => SwapActionView::Tag(s@, d@),
            SwapAction::Finish(Ok(())) => SwapActionView::Finish(Ok(())),
            SwapAction::Finish(Err(m)) => SwapActionView::Finish(Err(m@)),
        }
    }
}

/// What an image-ID inspection of `image` means: the trimmed ID, or the failure message.
pub open spec fn image_id_result(code: i32, image: Seq<char>, stdout: Seq<char>, stderr: Seq<char>) -> Result<
    Seq<char>,
    Seq<char>,
> {
    if code == 0 {
        Ok(trim(stdout, CharClass::Whitespace))
    } else {
        Err(image_id_failure_message(image, stderr))
    }
}

/// What `docker tag src dst` means.
pub open spec fn tag_result(code: i32, src: Seq<char>, dst: Seq<char>, stderr: Seq<char>) -> Result<
    (),
    Seq<char>,
> {
    if code == 0 {
        Ok(())
    } else {
        Err(tag_failure_message(src, dst, stderr))
    }
}

/// The events that a swap in `phase` waits for.
pub open spec fn swap_expects(phase: SwapPhase, e: SwapEventView) -> bool {
    match (phase, e) {
        (SwapPhase::InspectLocal, SwapEventView::Inspected(_)) => true,
        (SwapPhase::InspectOlder, SwapEventView::Inspected(_)) => true,
        (SwapPhase::TagLocal, SwapEventView::Tagged(_)) => true,
        (SwapPhase::TagOlder, SwapEventView::Tagged(_)) => true,
        _ => false,
    }
}

pub open spec fn finish(s: SwapView, r: Result<(), Seq<char>>) -> (SwapView, SwapActionView) {
    (SwapView { phase: SwapPhase::Done, ..s }, SwapActionView::Finish(r))
}

/// One step of a swap. Both IDs are read before any tag moves; then `local` is set to the
/// older image's ID and `older` to the local image's ID. The first failure ends the swap
/// with its message.
pub open spec fn swap_next(s: SwapView, e: SwapEventView) -> (SwapView, SwapActionView) {
    match (s.phase, e) {
        (_, SwapEventView::Inspected(Err(m))) => finish(s, Err(m)),
        (_, SwapEventView::Tagged(Err(m))) => finish(s, Err(m)),
        (SwapPhase::InspectLocal, SwapEventView::Inspected(Ok((c, o, err)))) => match image_id_result(
            c,
            s.local,
            o,
            err,
        ) {
            Ok(id) => (
                SwapView { phase: SwapPhase::InspectOlder, id_local: id, ..s },
                SwapActionView::InspectId(s.older),
            ),
            Err(m) => finish(s, Err(m)),
        },
        (SwapPhase::InspectOlder, SwapEventView::Inspected(Ok((c, o, err)))) => match image_id_result(
            c,
            s.older,
            o,
            err,
        ) {
            Ok(id) => (
                SwapView { phase: SwapPhase::TagLocal, id_older: id, ..s },
                SwapActionView::Tag(id, s.local),
            ),
            Err(m) => finish(s, Err(m)),
        },
        (SwapPhase::TagLocal, SwapEventView::Tagged(Ok((c, err)))) => match tag_result(
            c,
            s.id_older,
            s.local,
            err,
        ) {
            Ok(()) => (
                SwapView { phase: SwapPhase::TagOlder, ..s },
                SwapActionView::Tag(s.id_local, s.older),
            ),
            Err(m) => finish(s, Err(m)),
        },
        (SwapPhase::TagOlder, SwapEventView::Tagged(Ok((c, err)))) => finish(
            s,
            tag_result(c, s.id_local, s.older, err),
        ),
        _ => (s, SwapActionView::Finish(Ok(()))),
    }
}

fn image_id(code: i32, image: &String, stdout: &String, stderr: &String) -> (r: Result<String, String>)
    ensures
        match image_id_result(code, image@, stdout@, stderr@) {
            Ok(id) => r matches Ok(v) && v@ == id,
            Err(m) => r matches Err(x) && x@ == m,
        },
{
    image_id_outcome(code, image.as_str(), stdout.as_str(), stderr.as_str())
}

fn tag(code: i32, src: &String, dst: &String, stderr: &String) -> (r: Result<(), String>)
    ensures
        match tag_result(code, src@, dst@, stderr@) {
            Ok(()) => r is Ok,
            Err(m) => r matches Err(x) && x@ == m,
        },
{
    tag_outcome(code, src.as_str(), dst.as_str(), stderr.as_str())
}

fn finished(r: Result<(), String>) -> (a: SwapAction)
    ensures
        a@ == SwapActionView::Finish(
            match r {
                Ok(()) => Ok(()),
                Err(m) => Err(m@),
            },
        ),
{
    SwapAction::Finish(r)
}

impl SwapRun {
    /// A swap of the tags `local` and `older`; it starts by reading the local image's ID.
    pub fn new(local: &str, older: &str) -> (r: (SwapRun, SwapAction))
        ensures
            r.0@ == (SwapView {
                phase: SwapPhase::InspectLocal,
                local: local@,
                older: older@,
                id_local: Seq::<char>::empty(),
                id_older: Seq::<char>::empty(),
            }),
            r.1@ == SwapActionView::InspectId(local@),
    {
        let run = SwapRun {
            phase: SwapPhase::InspectLocal,
            local: crate::text::string_of(&crate::text::chars_of(local)),
            older: crate::text::string_of(&crate::text::chars_of(older)),
            id_local: String::new(),
            id_older: String::new(),
        };
        let first = run.local.clone();
        (run, SwapAction::InspectId(first))
    }

    /// Whether the swap waits for `e`.
    pub fn accepts(&self, e: &SwapEvent) -> (r: bool)
        ensures
            r == swap_expects(self@.phase, e@),
    {
        match (self.phase, e) {
            (SwapPhase::InspectLocal, SwapEvent::Inspected(_)) => true,
            (SwapPhase::InspectOlder, SwapEvent::Inspected(_)) => true,
            (SwapPhase::TagLocal, SwapEvent::Tagged(_)) => true,
            (SwapPhase::TagOlder, SwapEvent::Tagged(_)) => true,
            _ => false,
        }
    }

    /// Advances the swap by one reported command.
    pub fn step(self, e: SwapEvent) -> (r: (SwapRun, SwapAction))
        requires
            swap_expects(self@.phase, e@),
        ensures
            (r.0@, r.1@) == swap_next(self@, e@),
    {
        match e {
            SwapEvent::Inspected(Err(m)) => self.end(Err(m)),
            SwapEvent::Tagged(Err(m)) => self.end(Err(m)),
            SwapEvent::Inspected(Ok((c, o, err))) => match self.phase {
                SwapPhase::InspectLocal => match image_id(c, &self.local, &o, &err) {
                    Ok(id) => {
                        let next = self.older.clone();
                        (SwapRun { phase: SwapPhase::InspectOlder, id_local: id, ..self },
                        SwapAction::InspectId(next))
                    },
                    Err(m) => self.end(Err(m)),
                },
                _ => match image_id(c, &self.older, &o, &err) {
                    Ok(id) => {
                        let src = id.clone();
                        let dst = self.local.clone();
                        (SwapRun { phase: SwapPhase::TagLocal, id_older: id, ..self },
                        SwapAction::Tag(src, dst))
                    },
                    Err(m) => self.end(Err(m)),
                },
            },
            SwapEvent::Tagged(Ok((c, err))) => match self.phase {
                SwapPhase::TagLocal => match tag(c, &self.id_older, &self.local, &err) {
                    Ok(()) => {
                        let src = self.id_local.clone();
                        let dst = self.older.clone();
                        (SwapRun { phase: SwapPhase::TagOlder, ..self }, SwapAction::Tag(src, dst))
                    },
                    Err(m) => self.end(Err(m)),
                },
                _ => {
                    let r = tag(c, &self.id_local, &self.older, &err);
                    self.end(r)
                },
            },
        }
    }

    fn end(self, r: Result<(), String>) -> (out: (SwapRun, SwapAction))
        ensures
            (out.0@, out.1@) == finish(
                self@,
                match r {
                    Ok(()) => Ok(()),
                    Err(m) => Err(m@),
                },
            ),
    {
        (SwapRun { phase: SwapPhase::Done, ..self }, finished(r))
    }

    /// Whether the swap is over.
    pub fn is_finished(&self) -> (r: bool)
        ensures
            r == (self@.phase == SwapPhase::Done),
    {
        match self.phase {
            SwapPhase::Done => true,
            _ => false,
        }
    }
}

/// The tags cross over: the only tags set are `local` to the older image's ID, right after
/// both IDs were read, and `older` to the local image's ID, right after that succeeded; the
/// swap reports success only when both tags were set.
pub proof fn tags_cross_over(s: SwapView, e: SwapEventView)
    requires
        swap_expects(s.phase, e),
    ensures
        swap_next(s, e).1 matches SwapActionView::Tag(src, dst) ==> {
            ||| s.phase == SwapPhase::InspectOlder && dst == s.local && src == swap_next(s, e).0.id_older
                && (e matches SwapEventView::Inspected(Ok((c, o, err))) && image_id_result(
                c,
                s.older,
                o,
                err,
            ) == Ok::<Seq<char>, Seq<char>>(src))
            ||| s.phase == SwapPhase::TagLocal && src == s.id_local && dst == s.older && (e matches SwapEventView::Tagged(Ok((c, err))) && tag_result(
                c,
                s.id_older,
                s.local,
                err,
            ) is Ok)
        },
        swap_next(s, e).1 == SwapActionView::Finish(Ok(())) ==> s.phase == SwapPhase::TagOlder && (
        e matches SwapEventView::Tagged(Ok((c, err))) && tag_result(c, s.id_local, s.older, err)
            is Ok),
{
}

} // verus!
