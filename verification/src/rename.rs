//! Giving a page another id, and mending the links of its neighbours.

use crate::create::{
    already_exists, already_exists_message, followed_by, invalid_id, invalid_id_message, link_next,
};
use crate::edit::{not_found, not_found_message, out_of_turn, unexpected};
use crate::ident::{id_fault, is_valid_id};
use crate::page::{HeaderView, Page, PageView, NULL_ID};
use crate::shell::{Reply, ReplyView, Request, RequestView, Step, StepView};
use crate::text::same_text;
use vstd::prelude::*;

verus! {

/// How far the renaming of a page has come.
#[derive(Debug, PartialEq, Eq)]
pub enum RenameState {
    /// Nothing was asked yet: page `from` is to become page `to`.
    Start { from: String, to: String },
    /// Asked whether page `from` exists.
    AwaitSource { from: String, to: String },
    /// Asked whether page `to` exists.
    AwaitTarget { from: String, to: String },
    /// Asked for page `from`.
    AwaitPage { to: String },
    /// Asked to store the page under its new id. It stands between `prev` and `next`.
    AwaitStored { from: String, to: String, prev: String, next: String },
    /// Asked for the page before it.
    AwaitOlder { from: String, to: String, next: String },
    /// Asked to store the page before it.
    AwaitOlderStored { from: String, to: String, next: String },
    /// Asked for the page after it.
    AwaitNewer { from: String, to: String },
    /// Asked to store the page after it, or to make the page the head.
    AwaitLinked { from: String },
    /// Asked to remove the file of page `from`.
    AwaitRemoved,
    /// Nothing is left to do.
    Over,
}

/// A `RenameState` as a mathematical value.
pub enum RenameStateView {
    Start { from: Seq<char>, to: Seq<char> },
    AwaitSource { from: Seq<char>, to: Seq<char> },
    AwaitTarget { from: Seq<char>, to: Seq<char> },
    AwaitPage { to: Seq<char> },
    AwaitStored { from: Seq<char>, to: Seq<char>, prev: Seq<char>, next: Seq<char> },
    AwaitOlder { from: Seq<char>, to: Seq<char>, next: Seq<char> },
    AwaitOlderStored { from: Seq<char>, to: Seq<char>, next: Seq<char> },
    AwaitNewer { from: Seq<char>, to: Seq<char> },
    AwaitLinked { from: Seq<char> },
    AwaitRemoved,
    Over,
}

impl View for RenameState {
    type V = RenameStateView;

    open spec fn view(&self) -> RenameStateView {
        match self {
            RenameState::Start { from, to } => RenameStateView::Start { from: from@, to: to@ },
            RenameState::AwaitSource { from, to } => RenameStateView::AwaitSource {
                from: from@,
                to: to@,
            },
            RenameState::AwaitTarget { from, to } => RenameStateView::AwaitTarget {
                from: from@,
                to: to@,
            },
            RenameState::AwaitPage { to } => RenameStateView::AwaitPage { to: to@ },
            RenameState::AwaitStored { from, to, prev, next } => RenameStateView::AwaitStored {
                from: from@,
                to: to@,
                prev: prev@,
                next: next@,
            },
            RenameState::AwaitOlder { from, to, next } => RenameStateView::AwaitOlder {
                from: from@,
                to: to@,
                next: next@,
            },
            RenameState::AwaitOlderStored { from, to, next } => RenameStateView::AwaitOlderStored {
                from: from@,
                to: to@,
                next: next@,
            },
            RenameState::AwaitNewer { from, to } => RenameStateView::AwaitNewer {
                from: from@,
                to: to@,
            },
            RenameState::AwaitLinked { from } => RenameStateView::AwaitLinked { from: from@ },
            RenameState::AwaitRemoved => RenameStateView::AwaitRemoved,
            RenameState::Over => RenameStateView::Over,
        }
    }
}

/// `page` under the id `id`.
pub open spec fn renamed(page: PageView, id: Seq<char>) -> PageView {
    PageView { id, ..page }
}

/// `page`, preceded by page `id`.
pub open spec fn preceded_by(page: PageView, id: Seq<char>) -> PageView {
    PageView { header: HeaderView { prev: id, ..page.header }, ..page }
}

/// What a renaming does once the page before the renamed one is mended: it asks for the page
/// after it, or, where there is none, asks to make the renamed page the head.
pub open spec fn mend_newer(from: Seq<char>, to: Seq<char>, next: Seq<char>) -> (
    RenameStateView,
    StepView,
) {
    if next == NULL_ID@ {
        (RenameStateView::AwaitLinked { from }, StepView::Ask(RequestView::StoreHead { id: to }))
    } else {
        (
            RenameStateView::AwaitNewer { from, to },
            StepView::Ask(RequestView::LoadPage { id: next }),
        )
    }
}

/// What renaming a page does in the state `state` when it is handed `reply`: the state it goes
/// to, and what it asks or how it ends.
///
/// It ends with `invalid_id` where the new id cannot name a page, with `not_found` where the
/// page has no file, and with `already_exists` where the new id has one. It asks for the page
/// and asks to store it under the new id. It asks for the page before it, where there is one,
/// and asks to store that with the new id as the one that follows it. It does the same with the
/// page after it, or asks to make the new id the head where none follows. Last it asks to
/// remove the file of the old id. A failure that it is handed ends it with that failure.
pub open spec fn editid_spec(state: RenameStateView, reply: ReplyView) -> (
    RenameStateView,
    StepView,
) {
    match (state, reply) {
        (RenameStateView::Start { from, to }, ReplyView::Start) => match id_fault(to) {
            Some(reason) => (RenameStateView::Over, StepView::Done(Err(invalid_id(reason)))),
            None => (
                RenameStateView::AwaitSource { from, to },
                StepView::Ask(RequestView::PageExists { id: from }),
            ),
        },
        (RenameStateView::AwaitSource { from, to }, ReplyView::Exists(exists)) => if exists {
            (
                RenameStateView::AwaitTarget { from, to },
                StepView::Ask(RequestView::PageExists { id: to }),
            )
        } else {
            (RenameStateView::Over, StepView::Done(Err(not_found(from))))
        },
        (RenameStateView::AwaitTarget { from, to }, ReplyView::Exists(exists)) => if exists {
            (RenameStateView::Over, StepView::Done(Err(already_exists(to))))
        } else {
            (RenameStateView::AwaitPage { to }, StepView::Ask(RequestView::LoadPage { id: from }))
        },
        (RenameStateView::AwaitPage { to }, ReplyView::Loaded(Ok(page))) => (
            RenameStateView::AwaitStored {
                from: page.id,
                to,
                prev: page.header.prev,
                next: page.header.next,
            },
            StepView::Ask(RequestView::StorePage { page: renamed(page, to) }),
        ),
        (RenameStateView::AwaitPage { to }, ReplyView::Loaded(Err(message))) => (
            RenameStateView::Over,
            StepView::Done(Err(message)),
        ),
        (RenameStateView::AwaitStored { from, to, prev, next }, ReplyView::Stored(Ok(_))) => if prev
            == NULL_ID@ {
            mend_newer(from, to, next)
        } else {
            (
                RenameStateView::AwaitOlder { from, to, next },
                StepView::Ask(RequestView::LoadPage { id: prev }),
            )
        },
        (RenameStateView::AwaitStored { from, to, prev, next }, ReplyView::Stored(Err(message))) => (
            RenameStateView::Over,
            StepView::Done(Err(message)),
        ),
        (RenameStateView::AwaitOlder { from, to, next }, ReplyView::Loaded(Ok(older))) => (
            RenameStateView::AwaitOlderStored { from, to, next },
            StepView::Ask(RequestView::StorePage { page: followed_by(older, to) }),
        ),
        (RenameStateView::AwaitOlder { from, to, next }, ReplyView::Loaded(Err(message))) => (
            RenameStateView::Over,
            StepView::Done(Err(message)),
        ),
        (RenameStateView::AwaitOlderStored { from, to, next }, ReplyView::Stored(Ok(_))) => mend_newer(
            from,
            to,
            next,
        ),
        (RenameStateView::AwaitOlderStored { from, to, next }, ReplyView::Stored(Err(message))) => (
            RenameStateView::Over,
            StepView::Done(Err(message)),
        ),
        (RenameStateView::AwaitNewer { from, to }, ReplyView::Loaded(Ok(newer))) => (
            RenameStateView::AwaitLinked { from },
            StepView::Ask(RequestView::StorePage { page: preceded_by(newer, to) }),
        ),
        (RenameStateView::AwaitNewer { from, to }, ReplyView::Loaded(Err(message))) => (
            RenameStateView::Over,
            StepView::Done(Err(message)),
        ),
        (RenameStateView::AwaitLinked { from }, ReplyView::Stored(Ok(_))) => (
            RenameStateView::AwaitRemoved,
            StepView::Ask(RequestView::RemovePage { id: from }),
        ),
        (RenameStateView::AwaitLinked { from }, ReplyView::Stored(Err(message))) => (
            RenameStateView::Over,
            StepView::Done(Err(message)),
        ),
        (RenameStateView::AwaitRemoved, ReplyView::Stored(stored)) => (
            RenameStateView::Over,
            StepView::Done(stored),
        ),
        _ => (RenameStateView::Over, StepView::Done(Err(out_of_turn()))),
    }
}

/// Notes in `page` that page `id` precedes it.
pub fn link_prev(page: Page, id: String) -> (linked: Page)
    ensures
        linked@ == preceded_by(page@, id@),
{
    let mut page = page;
    page.header.prev = id;
    page
}

/// Goes on to the page after the renamed one.
fn to_newer(from: String, to: String, next: String) -> (step: (RenameState, Step))
    ensures
        (step.0@, step.1@) == mend_newer(from@, to@, next@),
{
    if same_text(next.as_str(), NULL_ID) {
        (RenameState::AwaitLinked { from }, Step::Ask(Request::StoreHead { id: to }))
    } else {
        (RenameState::AwaitNewer { from, to }, Step::Ask(Request::LoadPage { id: next }))
    }
}

/// One step of renaming a page: from `state` and the answer `reply` to the last question to
/// the next state and the next question, or the end.
pub fn editid(state: RenameState, reply: Reply) -> (next: (RenameState, Step))
    ensures
        (next.0@, next.1@) == editid_spec(state@, reply@),
{
    match (state, reply) {
        (RenameState::Start { from, to }, Reply::Start) => {
            match is_valid_id(to.as_str()) {
                Err(reason) => (
                    RenameState::Over,
                    Step::Done(Err(invalid_id_message(reason.as_str()))),
                ),
                Ok(_) => {
                    let request = Request::PageExists { id: from.clone() };
                    (RenameState::AwaitSource { from, to }, Step::Ask(request))
                },
            }
        },
        (RenameState::AwaitSource { from, to }, Reply::Exists(exists)) => {
            if exists {
                let request = Request::PageExists { id: to.clone() };
                (RenameState::AwaitTarget { from, to }, Step::Ask(request))
            } else {
                (RenameState::Over, Step::Done(Err(not_found_message(from.as_str()))))
            }
        },
        (RenameState::AwaitTarget { from, to }, Reply::Exists(exists)) => {
            if exists {
                (RenameState::Over, Step::Done(Err(already_exists_message(to.as_str()))))
            } else {
                (RenameState::AwaitPage { to }, Step::Ask(Request::LoadPage { id: from }))
            }
        },
        (RenameState::AwaitPage { to }, Reply::Loaded(Ok(page))) => {
            let from = page.id.clone();
            let prev = page.header.prev.clone();
            let next = page.header.next.clone();
            let mut page = page;
            page.id = to.clone();
            (
                RenameState::AwaitStored { from, to, prev, next },
                Step::Ask(Request::StorePage { page }),
            )
        },
        (RenameState::AwaitPage { to }, Reply::Loaded(Err(message))) => (
            RenameState::Over,
            Step::Done(Err(message)),
        ),
        (RenameState::AwaitStored { from, to, prev, next }, Reply::Stored(Ok(_))) => {
            if same_text(prev.as_str(), NULL_ID) {
                to_newer(from, to, next)
            } else {
                (RenameState::AwaitOlder { from, to, next }, Step::Ask(Request::LoadPage { id: prev }))
            }
        },
        (RenameState::AwaitStored { from, to, prev, next }, Reply::Stored(Err(message))) => (
            RenameState::Over,
            Step::Done(Err(message)),
        ),
        (RenameState::AwaitOlder { from, to, next }, Reply::Loaded(Ok(older))) => {
            let page = link_next(older, to.clone());
            (RenameState::AwaitOlderStored { from, to, next }, Step::Ask(Request::StorePage { page }))
        },
        (RenameState::AwaitOlder { from, to, next }, Reply::Loaded(Err(message))) => (
            RenameState::Over,
            Step::Done(Err(message)),
        ),
        (RenameState::AwaitOlderStored { from, to, next }, Reply::Stored(Ok(_))) => to_newer(
            from,
            to,
            next,
        ),
        (RenameState::AwaitOlderStored { from, to, next }, Reply::Stored(Err(message))) => (
            RenameState::Over,
            Step::Done(Err(message)),
        ),
        (RenameState::AwaitNewer { from, to }, Reply::Loaded(Ok(newer))) => {
            let page = link_prev(newer, to);
            (RenameState::AwaitLinked { from }, Step::Ask(Request::StorePage { page }))
        },
        (RenameState::AwaitNewer { from, to }, Reply::Loaded(Err(message))) => (
            RenameState::Over,
            Step::Done(Err(message)),
        ),
        (RenameState::AwaitLinked { from }, Reply::Stored(Ok(_))) => (
            RenameState::AwaitRemoved,
            Step::Ask(Request::RemovePage { id: from }),
        ),
        (RenameState::AwaitLinked { from }, Reply::Stored(Err(message))) => (
            RenameState::Over,
            Step::Done(Err(message)),
        ),
        (RenameState::AwaitRemoved, Reply::Stored(stored)) => (RenameState::Over, Step::Done(stored)),
        _ => (RenameState::Over, unexpected()),
    }
}

} // verus!
