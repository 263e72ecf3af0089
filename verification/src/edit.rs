//! Editing a page that exists.

use crate::draft::{applied, draft_of, DraftView, TemporaryPage};
use crate::page::{HeaderView, Page, PageView, Timestamp};
use crate::shell::{Reply, ReplyView, Request, RequestView, Step, StepView};
use vstd::prelude::*;

verus! {

/// How far the editing of a page has come.
#[derive(Debug, PartialEq, Eq)]
pub enum EditState {
    /// Nothing was asked yet; `id` is the page to edit.
    Start { id: String },
    /// Asked whether page `id` exists.
    AwaitExists { id: String },
    /// Asked for the page.
    AwaitPage,
    /// Asked the author to edit `page`.
    AwaitDraft { page: Page },
    /// Asked to store the edited page.
    AwaitStored,
    /// Nothing is left to do.
    Over,
}

/// An `EditState` as a mathematical value.
pub enum EditStateView {
    Start { id: Seq<char> },
    AwaitExists { id: Seq<char> },
    AwaitPage,
    AwaitDraft { page: PageView },
    AwaitStored,
    Over,
}

impl View for EditState {
    type V = EditStateView;

    open spec fn view(&self) -> EditStateView {
        match self {
            EditState::Start { id } => EditStateView::Start { id: id@ },
            EditState::AwaitExists { id } => EditStateView::AwaitExists { id: id@ },
            EditState::AwaitPage => EditStateView::AwaitPage,
            EditState::AwaitDraft { page } => EditStateView::AwaitDraft { page: page@ },
            EditState::AwaitStored => EditStateView::AwaitStored,
            EditState::Over => EditStateView::Over,
        }
    }
}

/// The message for an answer that does not fit the question.
pub open spec fn out_of_turn() -> Seq<char> {
    "unexpected answer"@
}

/// The message for a page that cannot be edited because it does not exist.
pub open spec fn not_found(id: Seq<char>) -> Seq<char> {
    "`"@ + id + "` does not exists. use `diary new "@ + id + "`"@
}

/// `page` after the author left `draft` at the time `now`: the draft is applied, and `now` is
/// added to the times of its updates.
pub open spec fn edited_page(page: PageView, draft: DraftView, now: Timestamp) -> PageView {
    let changed = applied(draft, page);
    PageView {
        header: HeaderView { updated: changed.header.updated.push(now), ..changed.header },
        ..changed
    }
}

/// What editing a page does in the state `state` when it is handed `reply` at the time `now`:
/// the state it goes to, and what it asks or how it ends.
///
/// It asks whether the page exists, and ends with `not_found` where it does not. It asks for
/// the page, hands what the author may change to the editor, applies what comes back, and asks
/// to store the page. A failure that it is handed ends it with that failure.
pub open spec fn edit_page_by_id_spec(state: EditStateView, reply: ReplyView, now: Timestamp) -> (
    EditStateView,
    StepView,
) {
    match (state, reply) {
        (EditStateView::Start { id }, ReplyView::Start) => (
            EditStateView::AwaitExists { id },
            StepView::Ask(RequestView::PageExists { id }),
        ),
        (EditStateView::AwaitExists { id }, ReplyView::Exists(exists)) => if exists {
            (EditStateView::AwaitPage, StepView::Ask(RequestView::LoadPage { id }))
        } else {
            (EditStateView::Over, StepView::Done(Err(not_found(id))))
        },
        (EditStateView::AwaitPage, ReplyView::Loaded(Ok(page))) => (
            EditStateView::AwaitDraft { page },
            StepView::Ask(RequestView::Edit { draft: draft_of(page) }),
        ),
        (EditStateView::AwaitPage, ReplyView::Loaded(Err(message))) => (
            EditStateView::Over,
            StepView::Done(Err(message)),
        ),
        (EditStateView::AwaitDraft { page }, ReplyView::Edited(Ok(draft))) => (
            EditStateView::AwaitStored,
            StepView::Ask(RequestView::StorePage { page: edited_page(page, draft, now) }),
        ),
        (EditStateView::AwaitDraft { page }, ReplyView::Edited(Err(message))) => (
            EditStateView::Over,
            StepView::Done(Err(message)),
        ),
        (EditStateView::AwaitStored, ReplyView::Stored(stored)) => (
            EditStateView::Over,
            StepView::Done(stored),
        ),
        _ => (EditStateView::Over, StepView::Done(Err(out_of_turn()))),
    }
}

/// The end of a command that was handed an answer that does not fit its question.
pub fn unexpected() -> (step: Step)
    ensures
        step@ == StepView::Done(Err(out_of_turn())),
{
    Step::Done(Err(String::from_str("unexpected answer")))
}

/// The message for a page that cannot be edited because it does not exist.
pub fn not_found_message(id: &str) -> (message: String)
    ensures
        message@ == not_found(id@),
{
    let mut message = String::from_str("`");
    message.append(id);
    message.append("` does not exists. use `diary new ");
    message.append(id);
    message.append("`");
    message
}

/// Applies what the author left to `page`, and notes `now` as the time of the update.
pub fn edit_page(page: Page, edited: &TemporaryPage, now: Timestamp) -> (after: Page)
    ensures
        after@ == edited_page(page@, edited@, now),
{
    let mut page = page;
    edited.apply(&mut page);
    page.header.updated.push(now);
    page
}

/// One step of editing page `id`: from `state` and the answer `reply` to the last question,
/// at the time `now`, to the next state and the next question, or the end.
pub fn edit_page_by_id(state: EditState, reply: Reply, now: Timestamp) -> (next: (EditState, Step))
    ensures
        (next.0@, next.1@) == edit_page_by_id_spec(state@, reply@, now),
{
    match (state, reply) {
        (EditState::Start { id }, Reply::Start) => {
            let request = Request::PageExists { id: id.clone() };
            (EditState::AwaitExists { id }, Step::Ask(request))
        },
        (EditState::AwaitExists { id }, Reply::Exists(exists)) => {
            if exists {
                (EditState::AwaitPage, Step::Ask(Request::LoadPage { id }))
            } else {
                (EditState::Over, Step::Done(Err(not_found_message(id.as_str()))))
            }
        },
        (EditState::AwaitPage, Reply::Loaded(Ok(page))) => {
            let draft = TemporaryPage::from_page(&page);
            (EditState::AwaitDraft { page }, Step::Ask(Request::Edit { draft }))
        },
        (EditState::AwaitPage, Reply::Loaded(Err(message))) => (
            EditState::Over,
            Step::Done(Err(message)),
        ),
        (EditState::AwaitDraft { page }, Reply::Edited(Ok(draft))) => {
            let page = edit_page(page, &draft, now);
            (EditState::AwaitStored, Step::Ask(Request::StorePage { page }))
        },
        (EditState::AwaitDraft { page }, Reply::Edited(Err(message))) => (
            EditState::Over,
            Step::Done(Err(message)),
        ),
        (EditState::AwaitStored, Reply::Stored(stored)) => (EditState::Over, Step::Done(stored)),
        _ => (EditState::Over, unexpected()),
    }
}

} // verus!
