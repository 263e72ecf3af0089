//! Creating a page, and linking it into the chain as its newest.

use crate::draft::{applied, draft_of, DraftView, TemporaryPage};
use crate::edit::{edit_page, edited_page, out_of_turn, unexpected};
use crate::ident::{id_fault, is_valid_id};
use crate::page::{HeaderView, Page, PageHeader, PageView, Timestamp, NULL_ID};
use crate::shell::{Reply, ReplyView, Request, RequestView, Step, StepView};
use crate::text::same_text;
use vstd::prelude::*;

verus! {

/// How far the creation of a page has come.
#[derive(Debug, PartialEq, Eq)]
pub enum CreateState {
    /// Nothing was asked yet; `id` is the page to create, `initial` what it starts with.
    Start { id: String, initial: TemporaryPage },
    /// Asked whether page `id` exists.
    AwaitExists { id: String, initial: TemporaryPage },
    /// Asked for the id of the newest page.
    AwaitHead { id: String, initial: TemporaryPage },
    /// Asked the author to edit the new page `page`.
    AwaitDraft { page: Page },
    /// Asked to store the new page `id`, which follows page `head`.
    AwaitStored { id: String, head: String },
    /// Asked for the page that was the newest, to link it to page `id`.
    AwaitOlder { id: String },
    /// Asked to store the page that was the newest.
    AwaitLinked { id: String },
    /// Asked to make page `id` the head.
    AwaitHeadStored,
    /// Nothing is left to do.
    Over,
}

/// A `CreateState` as a mathematical value.
pub enum CreateStateView {
    Start { id: Seq<char>, initial: DraftView },
    AwaitExists { id: Seq<char>, initial: DraftView },
    AwaitHead { id: Seq<char>, initial: DraftView },
    AwaitDraft { page: PageView },
    AwaitStored { id: Seq<char>, head: Seq<char> },
    AwaitOlder { id: Seq<char> },
    AwaitLinked { id: Seq<char> },
    AwaitHeadStored,
    Over,
}

impl View for CreateState {
    type V = CreateStateView;

    open spec fn view(&self) -> CreateStateView {
        match self {
            CreateState::Start { id, initial } => CreateStateView::Start {
                id: id@,
                initial: initial@,
            },
            CreateState::AwaitExists { id, initial } => CreateStateView::AwaitExists {
                id: id@,
                initial: initial@,
            },
            CreateState::AwaitHead { id, initial } => CreateStateView::AwaitHead {
                id: id@,
                initial: initial@,
            },
            CreateState::AwaitDraft { page } => CreateStateView::AwaitDraft { page: page@ },
            CreateState::AwaitStored { id, head } => CreateStateView::AwaitStored {
                id: id@,
                head: head@,
            },
            CreateState::AwaitOlder { id } => CreateStateView::AwaitOlder { id: id@ },
            CreateState::AwaitLinked { id } => CreateStateView::AwaitLinked { id: id@ },
            CreateState::AwaitHeadStored => CreateStateView::AwaitHeadStored,
            CreateState::Over => CreateStateView::Over,
        }
    }
}

/// The message for an id that cannot name a page, for the reason `reason`.
pub open spec fn invalid_id(reason: Seq<char>) -> Seq<char> {
    "Invalid ID: "@ + reason
}

/// The message for a page that cannot be created because it exists.
pub open spec fn already_exists(id: Seq<char>) -> Seq<char> {
    "`"@ + id + "` already exists. use `diary edit "@ + id + "`"@
}

/// The page `id` as it is before anything is known of it but that it follows page `head` and
/// was created at `created`.
pub open spec fn blank_page(id: Seq<char>, head: Seq<char>, created: Timestamp) -> PageView {
    PageView {
        id,
        header: HeaderView {
            title: id,
            insert_title: true,
            author: "__TEMP1__"@,
            created,
            updated: Seq::empty(),
            memo: true,
            prev: head,
            next: NULL_ID@,
        },
        text: Seq::empty(),
    }
}

/// The new page `id` that starts with `initial`, follows page `head` and was created at
/// `created`. No page follows it.
pub open spec fn new_page_of(
    id: Seq<char>,
    head: Seq<char>,
    initial: DraftView,
    created: Timestamp,
) -> PageView {
    applied(initial, blank_page(id, head, created))
}

/// `page`, followed by page `id`.
pub open spec fn followed_by(page: PageView, id: Seq<char>) -> PageView {
    PageView { header: HeaderView { next: id, ..page.header }, ..page }
}

/// What creating a page does in the state `state` when it is handed `reply` at the time `now`:
/// the state it goes to, and what it asks or how it ends.
///
/// It ends with `invalid_id` where the id cannot name a page, and with `already_exists` where
/// the page has a file. It asks for the head, makes the new page as the one that follows the
/// head, hands it to the editor and asks to store what comes back. Where the head is not
/// `NULL`, it asks for that page and asks to store it with the new page as the one that follows
/// it. Last it asks to make the new page the head. A failure that it is handed ends it with
/// that failure.
pub open spec fn create_new_page_spec(state: CreateStateView, reply: ReplyView, now: Timestamp) -> (
    CreateStateView,
    StepView,
) {
    match (state, reply) {
        (CreateStateView::Start { id, initial }, ReplyView::Start) => match id_fault(id) {
            Some(reason) => (CreateStateView::Over, StepView::Done(Err(invalid_id(reason)))),
            None => (
                CreateStateView::AwaitExists { id, initial },
                StepView::Ask(RequestView::PageExists { id }),
            ),
        },
        (CreateStateView::AwaitExists { id, initial }, ReplyView::Exists(exists)) => if exists {
            (CreateStateView::Over, StepView::Done(Err(already_exists(id))))
        } else {
            (CreateStateView::AwaitHead { id, initial }, StepView::Ask(RequestView::ReadHead))
        },
        (CreateStateView::AwaitHead { id, initial }, ReplyView::Head(Ok(head))) => {
            let page = new_page_of(id, head, initial, now);
            (
                CreateStateView::AwaitDraft { page },
                StepView::Ask(RequestView::Edit { draft: draft_of(page) }),
            )
        },
        (CreateStateView::AwaitHead { id, initial }, ReplyView::Head(Err(message))) => (
            CreateStateView::Over,
            StepView::Done(Err(message)),
        ),
        (CreateStateView::AwaitDraft { page }, ReplyView::Edited(Ok(draft))) => (
            CreateStateView::AwaitStored { id: page.id, head: page.header.prev },
            StepView::Ask(RequestView::StorePage { page: edited_page(page, draft, now) }),
        ),
        (CreateStateView::AwaitDraft { page }, ReplyView::Edited(Err(message))) => (
            CreateStateView::Over,
            StepView::Done(Err(message)),
        ),
        (CreateStateView::AwaitStored { id, head }, ReplyView::Stored(Ok(_))) => if head
            == NULL_ID@ {
            (CreateStateView::AwaitHeadStored, StepView::Ask(RequestView::StoreHead { id }))
        } else {
            (
                CreateStateView::AwaitOlder { id },
                StepView::Ask(RequestView::LoadPage { id: head }),
            )
        },
        (CreateStateView::AwaitStored { id, head }, ReplyView::Stored(Err(message))) => (
            CreateStateView::Over,
            StepView::Done(Err(message)),
        ),
        (CreateStateView::AwaitOlder { id }, ReplyView::Loaded(Ok(older))) => (
            CreateStateView::AwaitLinked { id },
            StepView::Ask(RequestView::StorePage { page: followed_by(older, id) }),
        ),
        (CreateStateView::AwaitOlder { id }, ReplyView::Loaded(Err(message))) => (
            CreateStateView::Over,
            StepView::Done(Err(message)),
        ),
        (CreateStateView::AwaitLinked { id }, ReplyView::Stored(Ok(_))) => (
            CreateStateView::AwaitHeadStored,
            StepView::Ask(RequestView::StoreHead { id }),
        ),
        (CreateStateView::AwaitLinked { id }, ReplyView::Stored(Err(message))) => (
            CreateStateView::Over,
            StepView::Done(Err(message)),
        ),
        (CreateStateView::AwaitHeadStored, ReplyView::Stored(stored)) => (
            CreateStateView::Over,
            StepView::Done(stored),
        ),
        _ => (CreateStateView::Over, StepView::Done(Err(out_of_turn()))),
    }
}

/// The message for an id that cannot name a page, for the reason `reason`.
pub fn invalid_id_message(reason: &str) -> (message: String)
    ensures
        message@ == invalid_id(reason@),
{
    let mut message = String::from_str("Invalid ID: ");
    message.append(reason);
    message
}

/// The message for a page that cannot be created because it exists.
pub fn already_exists_message(id: &str) -> (message: String)
    ensures
        message@ == already_exists(id@),
{
    let mut message = String::from_str("`");
    message.append(id);
    message.append("` already exists. use `diary edit ");
    message.append(id);
    message.append("`");
    message
}

/// Makes the new page `id` that starts with `initial`, follows page `head` and was created at
/// `created`.
pub fn new_page(id: &str, head: String, initial: &TemporaryPage, created: Timestamp) -> (page: Page)
    ensures
        page@ == new_page_of(id@, head@, initial@, created),
{
    let mut page = Page {
        id: id.to_owned(),
        header: PageHeader {
            title: id.to_owned(),
            insert_title: true,
            author: String::from_str("__TEMP1__"),
            created,
            updated: Vec::new(),
            memo: true,
            prev: head,
            next: String::from_str(NULL_ID),
        },
        text: String::new(),
    };
    initial.apply(&mut page);
    page
}

/// Notes in `page` that page `id` follows it.
pub fn link_next(page: Page, id: String) -> (linked: Page)
    ensures
        linked@ == followed_by(page@, id@),
{
    let mut page = page;
    page.header.next = id;
    page
}

/// One step of creating a page: from `state` and the answer `reply` to the last question, at
/// the time `now`, to the next state and the next question, or the end.
pub fn create_new_page(state: CreateState, reply: Reply, now: Timestamp) -> (next: (
    CreateState,
    Step,
))
    ensures
        (next.0@, next.1@) == create_new_page_spec(state@, reply@, now),
{
    match (state, reply) {
        (CreateState::Start { id, initial }, Reply::Start) => {
            match is_valid_id(id.as_str()) {
                Err(reason) => (
                    CreateState::Over,
                    Step::Done(Err(invalid_id_message(reason.as_str()))),
                ),
                Ok(_) => {
                    let request = Request::PageExists { id: id.clone() };
                    (CreateState::AwaitExists { id, initial }, Step::Ask(request))
                },
            }
        },
        (CreateState::AwaitExists { id, initial }, Reply::Exists(exists)) => {
            if exists {
                (CreateState::Over, Step::Done(Err(already_exists_message(id.as_str()))))
            } else {
                (CreateState::AwaitHead { id, initial }, Step::Ask(Request::ReadHead))
            }
        },
        (CreateState::AwaitHead { id, initial }, Reply::Head(Ok(head))) => {
            let page = new_page(id.as_str(), head, &initial, now);
            let draft = TemporaryPage::from_page(&page);
            (CreateState::AwaitDraft { page }, Step::Ask(Request::Edit { draft }))
        },
        (CreateState::AwaitHead { id, initial }, Reply::Head(Err(message))) => (
            CreateState::Over,
            Step::Done(Err(message)),
        ),
        (CreateState::AwaitDraft { page }, Reply::Edited(Ok(draft))) => {
            let id = page.id.clone();
            let head = page.header.prev.clone();
            let page = edit_page(page, &draft, now);
            (CreateState::AwaitStored { id, head }, Step::Ask(Request::StorePage { page }))
        },
        (CreateState::AwaitDraft { page }, Reply::Edited(Err(message))) => (
            CreateState::Over,
            Step::Done(Err(message)),
        ),
        (CreateState::AwaitStored { id, head }, Reply::Stored(Ok(_))) => {
            if same_text(head.as_str(), NULL_ID) {
                (CreateState::AwaitHeadStored, Step::Ask(Request::StoreHead { id }))
            } else {
                (CreateState::AwaitOlder { id }, Step::Ask(Request::LoadPage { id: head }))
            }
        },
        (CreateState::AwaitStored { id, head }, Reply::Stored(Err(message))) => (
            CreateState::Over,
            Step::Done(Err(message)),
        ),
        (CreateState::AwaitOlder { id }, Reply::Loaded(Ok(older))) => {
            let page = link_next(older, id.clone());
            (CreateState::AwaitLinked { id }, Step::Ask(Request::StorePage { page }))
        },
        (CreateState::AwaitOlder { id }, Reply::Loaded(Err(message))) => (
            CreateState::Over,
            Step::Done(Err(message)),
        ),
        (CreateState::AwaitLinked { id }, Reply::Stored(Ok(_))) => (
            CreateState::AwaitHeadStored,
            Step::Ask(Request::StoreHead { id }),
        ),
        (CreateState::AwaitLinked { id }, Reply::Stored(Err(message))) => (
            CreateState::Over,
            Step::Done(Err(message)),
        ),
        (CreateState::AwaitHeadStored, Reply::Stored(stored)) => (
            CreateState::Over,
            Step::Done(stored),
        ),
        _ => (CreateState::Over, unexpected()),
    }
}

} // verus!
