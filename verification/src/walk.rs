//! Walking the chain from the newest page back: listing pages, and searching their texts.

use crate::edit::{out_of_turn, unexpected};
use crate::number::{parse_signed, parse_unsigned, signed_of, unsigned_of};
use crate::outside::{paint_yellow, yellow};
use crate::page::{Page, PageView, NULL_ID};
use crate::shell::{Reply, ReplyView, Request, RequestView, Step, StepView};
use crate::text::{contains, contains_text, same_text};
use vstd::prelude::*;

verus! {

/// How far a listing has come.
#[derive(Debug, PartialEq, Eq)]
pub enum ListState {
    /// Nothing was asked yet: `count` pages are to be shown after `skip` pages were passed over.
    Start { count: u32, skip: i32 },
    /// Asked for the id of the newest page.
    AwaitHead { to_skip: u64, to_visit: u64 },
    /// Asked for a page. After it, `to_visit` pages may be visited, the first `to_skip` of them
    /// without being shown.
    AwaitPage { to_skip: u64, to_visit: u64 },
    /// Asked to print the line of a page; page `next` comes after it.
    AwaitPrinted { next: String, to_visit: u64 },
    /// Nothing is left to do.
    Over,
}

/// How far a search has come.
#[derive(Debug, PartialEq, Eq)]
pub enum SearchState {
    /// Nothing was asked yet; `query` is what to look for.
    Start { query: String },
    /// Asked for the id of the newest page.
    AwaitHead { query: String },
    /// Asked for a page.
    AwaitPage { query: String },
    /// Asked to print the line of a page; page `next` comes after it.
    AwaitPrinted { query: String, next: String },
    /// Nothing is left to do.
    Over,
}

/// A `ListState` as a mathematical value.
pub enum ListStateView {
    Start { count: u32, skip: i32 },
    AwaitHead { to_skip: u64, to_visit: u64 },
    AwaitPage { to_skip: u64, to_visit: u64 },
    AwaitPrinted { next: Seq<char>, to_visit: u64 },
    Over,
}

/// A `SearchState` as a mathematical value.
pub enum SearchStateView {
    Start { query: Seq<char> },
    AwaitHead { query: Seq<char> },
    AwaitPage { query: Seq<char> },
    AwaitPrinted { query: Seq<char>, next: Seq<char> },
    Over,
}

impl View for ListState {
    type V = ListStateView;

    open spec fn view(&self) -> ListStateView {
        match self {
            ListState::Start { count, skip } => ListStateView::Start { count: *count, skip: *skip },
            ListState::AwaitHead { to_skip, to_visit } => ListStateView::AwaitHead {
                to_skip: *to_skip,
                to_visit: *to_visit,
            },
            ListState::AwaitPage { to_skip, to_visit } => ListStateView::AwaitPage {
                to_skip: *to_skip,
                to_visit: *to_visit,
            },
            ListState::AwaitPrinted { next, to_visit } => ListStateView::AwaitPrinted {
                next: next@,
                to_visit: *to_visit,
            },
            ListState::Over => ListStateView::Over,
        }
    }
}

impl View for SearchState {
    type V = SearchStateView;

    open spec fn view(&self) -> SearchStateView {
        match self {
            SearchState::Start { query } => SearchStateView::Start { query: query@ },
            SearchState::AwaitHead { query } => SearchStateView::AwaitHead { query: query@ },
            SearchState::AwaitPage { query } => SearchStateView::AwaitPage { query: query@ },
            SearchState::AwaitPrinted { query, next } => SearchStateView::AwaitPrinted {
                query: query@,
                next: next@,
            },
            SearchState::Over => SearchStateView::Over,
        }
    }
}

/// The number of pages to show that the argument `argument` asks for: the number it writes,
/// and `default` where there is no argument or it writes none.
pub open spec fn page_count_of(argument: Option<Seq<char>>, default: u32) -> u32 {
    match argument {
        Some(written) => match unsigned_of(written) {
            Some(count) => count,
            None => default,
        },
        None => default,
    }
}

/// The number of pages to pass over that the argument `argument` asks for: the number it
/// writes, and none where there is no argument or it writes no number.
pub open spec fn skip_of(argument: Option<Seq<char>>) -> i32 {
    match argument {
        Some(written) => match signed_of(written) {
            Some(skip) => skip,
            None => 0,
        },
        None => 0,
    }
}

/// `count` taken as a number of 32 bits with a sign: from 2^31 on it stands for a negative
/// number.
pub open spec fn wrapped(count: u32) -> int {
    if count <= i32::MAX {
        count as int
    } else {
        count - 0x1_0000_0000
    }
}

/// How many pages a listing visits at most: those it passes over and those it shows.
pub open spec fn visits_of(count: u32, skip: i32) -> int {
    if wrapped(count) + skip > 0 {
        wrapped(count) + skip
    } else {
        0
    }
}

/// How many pages a listing passes over before it shows one.
pub open spec fn skips_of(skip: i32) -> int {
    if skip > 0 {
        skip as int
    } else {
        0
    }
}

/// The line that shows a page in a listing: its title, and its id in yellow between brackets.
pub open spec fn entry_line_of(page: PageView) -> Seq<char> {
    page.header.title + " ("@ + yellow(page.id) + ")"@
}

/// What a listing does when it comes to page `id` with `to_visit` pages left to visit, the
/// first `to_skip` of them not to be shown: it ends at `NULL` and where nothing is left, and
/// asks for the page else.
pub open spec fn list_visit(id: Seq<char>, to_skip: u64, to_visit: u64) -> (ListStateView, StepView) {
    if to_visit == 0 || id == NULL_ID@ {
        (ListStateView::Over, StepView::Done(Ok(())))
    } else {
        (ListStateView::AwaitPage { to_skip, to_visit }, StepView::Ask(RequestView::LoadPage { id }))
    }
}

/// What a listing does in the state `state` when it is handed `reply`: the state it goes to,
/// and what it asks or how it ends.
///
/// It asks for the head and follows the chain from there by the `prev` of each page. It passes
/// over the first pages, asks to print the line of each page after them, and ends at `NULL` or
/// when it has visited as many pages as it may. A failure that it is handed ends it with that
/// failure.
pub open spec fn list_spec(state: ListStateView, reply: ReplyView) -> (ListStateView, StepView) {
    match (state, reply) {
        (ListStateView::Start { count, skip }, ReplyView::Start) => (
            ListStateView::AwaitHead {
                to_skip: skips_of(skip) as u64,
                to_visit: visits_of(count, skip) as u64,
            },
            StepView::Ask(RequestView::ReadHead),
        ),
        (ListStateView::AwaitHead { to_skip, to_visit }, ReplyView::Head(Ok(head))) => list_visit(
            head,
            to_skip,
            to_visit,
        ),
        (ListStateView::AwaitHead { to_skip, to_visit }, ReplyView::Head(Err(message))) => (
            ListStateView::Over,
            StepView::Done(Err(message)),
        ),
        (ListStateView::AwaitPage { to_skip, to_visit }, ReplyView::Loaded(Ok(page))) => {
            let left = if to_visit > 0 {
                (to_visit - 1) as u64
            } else {
                0
            };
            if to_skip > 0 {
                list_visit(page.header.prev, (to_skip - 1) as u64, left)
            } else {
                (
                    ListStateView::AwaitPrinted { next: page.header.prev, to_visit: left },
                    StepView::Ask(RequestView::Print { text: entry_line_of(page) }),
                )
            }
        },
        (ListStateView::AwaitPage { to_skip, to_visit }, ReplyView::Loaded(Err(message))) => (
            ListStateView::Over,
            StepView::Done(Err(message)),
        ),
        (ListStateView::AwaitPrinted { next, to_visit }, ReplyView::Printed) => list_visit(
            next,
            0,
            to_visit,
        ),
        _ => (ListStateView::Over, StepView::Done(Err(out_of_turn()))),
    }
}

/// What a search for `query` does when it comes to page `id`: it ends at `NULL`, and asks for
/// the page else.
pub open spec fn search_visit(query: Seq<char>, id: Seq<char>) -> (SearchStateView, StepView) {
    if id == NULL_ID@ {
        (SearchStateView::Over, StepView::Done(Ok(())))
    } else {
        (SearchStateView::AwaitPage { query }, StepView::Ask(RequestView::LoadPage { id }))
    }
}

/// What a search does in the state `state` when it is handed `reply`: the state it goes to,
/// and what it asks or how it ends.
///
/// It asks for the head and follows the chain from there by the `prev` of each page, to
/// `NULL`. It asks to print the line of each page whose text holds the query. A failure that it
/// is handed ends it with that failure.
pub open spec fn search_spec(state: SearchStateView, reply: ReplyView) -> (
    SearchStateView,
    StepView,
) {
    match (state, reply) {
        (SearchStateView::Start { query }, ReplyView::Start) => (
            SearchStateView::AwaitHead { query },
            StepView::Ask(RequestView::ReadHead),
        ),
        (SearchStateView::AwaitHead { query }, ReplyView::Head(Ok(head))) => search_visit(
            query,
            head,
        ),
        (SearchStateView::AwaitHead { query }, ReplyView::Head(Err(message))) => (
            SearchStateView::Over,
            StepView::Done(Err(message)),
        ),
        (SearchStateView::AwaitPage { query }, ReplyView::Loaded(Ok(page))) => if contains(
            page.text,
            query,
        ) {
            (
                SearchStateView::AwaitPrinted { query, next: page.header.prev },
                StepView::Ask(RequestView::Print { text: entry_line_of(page) }),
            )
        } else {
            search_visit(query, page.header.prev)
        },
        (SearchStateView::AwaitPage { query }, ReplyView::Loaded(Err(message))) => (
            SearchStateView::Over,
            StepView::Done(Err(message)),
        ),
        (SearchStateView::AwaitPrinted { query, next }, ReplyView::Printed) => search_visit(
            query,
            next,
        ),
        _ => (SearchStateView::Over, StepView::Done(Err(out_of_turn()))),
    }
}

/// The number of pages to show, from the argument that may name it.
pub fn page_count(argument: Option<&str>, default: u32) -> (count: u32)
    ensures
        count == page_count_of(
            match argument {
                Some(written) => Some(written@),
                None => None,
            },
            default,
        ),
{
    match argument {
        Some(written) => match parse_unsigned(written) {
            Some(count) => count,
            None => default,
        },
        None => default,
    }
}

/// The number of pages to pass over, from the argument that may name it.
pub fn skip_count(argument: Option<&str>) -> (skip: i32)
    ensures
        skip == skip_of(
            match argument {
                Some(written) => Some(written@),
                None => None,
            },
        ),
{
    match argument {
        Some(written) => match parse_signed(written) {
            Some(skip) => skip,
            None => 0,
        },
        None => 0,
    }
}

/// The line that shows `page` in a listing.
pub fn entry_line(page: &Page) -> (line: String)
    ensures
        line@ == entry_line_of(page@),
{
    let mut line = page.header.title.clone();
    line.append(" (");
    let painted = paint_yellow(page.id.as_str());
    line.append(painted.as_str());
    line.append(")");
    line
}

/// Comes to page `id` in a listing.
fn visit_listed(id: String, to_skip: u64, to_visit: u64) -> (next: (ListState, Step))
    ensures
        (next.0@, next.1@) == list_visit(id@, to_skip, to_visit),
{
    if to_visit == 0 || same_text(id.as_str(), NULL_ID) {
        (ListState::Over, Step::Done(Ok(())))
    } else {
        (ListState::AwaitPage { to_skip, to_visit }, Step::Ask(Request::LoadPage { id }))
    }
}

/// Comes to page `id` in a search.
fn visit_searched(query: String, id: String) -> (next: (SearchState, Step))
    ensures
        (next.0@, next.1@) == search_visit(query@, id@),
{
    if same_text(id.as_str(), NULL_ID) {
        (SearchState::Over, Step::Done(Ok(())))
    } else {
        (SearchState::AwaitPage { query }, Step::Ask(Request::LoadPage { id }))
    }
}

/// One step of a listing: from `state` and the answer `reply` to the last question to the next
/// state and the next question, or the end.
pub fn list(state: ListState, reply: Reply) -> (next: (ListState, Step))
    ensures
        (next.0@, next.1@) == list_spec(state@, reply@),
{
    match (state, reply) {
        (ListState::Start { count, skip }, Reply::Start) => {
            let wrapped_count: i64 = if count <= 0x7FFF_FFFF {
                count as i64
            } else {
                count as i64 - 0x1_0000_0000
            };
            let limit: i64 = wrapped_count + skip as i64;
            let to_visit: u64 = if limit > 0 {
                limit as u64
            } else {
                0
            };
            let to_skip: u64 = if skip > 0 {
                skip as u64
            } else {
                0
            };
            (ListState::AwaitHead { to_skip, to_visit }, Step::Ask(Request::ReadHead))
        },
        (ListState::AwaitHead { to_skip, to_visit }, Reply::Head(Ok(head))) => visit_listed(
            head,
            to_skip,
            to_visit,
        ),
        (ListState::AwaitHead { to_skip, to_visit }, Reply::Head(Err(message))) => (
            ListState::Over,
            Step::Done(Err(message)),
        ),
        (ListState::AwaitPage { to_skip, to_visit }, Reply::Loaded(Ok(page))) => {
            let left: u64 = if to_visit > 0 {
                to_visit - 1
            } else {
                0
            };
            if to_skip > 0 {
                visit_listed(page.header.prev, to_skip - 1, left)
            } else {
                let text = entry_line(&page);
                (
                    ListState::AwaitPrinted { next: page.header.prev, to_visit: left },
                    Step::Ask(Request::Print { text }),
                )
            }
        },
        (ListState::AwaitPage { to_skip, to_visit }, Reply::Loaded(Err(message))) => (
            ListState::Over,
            Step::Done(Err(message)),
        ),
        (ListState::AwaitPrinted { next, to_visit }, Reply::Printed) => visit_listed(
            next,
            0,
            to_visit,
        ),
        _ => (ListState::Over, unexpected()),
    }
}

/// One step of a search: from `state` and the answer `reply` to the last question to the next
/// state and the next question, or the end.
pub fn search(state: SearchState, reply: Reply) -> (next: (SearchState, Step))
    ensures
        (next.0@, next.1@) == search_spec(state@, reply@),
{
    match (state, reply) {
        (SearchState::Start { query }, Reply::Start) => (
            SearchState::AwaitHead { query },
            Step::Ask(Request::ReadHead),
        ),
        (SearchState::AwaitHead { query }, Reply::Head(Ok(head))) => visit_searched(query, head),
        (SearchState::AwaitHead { query }, Reply::Head(Err(message))) => (
            SearchState::Over,
            Step::Done(Err(message)),
        ),
        (SearchState::AwaitPage { query }, Reply::Loaded(Ok(page))) => {
            if contains_text(page.text.as_str(), query.as_str()) {
                let text = entry_line(&page);
                (
                    SearchState::AwaitPrinted { query, next: page.header.prev },
                    Step::Ask(Request::Print { text }),
                )
            } else {
                visit_searched(query, page.header.prev)
            }
        },
        (SearchState::AwaitPage { query }, Reply::Loaded(Err(message))) => (
            SearchState::Over,
            Step::Done(Err(message)),
        ),
        (SearchState::AwaitPrinted { query, next }, Reply::Printed) => visit_searched(query, next),
        _ => (SearchState::Over, unexpected()),
    }
}

} // verus!
