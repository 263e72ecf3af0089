//! Showing a page: by its id, or by a regular expression that its id matches.

use crate::edit::{out_of_turn, unexpected};
use crate::outside::{compile, is_match, pattern_fault, pattern_matches, Matcher};
use crate::page::{Page, PageView};
use crate::shell::{names_view, Reply, ReplyView, Request, RequestView, Step, StepView};
use vstd::prelude::*;

verus! {

/// How far the showing of a page has come.
#[derive(Debug)]
pub enum ShowState {
    /// Nothing was asked yet; `id` is what the author wrote.
    Start { id: String },
    /// Asked whether page `id` exists.
    AwaitExists { id: String },
    /// Asked for the ids of all pages, to pick one that `matcher` matches.
    AwaitPages { matcher: Matcher },
    /// Asked for the page.
    AwaitPage,
    /// Asked to print the page.
    AwaitPrinted,
    /// Nothing is left to do.
    Over,
}

/// A `ShowState` as a mathematical value.
pub enum ShowStateView {
    Start { id: Seq<char> },
    AwaitExists { id: Seq<char> },
    AwaitPages { pattern: Seq<char> },
    AwaitPage,
    AwaitPrinted,
    Over,
}

impl View for ShowState {
    type V = ShowStateView;

    open spec fn view(&self) -> ShowStateView {
        match self {
            ShowState::Start { id } => ShowStateView::Start { id: id@ },
            ShowState::AwaitExists { id } => ShowStateView::AwaitExists { id: id@ },
            ShowState::AwaitPages { matcher } => ShowStateView::AwaitPages {
                pattern: matcher.pattern(),
            },
            ShowState::AwaitPage => ShowStateView::AwaitPage,
            ShowState::AwaitPrinted => ShowStateView::AwaitPrinted,
            ShowState::Over => ShowStateView::Over,
        }
    }
}

/// The message for a regular expression that cannot be used, for the reason `fault`.
pub open spec fn invalid_regex(fault: Seq<char>) -> Seq<char> {
    "Invalid regex: "@ + fault
}

/// The message for a regular expression that no id matches.
pub open spec fn no_match() -> Seq<char> {
    "Not found"@
}

/// The last of `names` that the regular expression `pattern` matches.
pub open spec fn last_match(pattern: Seq<char>, names: Seq<Seq<char>>) -> Option<Seq<char>>
    decreases names.len(),
{
    if names.len() == 0 {
        None
    } else if pattern_matches(pattern, names.last()) {
        Some(names.last())
    } else {
        last_match(pattern, names.drop_last())
    }
}

/// What is printed of a page: its text, below its title where the page asks for that.
pub open spec fn rendered(page: PageView) -> Seq<char> {
    if page.header.insert_title {
        "# "@ + page.header.title + "\n\n"@ + page.text
    } else {
        page.text
    }
}

/// What showing a page does in the state `state` when it is handed `reply`: the state it goes
/// to, and what it asks or how it ends.
///
/// It asks whether the page that the author named exists. Where it does not, the name is taken
/// as a regular expression: it ends with `invalid_regex` where that cannot be used, asks for the
/// ids of all pages and takes the last that the expression matches, and ends with `no_match`
/// where there is none. It asks for the page and asks to print it. A failure that it is handed
/// ends it with that failure.
pub open spec fn show_spec(state: ShowStateView, reply: ReplyView) -> (ShowStateView, StepView) {
    match (state, reply) {
        (ShowStateView::Start { id }, ReplyView::Start) => (
            ShowStateView::AwaitExists { id },
            StepView::Ask(RequestView::PageExists { id }),
        ),
        (ShowStateView::AwaitExists { id }, ReplyView::Exists(exists)) => if exists {
            (ShowStateView::AwaitPage, StepView::Ask(RequestView::LoadPage { id }))
        } else {
            match pattern_fault(id) {
                None => (
                    ShowStateView::AwaitPages { pattern: id },
                    StepView::Ask(RequestView::ListPages),
                ),
                Some(fault) => (ShowStateView::Over, StepView::Done(Err(invalid_regex(fault)))),
            }
        },
        (ShowStateView::AwaitPages { pattern }, ReplyView::Pages(Ok(names))) => match last_match(
            pattern,
            names,
        ) {
            Some(id) => (ShowStateView::AwaitPage, StepView::Ask(RequestView::LoadPage { id })),
            None => (ShowStateView::Over, StepView::Done(Err(no_match()))),
        },
        (ShowStateView::AwaitPages { pattern }, ReplyView::Pages(Err(message))) => (
            ShowStateView::Over,
            StepView::Done(Err(message)),
        ),
        (ShowStateView::AwaitPage, ReplyView::Loaded(Ok(page))) => (
            ShowStateView::AwaitPrinted,
            StepView::Ask(RequestView::Print { text: rendered(page) }),
        ),
        (ShowStateView::AwaitPage, ReplyView::Loaded(Err(message))) => (
            ShowStateView::Over,
            StepView::Done(Err(message)),
        ),
        (ShowStateView::AwaitPrinted, ReplyView::Printed) => (
            ShowStateView::Over,
            StepView::Done(Ok(())),
        ),
        _ => (ShowStateView::Over, StepView::Done(Err(out_of_turn()))),
    }
}

/// The message for a regular expression that cannot be used, for the reason `fault`.
pub fn invalid_regex_message(fault: &str) -> (message: String)
    ensures
        message@ == invalid_regex(fault@),
{
    let mut message = String::from_str("Invalid regex: ");
    message.append(fault);
    message
}

/// What is printed of `page`.
pub fn render(page: &Page) -> (text: String)
    ensures
        text@ == rendered(page@),
{
    if page.header.insert_title {
        let mut text = String::from_str("# ");
        text.append(page.header.title.as_str());
        text.append("\n\n");
        text.append(page.text.as_str());
        text
    } else {
        page.text.clone()
    }
}

/// Picks the last of `names` that `matcher` matches.
pub fn select(matcher: &Matcher, names: &Vec<String>) -> (selected: Option<String>)
    ensures
        match selected {
            Some(id) => last_match(matcher.pattern(), names_view(*names)) == Some(id@),
            None => last_match(matcher.pattern(), names_view(*names)) is None,
        },
{
    let ghost all = names_view(*names);
    let mut selected: Option<String> = None;
    let mut i: usize = 0;
    assert(all.take(0) =~= Seq::<Seq<char>>::empty());
    while i < names.len()
        invariant
            i <= names.len(),
            all == names_view(*names),
            match selected {
                Some(id) => last_match(matcher.pattern(), all.take(i as int)) == Some(id@),
                None => last_match(matcher.pattern(), all.take(i as int)) is None,
            },
        decreases names.len() - i,
    {
        proof {
            let longer = all.take(i + 1);
            assert(longer.drop_last() =~= all.take(i as int));
            assert(longer.last() == names@[i as int]@);
        }
        if is_match(matcher, names[i].as_str()) {
            selected = Some(names[i].clone());
        }
        i += 1;
    }
    assert(all.take(i as int) =~= all);
    selected
}

/// One step of showing a page: from `state` and the answer `reply` to the last question to the
/// next state and the next question, or the end.
pub fn show(state: ShowState, reply: Reply) -> (next: (ShowState, Step))
    ensures
        (next.0@, next.1@) == show_spec(state@, reply@),
{
    match (state, reply) {
        (ShowState::Start { id }, Reply::Start) => {
            let request = Request::PageExists { id: id.clone() };
            (ShowState::AwaitExists { id }, Step::Ask(request))
        },
        (ShowState::AwaitExists { id }, Reply::Exists(exists)) => {
            if exists {
                (ShowState::AwaitPage, Step::Ask(Request::LoadPage { id }))
            } else {
                match compile(id.as_str()) {
                    Ok(matcher) => (
                        ShowState::AwaitPages { matcher },
                        Step::Ask(Request::ListPages),
                    ),
                    Err(fault) => (
                        ShowState::Over,
                        Step::Done(Err(invalid_regex_message(fault.as_str()))),
                    ),
                }
            }
        },
        (ShowState::AwaitPages { matcher }, Reply::Pages(Ok(names))) => {
            match select(&matcher, &names) {
                Some(id) => (ShowState::AwaitPage, Step::Ask(Request::LoadPage { id })),
                None => (ShowState::Over, Step::Done(Err(String::from_str("Not found")))),
            }
        },
        (ShowState::AwaitPages { matcher }, Reply::Pages(Err(message))) => (
            ShowState::Over,
            Step::Done(Err(message)),
        ),
        (ShowState::AwaitPage, Reply::Loaded(Ok(page))) => {
            let text = render(&page);
            (ShowState::AwaitPrinted, Step::Ask(Request::Print { text }))
        },
        (ShowState::AwaitPage, Reply::Loaded(Err(message))) => (
            ShowState::Over,
            Step::Done(Err(message)),
        ),
        (ShowState::AwaitPrinted, Reply::Printed) => (ShowState::Over, Step::Done(Ok(()))),
        _ => (ShowState::Over, unexpected()),
    }
}

} // verus!
