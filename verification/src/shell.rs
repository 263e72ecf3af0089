//! The questions that a running command puts to its surroundings, and the answers to them.
//!
//! A command never touches a file or a terminal. It asks for one thing at a time with a
//! `Request`, and goes on when it is handed the matching `Reply`.

use crate::draft::{DraftView, TemporaryPage};
use crate::page::{Page, PageView};
use vstd::prelude::*;

verus! {

/// One thing that a command needs done.
#[derive(Clone, Debug, PartialEq, Eq)]
pub enum Request {
    /// Read the id of the newest page from the head file.
    ReadHead,
    /// Find out whether page `id` has a file.
    PageExists { id: String },
    /// List the ids of all pages that have a file, in the order of the directory.
    ListPages,
    /// Read and decode the file of page `id`.
    LoadPage { id: String },
    /// Encode `page` and write it to the file of page `page.id`.
    StorePage { page: Page },
    /// Write `id` to the head file.
    StoreHead { id: String },
    /// Remove the file of page `id`.
    RemovePage { id: String },
    /// Let the author edit `draft`.
    Edit { draft: TemporaryPage },
    /// Let the author edit the configuration.
    EditConfig,
    /// Print `text`, and end the line.
    Print { text: String },
}

/// The answer to a `Request`. A failure is the message for the user.
#[derive(Debug, PartialEq, Eq)]
pub enum Reply {
    /// Nothing was asked yet.
    Start,
    /// To `ReadHead`.
    Head(Result<String, String>),
    /// To `PageExists`.
    Exists(bool),
    /// To `ListPages`.
    Pages(Result<Vec<String>, String>),
    /// To `LoadPage`.
    Loaded(Result<Page, String>),
    /// To `StorePage`, `StoreHead`, `RemovePage` and `EditConfig`.
    Stored(Result<(), String>),
    /// To `Edit`: what the author left.
    Edited(Result<TemporaryPage, String>),
    /// To `Print`.
    Printed,
}

/// What a command does next: it asks, or it is over.
#[derive(Debug, PartialEq, Eq)]
pub enum Step {
    Ask(Request),
    Done(Result<(), String>),
}

/// A `Request` as a mathematical value.
pub enum RequestView {
    ReadHead,
    PageExists { id: Seq<char> },
    ListPages,
    LoadPage { id: Seq<char> },
    StorePage { page: PageView },
    StoreHead { id: Seq<char> },
    RemovePage { id: Seq<char> },
    Edit { draft: DraftView },
    EditConfig,
    Print { text: Seq<char> },
}

/// A `Reply` as a mathematical value.
pub enum ReplyView {
    Start,
    Head(Result<Seq<char>, Seq<char>>),
    Exists(bool),
    Pages(Result<Seq<Seq<char>>, Seq<char>>),
    Loaded(Result<PageView, Seq<char>>),
    Stored(Result<(), Seq<char>>),
    Edited(Result<DraftView, Seq<char>>),
    Printed,
}

/// A `Step` as a mathematical value.
pub enum StepView {
    Ask(RequestView),
    Done(Result<(), Seq<char>>),
}

/// The ids in `names`, each as a sequence of characters.
pub open spec fn names_view(names: Vec<String>) -> Seq<Seq<char>> {
    Seq::new(names@.len(), |i: int| names@[i]@)
}

impl View for Request {
    type V = RequestView;

    open spec fn view(&self) -> RequestView {
        match self {
            Request::ReadHead => RequestView::ReadHead,
            Request::PageExists { id } => RequestView::PageExists { id: id@ },
            Request::ListPages => RequestView::ListPages,
            Request::LoadPage { id } => RequestView::LoadPage { id: id@ },
            Request::StorePage { page } => RequestView::StorePage { page: page@ },
            Request::StoreHead { id } => RequestView::StoreHead { id: id@ },
            Request::RemovePage { id } => RequestView::RemovePage { id: id@ },
            Request::Edit { draft } => RequestView::Edit { draft: draft@ },
            Request::EditConfig => RequestView::EditConfig,
            Request::Print { text } => RequestView::Print { text: text@ },
        }
    }
}

impl View for Reply {
    type V = ReplyView;

    open spec fn view(&self) -> ReplyView {
        match self {
            Reply::Start => ReplyView::Start,
            Reply::Head(Ok(id)) => ReplyView::Head(Ok(id@)),
            Reply::Head(Err(message)) => ReplyView::Head(Err(message@)),
            Reply::Exists(exists) => ReplyView::Exists(*exists),
            Reply::Pages(Ok(names)) => ReplyView::Pages(Ok(names_view(*names))),
            Reply::Pages(Err(message)) => ReplyView::Pages(Err(message@)),
            Reply::Loaded(Ok(page)) => ReplyView::Loaded(Ok(page@)),
            Reply::Loaded(Err(message)) => ReplyView::Loaded(Err(message@)),
            Reply::Stored(Ok(_)) => ReplyView::Stored(Ok(())),
            Reply::Stored(Err(message)) => ReplyView::Stored(Err(message@)),
            Reply::Edited(Ok(draft)) => ReplyView::Edited(Ok(draft@)),
            Reply::Edited(Err(message)) => ReplyView::Edited(Err(message@)),
            Reply::Printed => ReplyView::Printed,
        }
    }
}

impl View for Step {
    type V = StepView;

    open spec fn view(&self) -> StepView {
        match self {
            Step::Ask(request) => StepView::Ask(request@),
            Step::Done(Ok(_)) => StepView::Done(Ok(())),
            Step::Done(Err(message)) => StepView::Done(Err(message@)),
        }
    }
}

} // verus!
