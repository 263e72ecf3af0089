//! The diary as a whole: its pages, the chain that links them, and what a command makes of it
//! when its questions are answered truthfully.

use crate::commands::{advance_spec, SessionView};
use crate::draft::DraftView;
use crate::page::{PageView, Timestamp, NULL_ID};
use crate::shell::{ReplyView, RequestView, StepView};
use vstd::prelude::*;

verus! {

/// The pages of a diary and its head.
pub struct Store {
    /// The id of the newest page, or `NULL`.
    pub head: Seq<char>,
    /// The pages that have a file, by their ids.
    pub pages: Map<Seq<char>, PageView>,
}

/// A diary, and what was printed for its author.
pub struct World {
    pub store: Store,
    pub printed: Seq<Seq<char>>,
}

/// What does not come from the diary when a command runs.
pub struct Surroundings {
    /// The time at each step, counted by the steps that are left.
    pub clock: spec_fn(nat) -> Timestamp,
    /// What the author leaves in the editor.
    pub edited: DraftView,
    /// The ids of the pages in the order of their directory.
    pub listing: Seq<Seq<char>>,
    /// The message for a page that cannot be read.
    pub unreadable: Seq<char>,
}

/// Whether `chain` is the chain of the diary `store`, from its newest page to its oldest:
/// it holds every page once, it starts at the head, and each page names the page after it in
/// the chain as its `prev` and the one before it as its `next`, with `NULL` at both ends.
pub open spec fn linked(store: Store, chain: Seq<Seq<char>>) -> bool {
    &&& chain.no_duplicates()
    &&& !chain.contains(NULL_ID@)
    &&& forall|id: Seq<char>| store.pages.dom().contains(id) <==> chain.contains(id)
    &&& store.head == if chain.len() == 0 {
        NULL_ID@
    } else {
        chain[0]
    }
    &&& forall|k: int|
        0 <= k < chain.len() ==> {
            &&& (#[trigger] store.pages[chain[k]]).id == chain[k]
            &&& store.pages[chain[k]].header.prev == if k + 1 < chain.len() {
                chain[k + 1]
            } else {
                NULL_ID@
            }
            &&& store.pages[chain[k]].header.next == if k > 0 {
                chain[k - 1]
            } else {
                NULL_ID@
            }
        }
}

/// Whether the pages of the diary `store` form one chain from its head.
pub open spec fn well_linked(store: Store) -> bool {
    exists|chain: Seq<Seq<char>>| linked(store, chain)
}

/// The truthful answer to `request` in the world `world`, and the world after it.
pub open spec fn answer(world: World, request: RequestView, around: Surroundings) -> (
    World,
    ReplyView,
) {
    let store = world.store;
    match request {
        RequestView::ReadHead => (world, ReplyView::Head(Ok(store.head))),
        RequestView::PageExists { id } => (
            world,
            ReplyView::Exists(store.pages.dom().contains(id)),
        ),
        RequestView::ListPages => (world, ReplyView::Pages(Ok(around.listing))),
        RequestView::LoadPage { id } => if store.pages.dom().contains(id) {
            (world, ReplyView::Loaded(Ok(store.pages[id])))
        } else {
            (world, ReplyView::Loaded(Err(around.unreadable)))
        },
        RequestView::StorePage { page } => (
            World { store: Store { pages: store.pages.insert(page.id, page), ..store }, ..world },
            ReplyView::Stored(Ok(())),
        ),
        RequestView::StoreHead { id } => (
            World { store: Store { head: id, ..store }, ..world },
            ReplyView::Stored(Ok(())),
        ),
        RequestView::RemovePage { id } => (
            World { store: Store { pages: store.pages.remove(id), ..store }, ..world },
            ReplyView::Stored(Ok(())),
        ),
        RequestView::Edit { draft } => (world, ReplyView::Edited(Ok(around.edited))),
        RequestView::EditConfig => (world, ReplyView::Stored(Ok(()))),
        RequestView::Print { text } => (
            World { printed: world.printed.push(text), ..world },
            ReplyView::Printed,
        ),
    }
}

/// The world after the command `session`, handed `reply`, has run for `steps` questions at
/// most, each answered truthfully, and how it ended: `None` where it was not over by then.
pub open spec fn run(
    session: SessionView,
    reply: ReplyView,
    world: World,
    around: Surroundings,
    steps: nat,
) -> (World, Option<Result<(), Seq<char>>>)
    decreases steps,
{
    let (next, step) = advance_spec(session, reply, (around.clock)(steps));
    match step {
        StepView::Done(result) => (world, Some(result)),
        StepView::Ask(request) => if steps == 0 {
            (world, None)
        } else {
            let (after, handed) = answer(world, request, around);
            run(next, handed, after, around, (steps - 1) as nat)
        },
    }
}

} // verus!
