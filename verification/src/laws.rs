//! What the commands keep of the chain.

use crate::chain::{answer, linked, run, Store, Surroundings, World};
use crate::commands::{template_of, DiaryStateView, SessionView};
use crate::create::{create_new_page_spec, followed_by, new_page_of, CreateStateView};
use crate::draft::DraftView;
use crate::edit::{edit_page_by_id_spec, edited_page, EditStateView};
use crate::ident::id_fault;
use crate::page::NULL_ID;
use crate::rename::{preceded_by, renamed, RenameStateView};
use crate::outside::is_pattern;
use crate::shell::{ReplyView, RequestView, StepView};
use crate::show::{last_match, rendered, ShowStateView};
use crate::text::contains;
use crate::walk::{
    entry_line_of, list_spec, list_visit, search_spec, search_visit, skips_of, visits_of,
    ListStateView, SearchStateView,
};
use vstd::prelude::*;

verus! {

/// Editing a page of a diary whose pages form a chain ends well. It leaves the chain and the
/// head as they were and prints nothing. It changes the page alone: what the author left is
/// applied to it, and the time is added to the times of its updates.
pub proof fn edit_keeps_chain(
    world: World,
    chain: Seq<Seq<char>>,
    id: Seq<char>,
    around: Surroundings,
    steps: nat,
)
    requires
        linked(world.store, chain),
        world.store.pages.dom().contains(id),
        steps >= 4,
    ensures
        ({
            let (after, ended) = run(
                SessionView::Edit(EditStateView::Start { id }),
                ReplyView::Start,
                world,
                around,
                steps,
            );
            &&& ended == Some(Ok::<(), Seq<char>>(()))
            &&& linked(after.store, chain)
            &&& after.store.head == world.store.head
            &&& after.store.pages == world.store.pages.insert(
                id,
                edited_page(
                    world.store.pages[id],
                    around.edited,
                    (around.clock)((steps - 3) as nat),
                ),
            )
            &&& after.printed == world.printed
        }),
{
    reveal_with_fuel(run, 5);
    let page = world.store.pages[id];
    assert(chain.contains(id));
    let k = choose|k: int| 0 <= k < chain.len() && chain[k] == id;
    assert(world.store.pages[chain[k]].id == chain[k]);
    let changed = edited_page(page, around.edited, (around.clock)((steps - 3) as nat));
    let store = Store { pages: world.store.pages.insert(id, changed), ..world.store };
    assert forall|j: int| 0 <= j < chain.len() implies {
        &&& (#[trigger] store.pages[chain[j]]).id == chain[j]
        &&& store.pages[chain[j]].header.prev == if j + 1 < chain.len() {
            chain[j + 1]
        } else {
            NULL_ID@
        }
        &&& store.pages[chain[j]].header.next == if j > 0 {
            chain[j - 1]
        } else {
            NULL_ID@
        }
    } by {
        assert(world.store.pages[chain[j]].id == chain[j]);
    }
    assert(linked(store, chain));
}

/// Creating a page in a diary whose pages form a chain ends well, where the id can name a page
/// and no page has it. The new page becomes the head and the first of the chain, before the
/// pages that were there. It is what the author left of the page that the command started
/// with. The page that was the head names the new page as the one that follows it; no other
/// page changes, and nothing is printed.
pub proof fn create_extends_chain(
    world: World,
    chain: Seq<Seq<char>>,
    id: Seq<char>,
    initial: DraftView,
    around: Surroundings,
    steps: nat,
)
    requires
        linked(world.store, chain),
        id_fault(id) is None,
        !world.store.pages.dom().contains(id),
        steps >= 7,
    ensures
        ({
            let (after, ended) = run(
                SessionView::Create(CreateStateView::Start { id, initial }),
                ReplyView::Start,
                world,
                around,
                steps,
            );
            let head = world.store.head;
            &&& ended == Some(Ok::<(), Seq<char>>(()))
            &&& linked(after.store, seq![id] + chain)
            &&& after.store.head == id
            &&& after.store.pages[id] == edited_page(
                new_page_of(id, head, initial, (around.clock)((steps - 2) as nat)),
                around.edited,
                (around.clock)((steps - 3) as nat),
            )
            &&& head != NULL_ID@ ==> after.store.pages[head] == followed_by(
                world.store.pages[head],
                id,
            )
            &&& forall|other: Seq<char>|
                other != id && other != head && world.store.pages.dom().contains(other)
                    ==> after.store.pages[other] == world.store.pages[other]
            &&& after.printed == world.printed
        }),
{
    reveal_with_fuel(run, 8);
    let head = world.store.head;
    let made = edited_page(
        new_page_of(id, head, initial, (around.clock)((steps - 2) as nat)),
        around.edited,
        (around.clock)((steps - 3) as nat),
    );
    let longer = seq![id] + chain;
    assert(!chain.contains(id));
    assert(id != NULL_ID@);
    assert(longer[0] == id);
    assert forall|k: int| 1 <= k < longer.len() implies longer[k] == chain[k - 1] by {}
    assert(longer.no_duplicates()) by {
        assert forall|i: int, j: int| 0 <= i < longer.len() && 0 <= j < longer.len() && i != j implies longer[i]
            != longer[j] by {
            if i > 0 {
                assert(chain.contains(chain[i - 1]));
            }
            if j > 0 {
                assert(chain.contains(chain[j - 1]));
            }
        }
    }
    assert(!longer.contains(NULL_ID@)) by {
        if longer.contains(NULL_ID@) {
            let k = choose|k: int| 0 <= k < longer.len() && longer[k] == NULL_ID@;
            if k > 0 {
                assert(chain.contains(chain[k - 1]));
            }
        }
    }
    if chain.len() == 0 {
        let store = Store { head: id, pages: world.store.pages.insert(id, made) };
        assert forall|other: Seq<char>| store.pages.dom().contains(other) <==> longer.contains(
            other,
        ) by {
            if other == id {
                assert(longer[0] == other);
            } else {
                assert(!chain.contains(other));
                assert(!world.store.pages.dom().contains(other));
                if longer.contains(other) {
                    let k = choose|k: int| 0 <= k < longer.len() && longer[k] == other;
                    assert(k == 0);
                }
            }
        }
        assert(linked(store, longer));
    } else {
        assert(chain.contains(chain[0]));
        assert(head == chain[0]);
        assert(head != NULL_ID@);
        assert(head != id);
        let older = followed_by(world.store.pages[head], id);
        assert(world.store.pages[chain[0]].id == chain[0]);
        let store = Store {
            head: id,
            pages: world.store.pages.insert(id, made).insert(head, older),
        };
        assert forall|other: Seq<char>| store.pages.dom().contains(other) <==> longer.contains(
            other,
        ) by {
            if longer.contains(other) {
                let k = choose|k: int| 0 <= k < longer.len() && longer[k] == other;
                if k > 0 {
                    assert(chain.contains(chain[k - 1]));
                }
            }
            if other != id && store.pages.dom().contains(other) {
                assert(chain.contains(other));
                let k = choose|k: int| 0 <= k < chain.len() && chain[k] == other;
                assert(longer[k + 1] == other);
            }
        }
        assert forall|k: int| 0 <= k < longer.len() implies {
            &&& (#[trigger] store.pages[longer[k]]).id == longer[k]
            &&& store.pages[longer[k]].header.prev == if k + 1 < longer.len() {
                longer[k + 1]
            } else {
                NULL_ID@
            }
            &&& store.pages[longer[k]].header.next == if k > 0 {
                longer[k - 1]
            } else {
                NULL_ID@
            }
        } by {
            if k >= 1 {
                assert(chain.contains(chain[k - 1]));
                assert(world.store.pages[chain[k - 1]].id == chain[k - 1]);
                if k >= 2 {
                    assert(chain[k - 1] != chain[0]);
                }
            }
        }
        assert(linked(store, longer));
    }
}

/// Renaming a page of a diary whose pages form a chain ends well, where the new id can name a
/// page and no page has it. The chain is as it was, with the new id in the place of the old
/// one; the page itself changes in nothing but its id, and nothing is printed.
pub proof fn rename_keeps_chain(
    world: World,
    chain: Seq<Seq<char>>,
    at: int,
    to: Seq<char>,
    around: Surroundings,
    steps: nat,
)
    requires
        linked(world.store, chain),
        0 <= at < chain.len(),
        id_fault(to) is None,
        !world.store.pages.dom().contains(to),
        steps >= 9,
    ensures
        ({
            let (after, ended) = run(
                SessionView::Rename(RenameStateView::Start { from: chain[at], to }),
                ReplyView::Start,
                world,
                around,
                steps,
            );
            &&& ended == Some(Ok::<(), Seq<char>>(()))
            &&& linked(after.store, chain.update(at, to))
            &&& after.store.pages[to] == renamed(world.store.pages[chain[at]], to)
            &&& after.printed == world.printed
        }),
{
    reveal_with_fuel(run, 10);
    let from = chain[at];
    let pages = world.store.pages;
    let page = pages[from];
    let changed = chain.update(at, to);
    assert(chain.contains(from));
    assert(pages[chain[at]].id == chain[at]);
    assert(!chain.contains(to));
    assert(to != NULL_ID@);
    assert(to != from);
    let prev = page.header.prev;
    let next = page.header.next;
    let first = at == 0;
    let last = at + 1 == chain.len();
    if !last {
        assert(chain.contains(chain[at + 1]));
        assert(pages[chain[at + 1]].id == chain[at + 1]);
        assert(prev == chain[at + 1]);
        assert(prev != NULL_ID@ && prev != to && prev != from);
    }
    if !first {
        assert(chain.contains(chain[at - 1]));
        assert(pages[chain[at - 1]].id == chain[at - 1]);
        assert(next == chain[at - 1]);
        assert(next != NULL_ID@ && next != to && next != from);
    }
    if !first && !last {
        assert(prev != next);
    }
    let stored = pages.insert(to, renamed(page, to));
    let older = if last {
        stored
    } else {
        stored.insert(prev, followed_by(stored[prev], to))
    };
    let newer = if first {
        older
    } else {
        older.insert(next, preceded_by(older[next], to))
    };
    let store = Store {
        head: if first {
            to
        } else {
            world.store.head
        },
        pages: newer.remove(from),
    };
    let (after, ended) = run(
        SessionView::Rename(RenameStateView::Start { from, to }),
        ReplyView::Start,
        world,
        around,
        steps,
    );
    assert(ended == Some(Ok::<(), Seq<char>>(())));
    assert(after.store.pages =~= store.pages);
    assert(after.store == store);
    assert(changed.no_duplicates()) by {
        assert forall|i: int, j: int| 0 <= i < changed.len() && 0 <= j < changed.len() && i != j implies changed[i]
            != changed[j] by {
            if i != at {
                assert(chain.contains(chain[i]));
            }
            if j != at {
                assert(chain.contains(chain[j]));
            }
        }
    }
    assert(!changed.contains(NULL_ID@)) by {
        if changed.contains(NULL_ID@) {
            let k = choose|k: int| 0 <= k < changed.len() && changed[k] == NULL_ID@;
            assert(chain.contains(chain[k]));
        }
    }
    assert forall|other: Seq<char>| store.pages.dom().contains(other) <==> changed.contains(
        other,
    ) by {
        if changed.contains(other) {
            let k = choose|k: int| 0 <= k < changed.len() && changed[k] == other;
            if k != at {
                assert(chain.contains(chain[k]));
            }
        }
        if store.pages.dom().contains(other) {
            if other == to {
                assert(changed[at] == other);
            } else {
                assert(pages.dom().contains(other));
                assert(chain.contains(other));
                let k = choose|k: int| 0 <= k < chain.len() && chain[k] == other;
                assert(changed[k] == other);
            }
        }
    }
    assert forall|k: int| 0 <= k < changed.len() implies {
        &&& (#[trigger] store.pages[changed[k]]).id == changed[k]
        &&& store.pages[changed[k]].header.prev == if k + 1 < changed.len() {
            changed[k + 1]
        } else {
            NULL_ID@
        }
        &&& store.pages[changed[k]].header.next == if k > 0 {
            changed[k - 1]
        } else {
            NULL_ID@
        }
    } by {
        assert(chain.contains(chain[k]));
        assert(pages[chain[k]].id == chain[k]);
        if k != at {
            assert(chain[k] != from);
            if k != at + 1 && !last {
                assert(chain[k] != chain[at + 1]);
            }
            if k != at - 1 && !first {
                assert(chain[k] != chain[at - 1]);
            }
        }
    }
    assert(linked(store, changed));
}

/// The id at the place `at` of `chain`, and `NULL` behind its end.
pub open spec fn id_at(chain: Seq<Seq<char>>, at: int) -> Seq<char> {
    if 0 <= at < chain.len() {
        chain[at]
    } else {
        NULL_ID@
    }
}

/// The lines of the pages of `chain` from place `low` up to, not including, place `high` or
/// the end of the chain.
pub open spec fn shown(store: Store, chain: Seq<Seq<char>>, low: int, high: int) -> Seq<Seq<char>> {
    let end = if high < chain.len() {
        high
    } else {
        chain.len() as int
    };
    if 0 <= low < end {
        Seq::new((end - low) as nat, |i: int| entry_line_of(store.pages[chain[low + i]]))
    } else {
        Seq::empty()
    }
}

/// The lines of the pages of `chain` from place `at` on whose text holds `query`.
pub open spec fn found(store: Store, chain: Seq<Seq<char>>, query: Seq<char>, at: int) -> Seq<
    Seq<char>,
>
    decreases chain.len() - at,
{
    if 0 <= at < chain.len() {
        let page = store.pages[chain[at]];
        if contains(page.text, query) {
            seq![entry_line_of(page)] + found(store, chain, query, at + 1)
        } else {
            found(store, chain, query, at + 1)
        }
    } else {
        Seq::empty()
    }
}

/// A listing that has come to the place `at` of the chain prints the lines of the pages from
/// there on that it may show, and ends well.
proof fn list_goes_on(
    world: World,
    chain: Seq<Seq<char>>,
    at: int,
    to_skip: u64,
    to_visit: u64,
    state: ListStateView,
    reply: ReplyView,
    around: Surroundings,
    steps: nat,
)
    requires
        linked(world.store, chain),
        0 <= at <= chain.len(),
        list_spec(state, reply) == list_visit(id_at(chain, at), to_skip, to_visit),
        steps >= 2 * (chain.len() - at),
    ensures
        run(SessionView::List(state), reply, world, around, steps) == (
            World {
                printed: world.printed + shown(
                    world.store,
                    chain,
                    at + to_skip,
                    at + to_visit,
                ),
                ..world
            },
            Some(Ok::<(), Seq<char>>(())),
        ),
    decreases chain.len() - at,
{
    reveal_with_fuel(run, 3);
    let lines = shown(world.store, chain, at + to_skip, at + to_visit);
    if at == chain.len() || to_visit == 0 {
        assert(lines =~= Seq::<Seq<char>>::empty());
        assert(world.printed + lines =~= world.printed);
    } else {
        let id = chain[at];
        assert(chain.contains(id));
        let page = world.store.pages[id];
        assert(page.id == id);
        assert(page.header.prev == id_at(chain, at + 1));
        let left = (to_visit - 1) as u64;
        let waiting = ListStateView::AwaitPage { to_skip, to_visit };
        let loaded = ReplyView::Loaded(Ok(page));
        if to_skip > 0 {
            let fewer = (to_skip - 1) as u64;
            list_goes_on(world, chain, at + 1, fewer, left, waiting, loaded, around, (steps - 1) as nat);
            assert(shown(world.store, chain, at + 1 + fewer, at + 1 + left) == lines);
        } else {
            let line = entry_line_of(page);
            let later = World { printed: world.printed.push(line), ..world };
            let printing = ListStateView::AwaitPrinted {
                next: page.header.prev,
                to_visit: left,
            };
            list_goes_on(
                later,
                chain,
                at + 1,
                0,
                left,
                printing,
                ReplyView::Printed,
                around,
                (steps - 2) as nat,
            );
            let rest = shown(world.store, chain, at + 1, at + 1 + left);
            assert(lines =~= seq![line] + rest);
            assert(later.printed + rest =~= world.printed + lines);
        }
    }
}

/// A listing of a diary whose pages form a chain ends well and leaves the diary as it was. It
/// prints the lines of the pages in their order from the newest on, without the first
/// `skips_of(skip)` of them, up to the place `visits_of(count, skip)` of the chain or its end.
pub proof fn list_shows_window(
    world: World,
    chain: Seq<Seq<char>>,
    count: u32,
    skip: i32,
    around: Surroundings,
    steps: nat,
)
    requires
        linked(world.store, chain),
        steps >= 2 * chain.len() + 1,
    ensures
        run(
            SessionView::List(ListStateView::Start { count, skip }),
            ReplyView::Start,
            world,
            around,
            steps,
        ) == (
            World {
                printed: world.printed + shown(
                    world.store,
                    chain,
                    skips_of(skip),
                    visits_of(count, skip),
                ),
                ..world
            },
            Some(Ok::<(), Seq<char>>(())),
        ),
{
    reveal_with_fuel(run, 2);
    let to_skip = skips_of(skip) as u64;
    let to_visit = visits_of(count, skip) as u64;
    list_goes_on(
        world,
        chain,
        0,
        to_skip,
        to_visit,
        ListStateView::AwaitHead { to_skip, to_visit },
        ReplyView::Head(Ok(world.store.head)),
        around,
        (steps - 1) as nat,
    );
}

/// A search that has come to the place `at` of the chain prints the lines of the pages from
/// there on whose text holds the query, and ends well.
proof fn search_goes_on(
    world: World,
    chain: Seq<Seq<char>>,
    at: int,
    query: Seq<char>,
    state: SearchStateView,
    reply: ReplyView,
    around: Surroundings,
    steps: nat,
)
    requires
        linked(world.store, chain),
        0 <= at <= chain.len(),
        search_spec(state, reply) == search_visit(query, id_at(chain, at)),
        steps >= 2 * (chain.len() - at),
    ensures
        run(SessionView::Search(state), reply, world, around, steps) == (
            World { printed: world.printed + found(world.store, chain, query, at), ..world },
            Some(Ok::<(), Seq<char>>(())),
        ),
    decreases chain.len() - at,
{
    reveal_with_fuel(run, 3);
    let lines = found(world.store, chain, query, at);
    if at == chain.len() {
        assert(world.printed + lines =~= world.printed);
    } else {
        let id = chain[at];
        assert(chain.contains(id));
        let page = world.store.pages[id];
        assert(page.id == id);
        assert(page.header.prev == id_at(chain, at + 1));
        let waiting = SearchStateView::AwaitPage { query };
        let loaded = ReplyView::Loaded(Ok(page));
        if contains(page.text, query) {
            let line = entry_line_of(page);
            let later = World { printed: world.printed.push(line), ..world };
            let printing = SearchStateView::AwaitPrinted { query, next: page.header.prev };
            search_goes_on(
                later,
                chain,
                at + 1,
                query,
                printing,
                ReplyView::Printed,
                around,
                (steps - 2) as nat,
            );
            let rest = found(world.store, chain, query, at + 1);
            assert(later.printed + rest =~= world.printed + lines);
        } else {
            search_goes_on(world, chain, at + 1, query, waiting, loaded, around, (steps - 1) as nat);
        }
    }
}

/// A search in a diary whose pages form a chain ends well and leaves the diary as it was. It
/// prints the lines of the pages whose text holds the query, in their order from the newest
/// on.
pub proof fn search_shows_found(
    world: World,
    chain: Seq<Seq<char>>,
    query: Seq<char>,
    around: Surroundings,
    steps: nat,
)
    requires
        linked(world.store, chain),
        steps >= 2 * chain.len() + 1,
    ensures
        run(
            SessionView::Search(SearchStateView::Start { query }),
            ReplyView::Start,
            world,
            around,
            steps,
        ) == (
            World { printed: world.printed + found(world.store, chain, query, 0), ..world },
            Some(Ok::<(), Seq<char>>(())),
        ),
{
    reveal_with_fuel(run, 2);
    search_goes_on(
        world,
        chain,
        0,
        query,
        SearchStateView::AwaitHead { query },
        ReplyView::Head(Ok(world.store.head)),
        around,
        (steps - 1) as nat,
    );
}

/// Showing a page that exists ends well: it prints the page, and leaves the diary as it was.
pub proof fn show_prints_page(world: World, id: Seq<char>, around: Surroundings, steps: nat)
    requires
        world.store.pages.dom().contains(id),
        steps >= 3,
    ensures
        run(
            SessionView::Show(ShowStateView::Start { id }),
            ReplyView::Start,
            world,
            around,
            steps,
        ) == (
            World { printed: world.printed.push(rendered(world.store.pages[id])), ..world },
            Some(Ok::<(), Seq<char>>(())),
        ),
{
    reveal_with_fuel(run, 4);
}

/// Showing a page by a regular expression ends well where no page has the expression as its
/// id and the expression matches the id of a page: it prints the page with the last such id in
/// the order of the directory, and leaves the diary as it was.
pub proof fn show_prints_match(
    world: World,
    pattern: Seq<char>,
    id: Seq<char>,
    around: Surroundings,
    steps: nat,
)
    requires
        !world.store.pages.dom().contains(pattern),
        is_pattern(pattern),
        last_match(pattern, around.listing) == Some(id),
        world.store.pages.dom().contains(id),
        steps >= 4,
    ensures
        run(
            SessionView::Show(ShowStateView::Start { id: pattern }),
            ReplyView::Start,
            world,
            around,
            steps,
        ) == (
            World { printed: world.printed.push(rendered(world.store.pages[id])), ..world },
            Some(Ok::<(), Seq<char>>(())),
        ),
{
    reveal_with_fuel(run, 5);
}

/// The command without a name, once it edits, runs as the editing runs.
proof fn diary_runs_as_edit(
    state: EditStateView,
    reply: ReplyView,
    world: World,
    around: Surroundings,
    steps: nat,
)
    ensures
        run(SessionView::Diary(DiaryStateView::Editing(state)), reply, world, around, steps) == run(
            SessionView::Edit(state),
            reply,
            world,
            around,
            steps,
        ),
    decreases steps,
{
    reveal_with_fuel(run, 2);
    let (next, step) = edit_page_by_id_spec(state, reply, (around.clock)(steps));
    match step {
        StepView::Ask(request) => {
            if steps > 0 {
                let (after, handed) = answer(world, request, around);
                diary_runs_as_edit(next, handed, after, around, (steps - 1) as nat);
            }
        },
        StepView::Done(_) => {},
    }
}

/// The command without a name, once it creates, runs as the creation runs.
proof fn diary_runs_as_create(
    state: CreateStateView,
    reply: ReplyView,
    world: World,
    around: Surroundings,
    steps: nat,
)
    ensures
        run(SessionView::Diary(DiaryStateView::Creating(state)), reply, world, around, steps)
            == run(SessionView::Create(state), reply, world, around, steps),
    decreases steps,
{
    reveal_with_fuel(run, 2);
    let (next, step) = create_new_page_spec(state, reply, (around.clock)(steps));
    match step {
        StepView::Ask(request) => {
            if steps > 0 {
                let (after, handed) = answer(world, request, around);
                diary_runs_as_create(next, handed, after, around, (steps - 1) as nat);
            }
        },
        StepView::Done(_) => {},
    }
}

/// The command without a name does what editing the page of today does where that page
/// exists, and what creating it, as a page that is no memo, does where it does not. It asks
/// one question before.
pub proof fn diary_edits_or_creates(
    world: World,
    today: Seq<char>,
    around: Surroundings,
    steps: nat,
)
    requires
        steps >= 1,
    ensures
        run(
            SessionView::Diary(DiaryStateView::Start { id: today }),
            ReplyView::Start,
            world,
            around,
            steps,
        ) == if world.store.pages.dom().contains(today) {
            run(
                SessionView::Edit(EditStateView::Start { id: today }),
                ReplyView::Start,
                world,
                around,
                (steps - 1) as nat,
            )
        } else {
            run(
                SessionView::Create(
                    CreateStateView::Start { id: today, initial: template_of(today, false) },
                ),
                ReplyView::Start,
                world,
                around,
                (steps - 1) as nat,
            )
        },
{
    reveal_with_fuel(run, 3);
    let before = (steps - 1) as nat;
    if world.store.pages.dom().contains(today) {
        if before > 0 {
            let asked = RequestView::PageExists { id: today };
            let (after, handed) = answer(world, asked, around);
            let waiting = EditStateView::AwaitExists { id: today };
            diary_runs_as_edit(waiting, handed, after, around, (before - 1) as nat);
        }
    } else {
        let start = CreateStateView::Start { id: today, initial: template_of(today, false) };
        let (next, step) = create_new_page_spec(
            start,
            ReplyView::Start,
            (around.clock)(before),
        );
        match step {
            StepView::Ask(request) => {
                if before > 0 {
                    let (after, handed) = answer(world, request, around);
                    diary_runs_as_create(next, handed, after, around, (before - 1) as nat);
                }
            },
            StepView::Done(_) => {},
        }
    }
}

} // verus!
