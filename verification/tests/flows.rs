use diary::commands::{Command, Session};
use diary::config::Config;
use diary::draft::{TemporaryPage, TemporaryPageHeader};
use diary::page::{Page, Timestamp};
use diary::shell::{Reply, Request, Step};

/// A diary in memory, which answers the questions of a command.
struct Shelf {
    head: String,
    pages: Vec<Page>,
    printed: Vec<String>,
    offered: Vec<TemporaryPage>,
    edited: Option<TemporaryPage>,
    asked: Vec<String>,
    config_edited: bool,
}

fn shelf() -> Shelf {
    Shelf {
        head: "NULL".to_string(),
        pages: Vec::new(),
        printed: Vec::new(),
        offered: Vec::new(),
        edited: None,
        asked: Vec::new(),
        config_edited: false,
    }
}

fn settings() -> Config {
    Config { editor: "vim".to_string(), list_max_count: 7 }
}

fn at(secs: i64) -> Timestamp {
    Timestamp { secs, nanos: 0 }
}

fn draft(title: &str, text: &str) -> TemporaryPage {
    TemporaryPage {
        header: TemporaryPageHeader {
            title: title.to_string(),
            insert_title: true,
            author: "me".to_string(),
            memo: false,
        },
        text: text.to_string(),
    }
}

impl Shelf {
    fn page(&self, id: &str) -> Option<&Page> {
        self.pages.iter().find(|page| page.id == id)
    }

    fn answer(&mut self, request: Request) -> Reply {
        match request {
            Request::ReadHead => {
                self.asked.push("head".to_string());
                Reply::Head(Ok(self.head.clone()))
            }
            Request::PageExists { id } => {
                self.asked.push(format!("exists {}", id));
                Reply::Exists(self.page(&id).is_some())
            }
            Request::ListPages => {
                self.asked.push("pages".to_string());
                Reply::Pages(Ok(self.pages.iter().map(|page| page.id.clone()).collect()))
            }
            Request::LoadPage { id } => {
                self.asked.push(format!("load {}", id));
                match self.page(&id) {
                    Some(page) => Reply::Loaded(Ok(page.clone())),
                    None => Reply::Loaded(Err(format!("Unable to open page file `{}`", id))),
                }
            }
            Request::StorePage { page } => {
                self.asked.push(format!("store {}", page.id));
                match self.pages.iter().position(|old| old.id == page.id) {
                    Some(place) => self.pages[place] = page,
                    None => self.pages.push(page),
                }
                Reply::Stored(Ok(()))
            }
            Request::StoreHead { id } => {
                self.asked.push(format!("head {}", id));
                self.head = id;
                Reply::Stored(Ok(()))
            }
            Request::RemovePage { id } => {
                self.asked.push(format!("remove {}", id));
                self.pages.retain(|page| page.id != id);
                Reply::Stored(Ok(()))
            }
            Request::Edit { draft } => {
                self.asked.push("edit".to_string());
                self.offered.push(draft.clone());
                match &self.edited {
                    Some(edited) => Reply::Edited(Ok(edited.clone())),
                    None => Reply::Edited(Ok(draft)),
                }
            }
            Request::EditConfig => {
                self.asked.push("config".to_string());
                self.config_edited = true;
                Reply::Stored(Ok(()))
            }
            Request::Print { text } => {
                self.asked.push("print".to_string());
                self.printed.push(text);
                Reply::Printed
            }
        }
    }

    /// Runs `command` to its end, with the clock at `now` seconds.
    fn run_at(&mut self, command: Command, today: &str, now: i64) -> Result<(), String> {
        let mut session = Session::begin(command, &settings(), today.to_string());
        let mut reply = Reply::Start;
        loop {
            let (next, step) = session.advance(reply, at(now));
            session = next;
            match step {
                Step::Done(result) => return result,
                Step::Ask(request) => reply = self.answer(request),
            }
        }
    }

    fn run(&mut self, command: Command) -> Result<(), String> {
        self.run_at(command, "2018-08-15", 100)
    }

    /// The chain from the head back, and whether every link has its counterpart.
    fn chain(&self) -> Vec<String> {
        let mut chain = Vec::new();
        let mut id = self.head.clone();
        let mut newer = "NULL".to_string();
        while id != "NULL" {
            let page = self.page(&id).unwrap();
            assert_eq!(page.header.next, newer);
            assert!(!chain.contains(&id));
            chain.push(id.clone());
            newer = id;
            id = page.header.prev.clone();
        }
        assert_eq!(chain.len(), self.pages.len());
        chain
    }
}

fn new(id: &str) -> Command {
    Command::New { id: Some(id.to_string()) }
}

fn list(count: Option<&str>, skip: Option<&str>) -> Command {
    Command::List { count: count.map(String::from), skip: skip.map(String::from) }
}

fn filled(ids: &[&str]) -> Shelf {
    let mut shelf = shelf();
    for id in ids {
        shelf.edited = Some(draft(&format!("title of {}", id), &format!("text of {}", id)));
        assert_eq!(shelf.run(new(id)), Ok(()));
    }
    shelf.edited = None;
    shelf.asked.clear();
    shelf.offered.clear();
    shelf
}

fn line(id: &str) -> String {
    format!("title of {} (\u{1b}[33m{}\u{1b}[0m)", id, id)
}

#[test]
fn the_first_page_becomes_the_head() {
    let mut shelf = shelf();
    shelf.edited = Some(draft("first day", "nothing happened"));
    assert_eq!(shelf.run_at(new("one"), "2018-08-15", 42), Ok(()));
    assert_eq!(shelf.head, "one");
    assert_eq!(shelf.chain(), vec!["one"]);
    let page = shelf.page("one").unwrap();
    assert_eq!(page.header.title, "first day");
    assert_eq!(page.header.author, "me");
    assert!(!page.header.memo);
    assert_eq!(page.header.created, at(42));
    assert_eq!(page.header.updated, vec![at(42)]);
    assert_eq!(page.header.prev, "NULL");
    assert_eq!(page.header.next, "NULL");
    assert_eq!(page.text, "nothing happened");
    assert_eq!(shelf.asked, vec!["exists one", "head", "edit", "store one", "head one"]);
    assert!(shelf.printed.is_empty());
}

#[test]
fn a_named_page_starts_as_a_memo_with_its_id_as_title() {
    let mut shelf = shelf();
    assert_eq!(shelf.run(new("shopping")), Ok(()));
    assert_eq!(
        shelf.offered,
        vec![TemporaryPage {
            header: TemporaryPageHeader {
                title: "shopping".to_string(),
                insert_title: true,
                author: "__TEMP1__".to_string(),
                memo: true,
            },
            text: String::new(),
        }]
    );
    let page = shelf.page("shopping").unwrap();
    assert!(page.header.memo);
    assert_eq!(page.header.title, "shopping");
}

#[test]
fn the_page_of_today_is_no_memo() {
    let mut shelf = shelf();
    assert_eq!(shelf.run_at(Command::New { id: None }, "2018-08-16", 5), Ok(()));
    let page = shelf.page("2018-08-16").unwrap();
    assert!(!page.header.memo);
    assert_eq!(page.header.title, "2018-08-16");
    assert_eq!(shelf.head, "2018-08-16");
}

#[test]
fn a_new_page_is_linked_to_the_page_before_it() {
    let mut shelf = filled(&["one", "two"]);
    assert_eq!(shelf.run(new("three")), Ok(()));
    assert_eq!(shelf.chain(), vec!["three", "two", "one"]);
    assert_eq!(shelf.page("two").unwrap().header.next, "three");
    assert_eq!(shelf.page("two").unwrap().text, "text of two");
    assert_eq!(shelf.page("three").unwrap().header.prev, "two");
    assert_eq!(
        shelf.asked,
        vec!["exists three", "head", "edit", "store three", "load two", "store two", "head three"]
    );
}

#[test]
fn an_id_that_cannot_name_a_page_is_refused_before_anything_is_asked() {
    let mut shelf = filled(&["one"]);
    assert_eq!(shelf.run(new("")), Err("Invalid ID: empty id is unavaialble".to_string()));
    assert_eq!(shelf.run(new("NULL")), Err("Invalid ID: `NULL` is unavailable".to_string()));
    assert_eq!(
        shelf.run(new("a/b")),
        Err("Invalid ID: invalid character (\\ / : , ; * ? \" < > |)".to_string())
    );
    assert!(shelf.asked.is_empty());
    assert_eq!(shelf.chain(), vec!["one"]);
}

#[test]
fn a_page_that_exists_is_not_created_again() {
    let mut shelf = filled(&["one"]);
    assert_eq!(
        shelf.run(new("one")),
        Err("`one` already exists. use `diary edit one`".to_string())
    );
    assert_eq!(shelf.asked, vec!["exists one"]);
}

#[test]
fn editing_applies_what_the_author_left_and_notes_the_time() {
    let mut shelf = filled(&["one", "two", "three"]);
    shelf.edited = Some(draft("changed", "other text"));
    let before = shelf.page("two").unwrap().clone();
    assert_eq!(shelf.run_at(Command::Edit { id: Some("two".to_string()) }, "x", 900), Ok(()));
    let page = shelf.page("two").unwrap();
    assert_eq!(page.header.title, "changed");
    assert_eq!(page.text, "other text");
    assert_eq!(page.header.created, before.header.created);
    assert_eq!(page.header.updated, vec![at(100), at(900)]);
    assert_eq!(page.header.prev, "one");
    assert_eq!(page.header.next, "three");
    assert_eq!(shelf.chain(), vec!["three", "two", "one"]);
    assert_eq!(shelf.offered, vec![TemporaryPage::from_page(&before)]);
    assert_eq!(shelf.asked, vec!["exists two", "load two", "edit", "store two"]);
}

#[test]
fn editing_without_a_name_is_about_today() {
    let mut shelf = filled(&["2018-08-15"]);
    assert_eq!(shelf.run_at(Command::Edit { id: None }, "2018-08-15", 7), Ok(()));
    assert_eq!(shelf.page("2018-08-15").unwrap().header.updated, vec![at(100), at(7)]);
}

#[test]
fn a_page_that_does_not_exist_is_not_edited() {
    let mut shelf = filled(&["one"]);
    assert_eq!(
        shelf.run(Command::Edit { id: Some("two".to_string()) }),
        Err("`two` does not exists. use `diary new two`".to_string())
    );
    assert_eq!(shelf.asked, vec!["exists two"]);
}

#[test]
fn the_command_without_a_name_creates_the_page_of_today_and_then_edits_it() {
    let mut shelf = filled(&["one"]);
    assert_eq!(shelf.run_at(Command::Diary, "2018-08-15", 10), Ok(()));
    assert_eq!(shelf.chain(), vec!["2018-08-15", "one"]);
    assert!(!shelf.page("2018-08-15").unwrap().header.memo);
    assert_eq!(shelf.page("2018-08-15").unwrap().header.updated, vec![at(10)]);
    assert_eq!(shelf.run_at(Command::Diary, "2018-08-15", 20), Ok(()));
    assert_eq!(shelf.chain(), vec!["2018-08-15", "one"]);
    assert_eq!(shelf.page("2018-08-15").unwrap().header.updated, vec![at(10), at(20)]);
}

#[test]
fn a_listing_shows_the_newest_pages_first() {
    let mut shelf = filled(&["a", "b", "c", "d"]);
    assert_eq!(shelf.run(list(None, None)), Ok(()));
    assert_eq!(shelf.printed, vec![line("d"), line("c"), line("b"), line("a")]);
}

#[test]
fn a_listing_stops_after_its_count() {
    let mut shelf = filled(&["a", "b", "c", "d"]);
    assert_eq!(shelf.run(list(Some("2"), None)), Ok(()));
    assert_eq!(shelf.printed, vec![line("d"), line("c")]);
    assert_eq!(shelf.asked, vec!["head", "load d", "print", "load c", "print"]);
}

#[test]
fn a_listing_passes_over_the_pages_to_skip() {
    let mut shelf = filled(&["a", "b", "c", "d"]);
    assert_eq!(shelf.run(list(Some("2"), Some("1"))), Ok(()));
    assert_eq!(shelf.printed, vec![line("c"), line("b")]);
    shelf.printed.clear();
    assert_eq!(shelf.run(list(Some("2"), Some("3"))), Ok(()));
    assert_eq!(shelf.printed, vec![line("a")]);
    shelf.printed.clear();
    assert_eq!(shelf.run(list(Some("2"), Some("9"))), Ok(()));
    assert!(shelf.printed.is_empty());
}

#[test]
fn a_listing_with_a_negative_skip_shows_fewer_pages() {
    let mut shelf = filled(&["a", "b", "c", "d"]);
    assert_eq!(shelf.run(list(Some("3"), Some("-1"))), Ok(()));
    assert_eq!(shelf.printed, vec![line("d"), line("c")]);
    shelf.printed.clear();
    assert_eq!(shelf.run(list(Some("3"), Some("-3"))), Ok(()));
    assert!(shelf.printed.is_empty());
    assert_eq!(shelf.run(list(Some("0"), None)), Ok(()));
    assert!(shelf.printed.is_empty());
}

#[test]
fn a_listing_takes_a_count_from_two_to_the_thirty_first_on_as_negative() {
    let mut shelf = filled(&["a", "b"]);
    assert_eq!(shelf.run(list(Some("2147483648"), None)), Ok(()));
    assert!(shelf.printed.is_empty());
    assert_eq!(shelf.run(list(Some("2147483647"), None)), Ok(()));
    assert_eq!(shelf.printed, vec![line("b"), line("a")]);
}

#[test]
fn a_listing_takes_its_count_from_the_settings() {
    let mut shelf = filled(&["a", "b", "c", "d", "e", "f", "g", "h", "i"]);
    assert_eq!(shelf.run(list(Some("many"), Some("few"))), Ok(()));
    assert_eq!(shelf.printed.len(), 7);
    assert_eq!(shelf.printed[0], line("i"));
    assert_eq!(shelf.printed[6], line("c"));
}

#[test]
fn a_listing_of_an_empty_diary_shows_nothing() {
    let mut shelf = shelf();
    assert_eq!(shelf.run(list(None, None)), Ok(()));
    assert!(shelf.printed.is_empty());
    assert_eq!(shelf.asked, vec!["head"]);
}

#[test]
fn a_listing_ends_with_the_failure_of_a_page() {
    let mut shelf = filled(&["a", "b"]);
    shelf.pages.retain(|page| page.id != "a");
    assert_eq!(shelf.run(list(None, None)), Err("Unable to open page file `a`".to_string()));
    assert_eq!(shelf.printed, vec![line("b")]);
}

#[test]
fn a_search_shows_the_pages_whose_text_holds_the_query() {
    let mut shelf = filled(&["apple", "banana", "cherry"]);
    assert_eq!(shelf.run(Command::Search { query: "an".to_string() }), Ok(()));
    assert_eq!(shelf.printed, vec![line("banana")]);
    shelf.printed.clear();
    assert_eq!(shelf.run(Command::Search { query: "text of".to_string() }), Ok(()));
    assert_eq!(shelf.printed, vec![line("cherry"), line("banana"), line("apple")]);
    shelf.printed.clear();
    assert_eq!(shelf.run(Command::Search { query: "title".to_string() }), Ok(()));
    assert!(shelf.printed.is_empty());
    assert_eq!(shelf.run(Command::Search { query: String::new() }), Ok(()));
    assert_eq!(shelf.printed.len(), 3);
}

#[test]
fn a_page_is_shown_below_its_title() {
    let mut shelf = filled(&["one"]);
    assert_eq!(shelf.run(Command::Show { id: Some("one".to_string()) }), Ok(()));
    assert_eq!(shelf.printed, vec!["# title of one\n\ntext of one"]);
    assert_eq!(shelf.asked, vec!["exists one", "load one", "print"]);
}

#[test]
fn a_page_is_shown_without_its_title_where_it_asks_for_that() {
    let mut shelf = shelf();
    let mut plain = draft("hidden", "only text");
    plain.header.insert_title = false;
    shelf.edited = Some(plain);
    assert_eq!(shelf.run(new("one")), Ok(()));
    assert_eq!(shelf.run(Command::Show { id: Some("one".to_string()) }), Ok(()));
    assert_eq!(shelf.printed, vec!["only text"]);
}

#[test]
fn a_page_is_found_by_a_regular_expression() {
    let mut shelf = filled(&["2018-08-14", "2018-08-15", "memo"]);
    assert_eq!(shelf.run(Command::Show { id: Some("08-1[0-9]$".to_string()) }), Ok(()));
    assert_eq!(shelf.printed, vec!["# title of 2018-08-15\n\ntext of 2018-08-15"]);
    assert_eq!(shelf.asked, vec!["exists 08-1[0-9]$", "pages", "load 2018-08-15", "print"]);
    shelf.printed.clear();
    assert_eq!(shelf.run(Command::Show { id: Some("^me".to_string()) }), Ok(()));
    assert_eq!(shelf.printed, vec!["# title of memo\n\ntext of memo"]);
    shelf.printed.clear();
    assert_eq!(shelf.run(Command::Show { id: Some("14|mo".to_string()) }), Ok(()));
    assert_eq!(shelf.printed, vec!["# title of memo\n\ntext of memo"]);
}

#[test]
fn a_regular_expression_that_matches_no_page_finds_none() {
    let mut shelf = filled(&["one"]);
    assert_eq!(
        shelf.run(Command::Show { id: Some("two".to_string()) }),
        Err("Not found".to_string())
    );
    assert!(shelf.printed.is_empty());
}

#[test]
fn a_regular_expression_that_cannot_be_used_is_reported() {
    let mut shelf = filled(&["one"]);
    let result = shelf.run(Command::Show { id: Some("(".to_string()) });
    let message = result.unwrap_err();
    assert!(message.starts_with("Invalid regex: "));
    assert!(message.len() > "Invalid regex: ".len());
    assert_eq!(
        message,
        format!("Invalid regex: {}", regex::Regex::new("(").unwrap_err())
    );
    assert_eq!(shelf.asked, vec!["exists ("]);
    let again = shelf.run(Command::Show { id: Some("(".to_string()) });
    assert_eq!(again.unwrap_err(), message);
}

#[test]
fn the_page_of_today_is_shown_where_none_is_named() {
    let mut shelf = filled(&["2018-08-15"]);
    assert_eq!(shelf.run_at(Command::Show { id: None }, "2018-08-15", 0), Ok(()));
    assert_eq!(shelf.printed, vec!["# title of 2018-08-15\n\ntext of 2018-08-15"]);
}

#[test]
fn renaming_a_page_in_the_middle_mends_both_neighbours() {
    let mut shelf = filled(&["a", "b", "c"]);
    let before = shelf.page("b").unwrap().clone();
    assert_eq!(
        shelf.run(Command::EditId { from: "b".to_string(), to: "beta".to_string() }),
        Ok(())
    );
    assert_eq!(shelf.chain(), vec!["c", "beta", "a"]);
    assert_eq!(shelf.head, "c");
    let page = shelf.page("beta").unwrap();
    assert_eq!(page.header, before.header);
    assert_eq!(page.text, before.text);
    assert!(shelf.page("b").is_none());
    assert_eq!(
        shelf.asked,
        vec![
            "exists b", "exists beta", "load b", "store beta", "load a", "store a", "load c",
            "store c", "remove b"
        ]
    );
}

#[test]
fn renaming_the_newest_page_moves_the_head() {
    let mut shelf = filled(&["a", "b"]);
    assert_eq!(shelf.run(Command::EditId { from: "b".to_string(), to: "z".to_string() }), Ok(()));
    assert_eq!(shelf.head, "z");
    assert_eq!(shelf.chain(), vec!["z", "a"]);
}

#[test]
fn renaming_the_oldest_page_and_the_only_page() {
    let mut shelf = filled(&["a", "b"]);
    assert_eq!(shelf.run(Command::EditId { from: "a".to_string(), to: "z".to_string() }), Ok(()));
    assert_eq!(shelf.chain(), vec!["b", "z"]);
    let mut single = filled(&["a"]);
    assert_eq!(single.run(Command::EditId { from: "a".to_string(), to: "z".to_string() }), Ok(()));
    assert_eq!(single.chain(), vec!["z"]);
    assert_eq!(single.head, "z");
}

#[test]
fn renaming_is_refused_where_it_cannot_be_done() {
    let mut shelf = filled(&["a", "b"]);
    let rename = |from: &str, to: &str| Command::EditId { from: from.to_string(), to: to.to_string() };
    assert_eq!(shelf.run(rename("a", "x?")).unwrap_err(), "Invalid ID: invalid character (\\ / : , ; * ? \" < > |)");
    assert_eq!(shelf.run(rename("a", "NULL")).unwrap_err(), "Invalid ID: `NULL` is unavailable");
    assert_eq!(shelf.run(rename("c", "d")).unwrap_err(), "`c` does not exists. use `diary new c`");
    assert_eq!(shelf.run(rename("a", "b")).unwrap_err(), "`b` already exists. use `diary edit b`");
    assert_eq!(shelf.run(rename("a", "a")).unwrap_err(), "`a` already exists. use `diary edit a`");
    assert_eq!(shelf.chain(), vec!["b", "a"]);
}

#[test]
fn the_settings_are_edited_once() {
    let mut shelf = shelf();
    assert_eq!(shelf.run(Command::Config), Ok(()));
    assert!(shelf.config_edited);
    assert_eq!(shelf.asked, vec!["config"]);
}

#[test]
fn a_failure_that_is_handed_in_ends_the_command() {
    let session = Session::begin(new("one"), &settings(), String::new());
    let (session, step) = session.advance(Reply::Start, at(0));
    assert_eq!(step, Step::Ask(Request::PageExists { id: "one".to_string() }));
    let (session, step) = session.advance(Reply::Exists(false), at(0));
    assert_eq!(step, Step::Ask(Request::ReadHead));
    let (session, step) = session.advance(Reply::Head(Err("Unable to open HEAD file".to_string())), at(0));
    assert_eq!(step, Step::Done(Err("Unable to open HEAD file".to_string())));
    let (_, step) = session.advance(Reply::Printed, at(0));
    assert_eq!(step, Step::Done(Err("unexpected answer".to_string())));
}

#[test]
fn an_answer_out_of_turn_ends_the_command() {
    let session = Session::begin(list(None, None), &settings(), String::new());
    let (_, step) = session.advance(Reply::Exists(true), at(0));
    assert_eq!(step, Step::Done(Err("unexpected answer".to_string())));
    let session = Session::begin(Command::Config, &settings(), String::new());
    let (_, step) = session.advance(Reply::Printed, at(0));
    assert_eq!(step, Step::Done(Err("unexpected answer".to_string())));
}

#[test]
fn a_command_that_starts_now_asks_for_the_page_of_today() {
    let session = Session::start(Command::Diary, &settings());
    let (_, step) = session.resume(Reply::Start);
    match step {
        Step::Ask(Request::PageExists { id }) => {
            assert_eq!(id, chrono::Local::now().format("%Y-%m-%d").to_string());
            assert_eq!(id.len(), 10);
            let shape: Vec<bool> = id.chars().map(|c| c.is_ascii_digit()).collect();
            assert_eq!(
                shape,
                vec![true, true, true, true, false, true, true, false, true, true]
            );
            assert_eq!(id.chars().nth(4), Some('-'));
            assert_eq!(id.chars().nth(7), Some('-'));
            assert_eq!(diary::ident::is_valid_id(&id), Ok(()));
        }
        other => panic!("unexpected: {:?}", other),
    }
    let session = Session::start(Command::Edit { id: Some("memo".to_string()) }, &settings());
    let (_, step) = session.resume(Reply::Start);
    assert_eq!(step, Step::Ask(Request::PageExists { id: "memo".to_string() }));
}

#[test]
fn a_command_that_runs_now_notes_the_time_of_the_clock() {
    let before = chrono::Utc::now().timestamp();
    let session = Session::start(new("one"), &settings());
    let (session, _) = session.resume(Reply::Start);
    let (session, _) = session.resume(Reply::Exists(false));
    let (session, step) = session.resume(Reply::Head(Ok("NULL".to_string())));
    let offered = match step {
        Step::Ask(Request::Edit { draft }) => draft,
        other => panic!("unexpected: {:?}", other),
    };
    let (_, step) = session.resume(Reply::Edited(Ok(offered)));
    let after = chrono::Utc::now().timestamp();
    match step {
        Step::Ask(Request::StorePage { page }) => {
            assert!(before <= page.header.created.secs && page.header.created.secs <= after);
            assert_eq!(page.header.updated.len(), 1);
            assert!(page.header.created.secs <= page.header.updated[0].secs);
            assert!(page.header.updated[0].secs <= after);
            assert!(page.header.created.nanos < 2_000_000_000);
        }
        other => panic!("unexpected: {:?}", other),
    }
}
