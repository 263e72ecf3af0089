//! The commands of the diary, each as a run of questions and answers.

use crate::config::Config;
use crate::create::{create_new_page, create_new_page_spec, CreateState, CreateStateView};
use crate::draft::{DraftHeaderView, DraftView, TemporaryPage, TemporaryPageHeader};
use crate::edit::{
    edit_page_by_id, edit_page_by_id_spec, out_of_turn, unexpected, EditState, EditStateView,
};
use crate::ident::{date_names_a_page, valid_id};
use crate::outside::{is_date, local_date, utc_now};
use crate::page::Timestamp;
use crate::rename::{editid, editid_spec, RenameState, RenameStateView};
use crate::shell::{Reply, ReplyView, Request, RequestView, Step, StepView};
use crate::show::{show, show_spec, ShowState, ShowStateView};
use crate::text::same_text;
use crate::walk::{
    list, list_spec, page_count, page_count_of, search, search_spec, skip_count, skip_of, ListState,
    ListStateView, SearchState, SearchStateView,
};
use vstd::prelude::*;

verus! {

/// The author of a page of which no author is known.
pub const UNKNOWN_AUTHOR: &'static str = "__TEMP1__";

/// What the author of the diary asks for.
#[derive(Clone, Debug, PartialEq, Eq)]
pub enum Command {
    /// List the newest pages: `count` of them, after `skip` were passed over, each as written
    /// on the command line.
    List { count: Option<String>, skip: Option<String> },
    /// Create the page `id`, or the page of today.
    New { id: Option<String> },
    /// Edit the page `id`, or the page of today.
    Edit { id: Option<String> },
    /// Edit the settings.
    Config,
    /// Show the page `id`, or the page of today.
    Show { id: Option<String> },
    /// List the pages whose text holds `query`.
    Search { query: String },
    /// Give the page `from` the id `to`.
    EditId { from: String, to: String },
    /// Edit the page of today, or create it where there is none.
    Diary,
}

/// What stands behind the name of a command on the command line, each argument under its own
/// name.
#[derive(Clone, Debug, PartialEq, Eq)]
pub struct Arguments {
    pub n: Option<String>,
    pub skip: Option<String>,
    pub id: Option<String>,
    pub query: Option<String>,
    pub prev_id: Option<String>,
    pub next_id: Option<String>,
}

/// `Arguments` as a mathematical value.
pub struct ArgumentsView {
    pub n: Option<Seq<char>>,
    pub skip: Option<Seq<char>>,
    pub id: Option<Seq<char>>,
    pub query: Option<Seq<char>>,
    pub prev_id: Option<Seq<char>>,
    pub next_id: Option<Seq<char>>,
}

impl View for Arguments {
    type V = ArgumentsView;

    open spec fn view(&self) -> ArgumentsView {
        ArgumentsView {
            n: argument_view(self.n),
            skip: argument_view(self.skip),
            id: argument_view(self.id),
            query: argument_view(self.query),
            prev_id: argument_view(self.prev_id),
            next_id: argument_view(self.next_id),
        }
    }
}

/// Whether the command `name` has the arguments that it cannot do without: a search has a
/// query, and a renaming has both ids.
pub open spec fn has_what_it_needs(name: Option<Seq<char>>, arguments: ArgumentsView) -> bool {
    &&& name == Some("search"@) ==> arguments.query is Some
    &&& name == Some("editid"@) ==> arguments.prev_id is Some && arguments.next_id is Some
}

/// The command that the name `name` and the arguments `arguments` ask for. No name, and a
/// name that is none of the commands', ask for the command without a name.
pub open spec fn command_of(name: Option<Seq<char>>, arguments: ArgumentsView) -> CommandView {
    if name == Some("ls"@) {
        CommandView::List { count: arguments.n, skip: arguments.skip }
    } else if name == Some("new"@) {
        CommandView::New { id: arguments.id }
    } else if name == Some("edit"@) {
        CommandView::Edit { id: arguments.id }
    } else if name == Some("config"@) {
        CommandView::Config
    } else if name == Some("show"@) {
        CommandView::Show { id: arguments.id }
    } else if name == Some("search"@) {
        CommandView::Search { query: arguments.query->0 }
    } else if name == Some("editid"@) {
        CommandView::EditId { from: arguments.prev_id->0, to: arguments.next_id->0 }
    } else {
        CommandView::Diary
    }
}

/// How far the editing of the settings has come.
#[derive(Debug, PartialEq, Eq)]
pub enum ConfigState {
    Start,
    AwaitEdited,
    Over,
}

/// How far the command without a name has come.
#[derive(Debug)]
pub enum DiaryState {
    /// Nothing was asked yet; `id` is the page of today.
    Start { id: String },
    /// Asked whether page `id` exists.
    AwaitExists { id: String },
    /// The page exists and is being edited.
    Editing(EditState),
    /// The page did not exist and is being created.
    Creating(CreateState),
    /// Nothing is left to do.
    Over,
}

/// A command that is running.
#[derive(Debug)]
pub enum Session {
    List(ListState),
    Search(SearchState),
    Show(ShowState),
    Create(CreateState),
    Edit(EditState),
    Rename(RenameState),
    Config(ConfigState),
    Diary(DiaryState),
}

/// A `Command` as a mathematical value.
pub enum CommandView {
    List { count: Option<Seq<char>>, skip: Option<Seq<char>> },
    New { id: Option<Seq<char>> },
    Edit { id: Option<Seq<char>> },
    Config,
    Show { id: Option<Seq<char>> },
    Search { query: Seq<char> },
    EditId { from: Seq<char>, to: Seq<char> },
    Diary,
}

/// A `DiaryState` as a mathematical value.
pub enum DiaryStateView {
    Start { id: Seq<char> },
    AwaitExists { id: Seq<char> },
    Editing(EditStateView),
    Creating(CreateStateView),
    Over,
}

/// A `Session` as a mathematical value.
pub enum SessionView {
    List(ListStateView),
    Search(SearchStateView),
    Show(ShowStateView),
    Create(CreateStateView),
    Edit(EditStateView),
    Rename(RenameStateView),
    Config(ConfigState),
    Diary(DiaryStateView),
}

/// What an optional argument holds, as a sequence of characters.
pub open spec fn argument_view(argument: Option<String>) -> Option<Seq<char>> {
    match argument {
        Some(written) => Some(written@),
        None => None,
    }
}

impl View for Command {
    type V = CommandView;

    open spec fn view(&self) -> CommandView {
        match self {
            Command::List { count, skip } => CommandView::List {
                count: argument_view(*count),
                skip: argument_view(*skip),
            },
            Command::New { id } => CommandView::New { id: argument_view(*id) },
            Command::Edit { id } => CommandView::Edit { id: argument_view(*id) },
            Command::Config => CommandView::Config,
            Command::Show { id } => CommandView::Show { id: argument_view(*id) },
            Command::Search { query } => CommandView::Search { query: query@ },
            Command::EditId { from, to } => CommandView::EditId { from: from@, to: to@ },
            Command::Diary => CommandView::Diary,
        }
    }
}

impl View for DiaryState {
    type V = DiaryStateView;

    open spec fn view(&self) -> DiaryStateView {
        match self {
            DiaryState::Start { id } => DiaryStateView::Start { id: id@ },
            DiaryState::AwaitExists { id } => DiaryStateView::AwaitExists { id: id@ },
            DiaryState::Editing(state) => DiaryStateView::Editing(state@),
            DiaryState::Creating(state) => DiaryStateView::Creating(state@),
            DiaryState::Over => DiaryStateView::Over,
        }
    }
}

impl View for Session {
    type V = SessionView;

    open spec fn view(&self) -> SessionView {
        match self {
            Session::List(state) => SessionView::List(state@),
            Session::Search(state) => SessionView::Search(state@),
            Session::Show(state) => SessionView::Show(state@),
            Session::Create(state) => SessionView::Create(state@),
            Session::Edit(state) => SessionView::Edit(state@),
            Session::Rename(state) => SessionView::Rename(state@),
            Session::Config(state) => SessionView::Config(*state),
            Session::Diary(state) => SessionView::Diary(state@),
        }
    }
}

/// The page that a command is about: the one that the author named, or the page of today.
pub open spec fn page_id_of(argument: Option<Seq<char>>, today: Seq<char>) -> Seq<char> {
    match argument {
        Some(id) => id,
        None => today,
    }
}

/// What a new page `id` starts with: its id as its title, which is to be shown, no known
/// author, no text, and the memo flag `memo`.
pub open spec fn template_of(id: Seq<char>, memo: bool) -> DraftView {
    DraftView {
        header: DraftHeaderView { title: id, insert_title: true, author: UNKNOWN_AUTHOR@, memo },
        text: Seq::empty(),
    }
}

/// The state in which the command `command` starts, on the day `today` and with the settings
/// `list_max_count`.
///
/// A listing shows as many pages as the author wrote, or as the settings say. A page that the
/// author names is a memo; without a name the command is about the page of today, which is
/// none.
pub open spec fn begin_spec(command: CommandView, list_max_count: u32, today: Seq<char>) -> SessionView {
    match command {
        CommandView::List { count, skip } => SessionView::List(
            ListStateView::Start {
                count: page_count_of(count, list_max_count),
                skip: skip_of(skip),
            },
        ),
        CommandView::New { id } => SessionView::Create(
            CreateStateView::Start {
                id: page_id_of(id, today),
                initial: template_of(page_id_of(id, today), id is Some),
            },
        ),
        CommandView::Edit { id } => SessionView::Edit(
            EditStateView::Start { id: page_id_of(id, today) },
        ),
        CommandView::Config => SessionView::Config(ConfigState::Start),
        CommandView::Show { id } => SessionView::Show(
            ShowStateView::Start { id: page_id_of(id, today) },
        ),
        CommandView::Search { query } => SessionView::Search(SearchStateView::Start { query }),
        CommandView::EditId { from, to } => SessionView::Rename(
            RenameStateView::Start { from, to },
        ),
        CommandView::Diary => SessionView::Diary(DiaryStateView::Start { id: today }),
    }
}

/// Whether the command `command` is about the page of today.
pub open spec fn needs_today(command: CommandView) -> bool {
    match command {
        CommandView::New { id } => id is None,
        CommandView::Edit { id } => id is None,
        CommandView::Show { id } => id is None,
        CommandView::Diary => true,
        _ => false,
    }
}

/// What the editing of the settings does in the state `state` when it is handed `reply`: it
/// asks for the editor once, and ends as that ended.
pub open spec fn config_spec(state: ConfigState, reply: ReplyView) -> (ConfigState, StepView) {
    match (state, reply) {
        (ConfigState::Start, ReplyView::Start) => (
            ConfigState::AwaitEdited,
            StepView::Ask(RequestView::EditConfig),
        ),
        (ConfigState::AwaitEdited, ReplyView::Stored(stored)) => (
            ConfigState::Over,
            StepView::Done(stored),
        ),
        _ => (ConfigState::Over, StepView::Done(Err(out_of_turn()))),
    }
}

/// What the command without a name does in the state `state` when it is handed `reply` at the
/// time `now`: it asks whether the page of today exists, and edits it where it does, and
/// creates it, as a page that is no memo, where it does not.
pub open spec fn diary_spec(state: DiaryStateView, reply: ReplyView, now: Timestamp) -> (
    DiaryStateView,
    StepView,
) {
    match (state, reply) {
        (DiaryStateView::Start { id }, ReplyView::Start) => (
            DiaryStateView::AwaitExists { id },
            StepView::Ask(RequestView::PageExists { id }),
        ),
        (DiaryStateView::AwaitExists { id }, ReplyView::Exists(exists)) => if exists {
            let (state, step) = edit_page_by_id_spec(
                EditStateView::Start { id },
                ReplyView::Start,
                now,
            );
            (DiaryStateView::Editing(state), step)
        } else {
            let (state, step) = create_new_page_spec(
                CreateStateView::Start { id, initial: template_of(id, false) },
                ReplyView::Start,
                now,
            );
            (DiaryStateView::Creating(state), step)
        },
        (DiaryStateView::Editing(state), reply) => {
            let (state, step) = edit_page_by_id_spec(state, reply, now);
            (DiaryStateView::Editing(state), step)
        },
        (DiaryStateView::Creating(state), reply) => {
            let (state, step) = create_new_page_spec(state, reply, now);
            (DiaryStateView::Creating(state), step)
        },
        _ => (DiaryStateView::Over, StepView::Done(Err(out_of_turn()))),
    }
}

/// What the running command `session` does when it is handed `reply` at the time `now`: the
/// state it goes to, and what it asks or how it ends.
pub open spec fn advance_spec(session: SessionView, reply: ReplyView, now: Timestamp) -> (
    SessionView,
    StepView,
) {
    match session {
        SessionView::List(state) => {
            let (state, step) = list_spec(state, reply);
            (SessionView::List(state), step)
        },
        SessionView::Search(state) => {
            let (state, step) = search_spec(state, reply);
            (SessionView::Search(state), step)
        },
        SessionView::Show(state) => {
            let (state, step) = show_spec(state, reply);
            (SessionView::Show(state), step)
        },
        SessionView::Create(state) => {
            let (state, step) = create_new_page_spec(state, reply, now);
            (SessionView::Create(state), step)
        },
        SessionView::Edit(state) => {
            let (state, step) = edit_page_by_id_spec(state, reply, now);
            (SessionView::Edit(state), step)
        },
        SessionView::Rename(state) => {
            let (state, step) = editid_spec(state, reply);
            (SessionView::Rename(state), step)
        },
        SessionView::Config(state) => {
            let (state, step) = config_spec(state, reply);
            (SessionView::Config(state), step)
        },
        SessionView::Diary(state) => {
            let (state, step) = diary_spec(state, reply, now);
            (SessionView::Diary(state), step)
        },
    }
}

/// The page that a command is about: the one that the author named, or the page of today.
pub fn page_id(argument: Option<String>, today: String) -> (id: String)
    ensures
        id@ == page_id_of(argument_view(argument), today@),
{
    match argument {
        Some(id) => id,
        None => today,
    }
}

/// What a new page `id` starts with.
pub fn template(id: &str, memo: bool) -> (initial: TemporaryPage)
    ensures
        initial@ == template_of(id@, memo),
{
    TemporaryPage {
        header: TemporaryPageHeader {
            title: id.to_owned(),
            insert_title: true,
            author: String::from_str(UNKNOWN_AUTHOR),
            memo,
        },
        text: String::new(),
    }
}

/// The start of the creation of the page that the author named, as a memo, or of the page of
/// today.
pub fn create_new(id: Option<String>, today: String) -> (state: CreateState)
    ensures
        state@ == (CreateStateView::Start {
            id: page_id_of(argument_view(id), today@),
            initial: template_of(page_id_of(argument_view(id), today@), id is Some),
        }),
{
    let memo = id.is_some();
    let id = page_id(id, today);
    let initial = template(id.as_str(), memo);
    CreateState::Start { id, initial }
}

/// The start of the editing of the page that the author named, or of the page of today.
pub fn edit(id: Option<String>, today: String) -> (state: EditState)
    ensures
        state@ == (EditStateView::Start { id: page_id_of(argument_view(id), today@) }),
{
    EditState::Start { id: page_id(id, today) }
}

/// One step of the editing of the settings.
pub fn config(state: ConfigState, reply: Reply) -> (next: (ConfigState, Step))
    ensures
        (next.0, next.1@) == config_spec(state, reply@),
{
    match (state, reply) {
        (ConfigState::Start, Reply::Start) => (
            ConfigState::AwaitEdited,
            Step::Ask(Request::EditConfig),
        ),
        (ConfigState::AwaitEdited, Reply::Stored(stored)) => (ConfigState::Over, Step::Done(stored)),
        _ => (ConfigState::Over, unexpected()),
    }
}

/// One step of the command without a name.
pub fn diary(state: DiaryState, reply: Reply, now: Timestamp) -> (next: (DiaryState, Step))
    ensures
        (next.0@, next.1@) == diary_spec(state@, reply@, now),
{
    match (state, reply) {
        (DiaryState::Start { id }, Reply::Start) => {
            let request = Request::PageExists { id: id.clone() };
            (DiaryState::AwaitExists { id }, Step::Ask(request))
        },
        (DiaryState::AwaitExists { id }, Reply::Exists(exists)) => {
            if exists {
                let (state, step) = edit_page_by_id(EditState::Start { id }, Reply::Start, now);
                (DiaryState::Editing(state), step)
            } else {
                let initial = template(id.as_str(), false);
                let (state, step) = create_new_page(
                    CreateState::Start { id, initial },
                    Reply::Start,
                    now,
                );
                (DiaryState::Creating(state), step)
            }
        },
        (DiaryState::Editing(state), reply) => {
            let (state, step) = edit_page_by_id(state, reply, now);
            (DiaryState::Editing(state), step)
        },
        (DiaryState::Creating(state), reply) => {
            let (state, step) = create_new_page(state, reply, now);
            (DiaryState::Creating(state), step)
        },
        _ => (DiaryState::Over, unexpected()),
    }
}

impl Command {
    /// The command that the name `name` and the arguments `arguments` ask for.
    pub fn named(name: Option<&str>, arguments: Arguments) -> (command: Command)
        requires
            has_what_it_needs(
                match name {
                    Some(name) => Some(name@),
                    None => None,
                },
                arguments@,
            ),
        ensures
            command@ == command_of(
                match name {
                    Some(name) => Some(name@),
                    None => None,
                },
                arguments@,
            ),
    {
        let name = match name {
            Some(name) => name,
            None => {
                return Command::Diary;
            },
        };
        proof {
            reveal_strlit("ls");
            reveal_strlit("new");
            reveal_strlit("edit");
            reveal_strlit("config");
            reveal_strlit("show");
            reveal_strlit("search");
            reveal_strlit("editid");
        }
        if same_text(name, "ls") {
            Command::List { count: arguments.n, skip: arguments.skip }
        } else if same_text(name, "new") {
            Command::New { id: arguments.id }
        } else if same_text(name, "edit") {
            Command::Edit { id: arguments.id }
        } else if same_text(name, "config") {
            Command::Config
        } else if same_text(name, "show") {
            Command::Show { id: arguments.id }
        } else if same_text(name, "search") {
            match arguments.query {
                Some(query) => Command::Search { query },
                None => Command::Diary,
            }
        } else if same_text(name, "editid") {
            match (arguments.prev_id, arguments.next_id) {
                (Some(from), Some(to)) => Command::EditId { from, to },
                _ => Command::Diary,
            }
        } else {
            Command::Diary
        }
    }
}

impl Session {
    /// The state in which `command` starts on the day `today`.
    pub fn begin(command: Command, config: &Config, today: String) -> (session: Session)
        ensures
            session@ == begin_spec(command@, config.list_max_count, today@),
    {
        match command {
            Command::List { count, skip } => {
                let count = match &count {
                    Some(written) => page_count(Some(written.as_str()), config.list_max_count),
                    None => page_count(None, config.list_max_count),
                };
                let skip = match &skip {
                    Some(written) => skip_count(Some(written.as_str())),
                    None => skip_count(None),
                };
                Session::List(ListState::Start { count, skip })
            },
            Command::New { id } => Session::Create(create_new(id, today)),
            Command::Edit { id } => Session::Edit(edit(id, today)),
            Command::Config => Session::Config(ConfigState::Start),
            Command::Show { id } => Session::Show(ShowState::Start { id: page_id(id, today) }),
            Command::Search { query } => Session::Search(SearchState::Start { query }),
            Command::EditId { from, to } => Session::Rename(RenameState::Start { from, to }),
            Command::Diary => Session::Diary(DiaryState::Start { id: today }),
        }
    }

    /// The state in which `command` starts today. The day is asked for only where the command
    /// is about the page of today; it is written as a date, so that it can name a page.
    pub fn start(command: Command, config: &Config) -> (session: Session)
        ensures
            exists|today: Seq<char>|
                {
                    &&& is_date(today)
                    &&& valid_id(today)
                    &&& session@ == begin_spec(command@, config.list_max_count, today)
                },
            !needs_today(command@) ==> forall|today: Seq<char>|
                session@ == #[trigger] begin_spec(command@, config.list_max_count, today),
    {
        let needed = match &command {
            Command::New { id } => id.is_none(),
            Command::Edit { id } => id.is_none(),
            Command::Show { id } => id.is_none(),
            Command::Diary => true,
            _ => false,
        };
        let ghost asked = command@;
        if needed {
            let today = local_date();
            proof {
                date_names_a_page(today@);
            }
            Session::begin(command, config, today)
        } else {
            let session = Session::begin(command, config, String::new());
            proof {
                let day = seq!['2', '0', '1', '8', '-', '0', '8', '-', '1', '5'];
                date_names_a_page(day);
                assert(session@ == begin_spec(asked, config.list_max_count, day));
            }
            session
        }
    }

    /// One step of the command at the time `now`: from its state and the answer `reply` to the
    /// last question to the next state and the next question, or the end. The first answer is
    /// `Reply::Start`.
    pub fn advance(self, reply: Reply, now: Timestamp) -> (next: (Session, Step))
        ensures
            (next.0@, next.1@) == advance_spec(self@, reply@, now),
    {
        match self {
            Session::List(state) => {
                let (state, step) = list(state, reply);
                (Session::List(state), step)
            },
            Session::Search(state) => {
                let (state, step) = search(state, reply);
                (Session::Search(state), step)
            },
            Session::Show(state) => {
                let (state, step) = show(state, reply);
                (Session::Show(state), step)
            },
            Session::Create(state) => {
                let (state, step) = create_new_page(state, reply, now);
                (Session::Create(state), step)
            },
            Session::Edit(state) => {
                let (state, step) = edit_page_by_id(state, reply, now);
                (Session::Edit(state), step)
            },
            Session::Rename(state) => {
                let (state, step) = editid(state, reply);
                (Session::Rename(state), step)
            },
            Session::Config(state) => {
                let (state, step) = config(state, reply);
                (Session::Config(state), step)
            },
            Session::Diary(state) => {
                let (state, step) = diary(state, reply, now);
                (Session::Diary(state), step)
            },
        }
    }

    /// One step of the command, now.
    pub fn resume(self, reply: Reply) -> (next: (Session, Step))
        ensures
            exists|now: Timestamp| (next.0@, next.1@) == advance_spec(self@, reply@, now),
    {
        let now = utc_now();
        let ghost before = self@;
        let ghost handed = reply@;
        let next = self.advance(reply, now);
        assert((next.0@, next.1@) == advance_spec(before, handed, now));
        next
    }
}

} // verus!
