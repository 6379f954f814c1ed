//! The dialogue: what one event does to the state of a conversation, and
//! what it asks of the catalog or says to the user.

use vstd::prelude::*;
use crate::chapter::{Chapter, ChapterView};
use crate::error::Error;
use crate::kind::BookType;
use crate::manga::{Manga, MangaView};
use crate::message::Message;
use crate::reply::{failure, plain, Reply, ReplyView};
use crate::route::Route;
use crate::state::{Command, EventKind, EventKindView, InboundEvent, InboundEventView, State, StateView};

verus! {

/// What a step of the dialogue asks of the catalog.
#[derive(Debug, PartialEq, Eq)]
pub enum Request {
    /// Store a new work.
    InsertManga(Manga),
    /// Store a new chapter.
    InsertChapter(Chapter),
    /// List every work.
    ListManga,
    /// List the chapters of a work.
    ListChapters { manga_id: i32 },
    /// Fetch a chapter.
    GetChapter { id: i32 },
    /// Delete a work. Its chapters stay.
    DeleteManga { id: i32 },
}

/// A request as a mathematical value.
#[verifier::ext_equal]
pub enum RequestView {
    InsertManga(MangaView),
    InsertChapter(ChapterView),
    ListManga,
    ListChapters { manga_id: i32 },
    GetChapter { id: i32 },
    DeleteManga { id: i32 },
}

impl View for Request {
    type V = RequestView;

    open spec fn view(&self) -> RequestView {
        match self {
            Request::InsertManga(manga) => RequestView::InsertManga(manga@),
            Request::InsertChapter(chapter) => RequestView::InsertChapter(chapter@),
            Request::ListManga => RequestView::ListManga,
            Request::ListChapters { manga_id } => RequestView::ListChapters { manga_id: *manga_id },
            Request::GetChapter { id } => RequestView::GetChapter { id: *id },
            Request::DeleteManga { id } => RequestView::DeleteManga { id: *id },
        }
    }
}

impl Clone for Request {
    fn clone(&self) -> (r: Self)
        ensures
            r@ == self@,
    {
        match self {
            Request::InsertManga(manga) => Request::InsertManga(manga.clone()),
            Request::InsertChapter(chapter) => Request::InsertChapter(chapter.clone()),
            Request::ListManga => Request::ListManga,
            Request::ListChapters { manga_id } => Request::ListChapters { manga_id: *manga_id },
            Request::GetChapter { id } => Request::GetChapter { id: *id },
            Request::DeleteManga { id } => Request::DeleteManga { id: *id },
        }
    }
}

/// What follows a step: a reply that is ready, or a request to the catalog
/// whose outcome makes the reply.
#[derive(Debug, PartialEq, Eq)]
pub enum Action {
    Reply(Reply),
    Request(Request),
}

/// An action as a mathematical value.
#[verifier::ext_equal]
pub enum ActionView {
    Reply(ReplyView),
    Request(RequestView),
}

impl View for Action {
    type V = ActionView;

    open spec fn view(&self) -> ActionView {
        match self {
            Action::Reply(reply) => ActionView::Reply(reply@),
            Action::Request(request) => ActionView::Request(request@),
        }
    }
}

/// The result of a step: the state that the conversation is in from now on,
/// and what follows.
#[derive(Debug, PartialEq, Eq)]
pub struct Step {
    pub state: State,
    pub action: Action,
}

/// The result of a step as a mathematical value.
#[verifier::ext_equal]
pub struct StepView {
    pub state: StateView,
    pub action: ActionView,
}

impl View for Step {
    type V = StepView;

    open spec fn view(&self) -> StepView {
        StepView { state: self.state@, action: self.action@ }
    }
}

/// The cover reference of a work that was added through the dialogue.
pub open spec fn no_cover() -> Seq<char> {
    "none"@
}

/// The text that asks for what `state` awaits. Nothing is awaited in
/// `Start`: there a free text is answered as not understood.
pub open spec fn prompt(state: StateView) -> Message {
    match state {
        StateView::Start => Message::NotUnderstood,
        StateView::AddBookTitle => Message::AskTitle,
        StateView::AddBookType { .. } => Message::AskKind,
        StateView::AddBookDescription { .. } => Message::AskDescription,
        StateView::AddChapterId { .. } => Message::AskLabel,
        StateView::AddChapterLink { .. } => Message::AskLink,
    }
}

/// The step that leaves the conversation in `state` and says `message`.
pub open spec fn say(state: StateView, message: Message) -> StepView {
    StepView { state, action: ActionView::Reply(plain(message)) }
}

/// The step that ends any operation under way and asks `request` of the catalog.
pub open spec fn ask(request: RequestView) -> StepView {
    StepView { state: StateView::Start, action: ActionView::Request(request) }
}

/// What a route does, whatever the state: an operation that is under way is abandoned.
pub open spec fn navigate(route: Route) -> StepView {
    match route {
        Route::ViewWork(id) => ask(RequestView::ListChapters { manga_id: id }),
        Route::ViewChapter(id) => ask(RequestView::GetChapter { id }),
        Route::AddWork => say(StateView::AddBookTitle, Message::AskTitle),
        Route::AddChapter(id) => say(StateView::AddChapterId { book_id: id }, Message::AskLabel),
        Route::DeleteWork(id) => ask(RequestView::DeleteManga { id }),
    }
}

/// What a command does, whatever the state: an operation that is under way is abandoned.
pub open spec fn on_command(command: Command) -> StepView {
    match command {
        Command::Help => say(StateView::Start, Message::Help),
        Command::Start => say(StateView::Start, Message::Greeting),
        Command::Ping => say(StateView::Start, Message::Pong),
        Command::BookAdd => navigate(Route::AddWork),
        Command::ChapterAdd { id } => navigate(Route::AddChapter(id)),
        Command::Menu => ask(RequestView::ListManga),
    }
}

/// What a press of a button does: the route of its payload where that is
/// known; otherwise the state stays and the user is told.
pub open spec fn on_callback(state: StateView, tag: Seq<char>, arg: Option<i32>) -> StepView {
    match Route::resolved(tag, arg) {
        Ok(route) => navigate(route),
        Err(e) => StepView { state, action: ActionView::Reply(failure(e)) },
    }
}

/// What a free text does. An empty text, and a text that does not read as
/// what the state awaits, leave the state and ask again. Otherwise the text is
/// taken as what the state awaits, and the last step of an operation asks
/// the catalog to store the entry.
pub open spec fn on_text(state: StateView, sender_id: i32, text: Seq<char>) -> StepView {
    if text.len() == 0 {
        say(state, prompt(state))
    } else {
        match state {
            StateView::Start => say(state, Message::NotUnderstood),
            StateView::AddBookTitle => say(StateView::AddBookType { title: text }, Message::AskKind),
            StateView::AddBookType { title } => match BookType::parsed(text) {
                Some(book_type) => say(
                    StateView::AddBookDescription { title, book_type },
                    Message::AskDescription,
                ),
                None => say(state, Message::AskKind),
            },
            StateView::AddBookDescription { title, book_type } => ask(
                RequestView::InsertManga(
                    MangaView { id: None, kind: book_type, title, description: text, img: no_cover() },
                ),
            ),
            StateView::AddChapterId { book_id } => say(
                StateView::AddChapterLink { book_id, chapter_id: text },
                Message::AskLink,
            ),
            StateView::AddChapterLink { book_id, chapter_id } => ask(
                RequestView::InsertChapter(
                    ChapterView {
                        id: None,
                        manga_id: book_id,
                        translator_id: sender_id,
                        chapter_id,
                        link: text,
                    },
                ),
            ),
        }
    }
}

/// What an event does to a conversation that is in `state`.
pub open spec fn decide(state: StateView, event: InboundEventView) -> StepView {
    match event.kind {
        EventKindView::Text(text) => on_text(state, event.sender_id, text),
        EventKindView::Command(command) => on_command(command),
        EventKindView::Callback { tag, arg } => on_callback(state, tag, arg),
    }
}

/// An empty text never moves a conversation and never reaches the catalog:
/// the state stays, and the reply asks again for what the state awaits.
pub proof fn lemma_empty_text_stays(state: StateView, event: InboundEventView)
    requires
        event.kind == EventKindView::Text(Seq::<char>::empty()),
    ensures
        decide(state, event) == say(state, prompt(state)),
        decide(state, event).state == state,
        decide(state, event).action is Reply,
{
}

/// A press of a button with a known route does what the route says whatever
/// the state was: an operation that was under way is abandoned, not resumed.
pub proof fn lemma_callback_cancels(state: StateView, event: InboundEventView, route: Route)
    requires
        event.kind matches EventKindView::Callback { tag, arg } && Route::resolved(tag, arg) == Ok::<
            Route,
            Error,
        >(route),
    ensures
        decide(state, event) == navigate(route),
        decide(state, event) == decide(StateView::Start, event),
        decide(state, event).state is Start || decide(state, event).state is AddBookTitle || decide(
            state,
            event,
        ).state is AddChapterId,
{
}

/// A press of a button with an unknown route, or without the argument that
/// its route needs, leaves the state and reaches nothing.
pub proof fn lemma_unknown_route_stays(state: StateView, event: InboundEventView)
    requires
        event.kind matches EventKindView::Callback { tag, arg } && Route::resolved(tag, arg) is Err,
    ensures
        decide(state, event).state == state,
        decide(state, event).action == ActionView::Reply(failure(Error::Routing)),
{
}

/// The catalog is asked to store an entry only by the text that completes
/// an operation, and the conversation is then back in `Start`.
pub proof fn lemma_insert_ends_operation(state: StateView, event: InboundEventView)
    requires
        decide(state, event).action matches ActionView::Request(request) && (request is InsertManga
            || request is InsertChapter),
    ensures
        event.kind is Text,
        state is AddBookDescription || state is AddChapterLink,
        decide(state, event).state is Start,
{
}

/// Whether every text that `state` has gathered so far is non-empty.
pub open spec fn filled(state: StateView) -> bool {
    match state {
        StateView::Start => true,
        StateView::AddBookTitle => true,
        StateView::AddBookType { title } => title.len() > 0,
        StateView::AddBookDescription { title, .. } => title.len() > 0,
        StateView::AddChapterId { .. } => true,
        StateView::AddChapterLink { chapter_id, .. } => chapter_id.len() > 0,
    }
}

/// Whether a request to store an entry carries no empty text.
pub open spec fn complete(request: RequestView) -> bool {
    match request {
        RequestView::InsertManga(draft) => draft.id is None && draft.title.len() > 0
            && draft.description.len() > 0 && draft.img.len() > 0,
        RequestView::InsertChapter(draft) => draft.id is None && draft.chapter_id.len() > 0
            && draft.link.len() > 0,
        _ => true,
    }
}

/// The dialogue never gathers an empty text, and so never asks the catalog
/// to store an entry with an empty field: from a state without empty texts
/// every event leads to such a state, and a request that follows is complete.
pub proof fn lemma_no_empty_field(state: StateView, event: InboundEventView)
    requires
        filled(state),
    ensures
        filled(decide(state, event).state),
        decide(state, event).action matches ActionView::Request(request) ==> complete(request),
{
    reveal_strlit("none");
}

fn say_step(state: State, message: Message) -> (r: Step)
    ensures
        r@ == say(state@, message),
{
    Step { state, action: Action::Reply(Reply::plain(message)) }
}

fn ask_step(request: Request) -> (r: Step)
    ensures
        r@ == ask(request@),
{
    Step { state: State::Start, action: Action::Request(request) }
}

fn navigate_step(route: Route) -> (r: Step)
    ensures
        r@ == navigate(route),
{
    match route {
        Route::ViewWork(id) => ask_step(Request::ListChapters { manga_id: id }),
        Route::ViewChapter(id) => ask_step(Request::GetChapter { id }),
        Route::AddWork => say_step(State::AddBookTitle, Message::AskTitle),
        Route::AddChapter(id) => say_step(State::AddChapterId { book_id: id }, Message::AskLabel),
        Route::DeleteWork(id) => ask_step(Request::DeleteManga { id }),
    }
}

fn command_step(command: Command) -> (r: Step)
    ensures
        r@ == on_command(command),
{
    match command {
        Command::Help => say_step(State::Start, Message::Help),
        Command::Start => say_step(State::Start, Message::Greeting),
        Command::Ping => say_step(State::Start, Message::Pong),
        Command::BookAdd => navigate_step(Route::AddWork),
        Command::ChapterAdd { id } => navigate_step(Route::AddChapter(id)),
        Command::Menu => ask_step(Request::ListManga),
    }
}

fn callback_step(state: State, tag: &str, arg: Option<i32>) -> (r: Step)
    ensures
        r@ == on_callback(state@, tag@, arg),
{
    match Route::resolve(tag, arg) {
        Ok(route) => navigate_step(route),
        Err(e) => Step { state, action: Action::Reply(Reply::failure(e)) },
    }
}

fn prompt_of(state: &State) -> (r: Message)
    ensures
        r == prompt(state@),
{
    match state {
        State::Start => Message::NotUnderstood,
        State::AddBookTitle => Message::AskTitle,
        State::AddBookType { .. } => Message::AskKind,
        State::AddBookDescription { .. } => Message::AskDescription,
        State::AddChapterId { .. } => Message::AskLabel,
        State::AddChapterLink { .. } => Message::AskLink,
    }
}

fn text_step(state: State, sender_id: i32, text: &String) -> (r: Step)
    ensures
        r@ == on_text(state@, sender_id, text@),
{
    if text.as_str().is_empty() {
        let message = prompt_of(&state);
        return say_step(state, message);
    }
    match state {
        State::Start => say_step(State::Start, Message::NotUnderstood),
        State::AddBookTitle => say_step(State::AddBookType { title: text.clone() }, Message::AskKind),
        State::AddBookType { title } => match BookType::try_from(text.as_str()) {
            Ok(book_type) => say_step(
                State::AddBookDescription { title, book_type },
                Message::AskDescription,
            ),
            Err(_) => say_step(State::AddBookType { title }, Message::AskKind),
        },
        State::AddBookDescription { title, book_type } => ask_step(
            Request::InsertManga(
                Manga {
                    id: None,
                    kind: book_type,
                    title,
                    description: text.clone(),
                    img: String::from_str("none"),
                },
            ),
        ),
        State::AddChapterId { book_id } => say_step(
            State::AddChapterLink { book_id, chapter_id: text.clone() },
            Message::AskLink,
        ),
        State::AddChapterLink { book_id, chapter_id } => ask_step(
            Request::InsertChapter(
                Chapter {
                    id: None,
                    manga_id: book_id,
                    translator_id: sender_id,
                    chapter_id,
                    link: text.clone(),
                },
            ),
        ),
    }
}

/// Takes one event in a conversation that is in `state`: gives the state
/// that the conversation is in from now on, and what follows.
pub fn step(state: State, event: &InboundEvent) -> (r: Step)
    ensures
        r@ == decide(state@, event@),
{
    match &event.kind {
        EventKind::Text(text) => text_step(state, event.sender_id, text),
        EventKind::Command(command) => command_step(*command),
        EventKind::Callback { tag, arg } => callback_step(state, tag.as_str(), *arg),
    }
}

} // verus!
