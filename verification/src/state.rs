//! The state of a conversation, and the events that move it.

use vstd::prelude::*;
use crate::kind::BookType;

verus! {

/// Where a conversation stands: which operation of several steps is under
/// way, with what the user has given for it so far.
#[derive(Debug, PartialEq, Eq)]
pub enum State {
    /// No operation is under way.
    Start,
    /// Adding a work: its title is awaited.
    AddBookTitle,
    /// Adding a work: its kind is awaited.
    AddBookType { title: String },
    /// Adding a work: its description is awaited.
    AddBookDescription { title: String, book_type: BookType },
    /// Adding a chapter to the work `book_id`: its label is awaited.
    AddChapterId { book_id: i32 },
    /// Adding a chapter to the work `book_id`: its link is awaited.
    AddChapterLink { book_id: i32, chapter_id: String },
}

/// The state of a conversation as a mathematical value.
#[verifier::ext_equal]
pub enum StateView {
    Start,
    AddBookTitle,
    AddBookType { title: Seq<char> },
    AddBookDescription { title: Seq<char>, book_type: BookType },
    AddChapterId { book_id: i32 },
    AddChapterLink { book_id: i32, chapter_id: Seq<char> },
}

impl View for State {
    type V = StateView;

    open spec fn view(&self) -> StateView {
        match self {
            State::Start => StateView::Start,
            State::AddBookTitle => StateView::AddBookTitle,
            State::AddBookType { title } => StateView::AddBookType { title: title@ },
            State::AddBookDescription { title, book_type } => StateView::AddBookDescription {
                title: title@,
                book_type: *book_type,
            },
            State::AddChapterId { book_id } => StateView::AddChapterId { book_id: *book_id },
            State::AddChapterLink { book_id, chapter_id } => StateView::AddChapterLink {
                book_id: *book_id,
                chapter_id: chapter_id@,
            },
        }
    }
}

impl Clone for State {
    fn clone(&self) -> (r: Self)
        ensures
            r@ == self@,
    {
        match self {
            State::Start => State::Start,
            State::AddBookTitle => State::AddBookTitle,
            State::AddBookType { title } => State::AddBookType { title: title.clone() },
            State::AddBookDescription { title, book_type } => State::AddBookDescription {
                title: title.clone(),
                book_type: *book_type,
            },
            State::AddChapterId { book_id } => State::AddChapterId { book_id: *book_id },
            State::AddChapterLink { book_id, chapter_id } => State::AddChapterLink {
                book_id: *book_id,
                chapter_id: chapter_id.clone(),
            },
        }
    }
}

impl Default for State {
    fn default() -> (r: Self)
        ensures
            r@ == StateView::Start,
    {
        State::Start
    }
}

/// A command of the bot, already read from the text that carried it.
#[derive(Clone, Copy, Debug, PartialEq, Eq, Structural)]
pub enum Command {
    Help,
    Start,
    Ping,
    /// Start adding a work.
    BookAdd,
    /// Start adding a chapter to the work `id`.
    ChapterAdd { id: i32 },
    /// Show the list of works.
    Menu,
}

/// What arrived from the user.
#[derive(Debug, PartialEq, Eq)]
pub enum EventKind {
    /// A message of free text; empty where the message held no text.
    Text(String),
    /// A command.
    Command(Command),
    /// A press of a button, with the route tag and the argument of its payload.
    Callback { tag: String, arg: Option<i32> },
}

/// What arrived from the user, as a mathematical value.
#[verifier::ext_equal]
pub enum EventKindView {
    Text(Seq<char>),
    Command(Command),
    Callback { tag: Seq<char>, arg: Option<i32> },
}

impl View for EventKind {
    type V = EventKindView;

    open spec fn view(&self) -> EventKindView {
        match self {
            EventKind::Text(text) => EventKindView::Text(text@),
            EventKind::Command(command) => EventKindView::Command(*command),
            EventKind::Callback { tag, arg } => EventKindView::Callback { tag: tag@, arg: *arg },
        }
    }
}

/// An event of a conversation, as the transport hands it in.
#[derive(Debug, PartialEq, Eq)]
pub struct InboundEvent {
    /// The conversation that the event belongs to.
    pub conversation_id: i64,
    /// Who sent it.
    pub sender_id: i32,
    pub kind: EventKind,
}

/// An event as a mathematical value.
#[verifier::ext_equal]
pub struct InboundEventView {
    pub conversation_id: i64,
    pub sender_id: i32,
    pub kind: EventKindView,
}

impl View for InboundEvent {
    type V = InboundEventView;

    open spec fn view(&self) -> InboundEventView {
        InboundEventView {
            conversation_id: self.conversation_id,
            sender_id: self.sender_id,
            kind: self.kind@,
        }
    }
}

} // verus!
