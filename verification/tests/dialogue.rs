use catalog_bot::chapter::Chapter;
use catalog_bot::dialogue::{step, Action, Request, Step};
use catalog_bot::error::Error;
use catalog_bot::kind::BookType;
use catalog_bot::manga::Manga;
use catalog_bot::message::Message;
use catalog_bot::reply::Reply;
use catalog_bot::state::{Command, EventKind, InboundEvent, State};

fn text(t: &str) -> InboundEvent {
    InboundEvent { conversation_id: 1, sender_id: 77, kind: EventKind::Text(t.to_string()) }
}

fn command(c: Command) -> InboundEvent {
    InboundEvent { conversation_id: 1, sender_id: 77, kind: EventKind::Command(c) }
}

fn callback(tag: &str, arg: Option<i32>) -> InboundEvent {
    InboundEvent {
        conversation_id: 1,
        sender_id: 77,
        kind: EventKind::Callback { tag: tag.to_string(), arg },
    }
}

fn says(state: State, message: Message) -> Step {
    Step { state, action: Action::Reply(Reply::plain(message)) }
}

fn asks(request: Request) -> Step {
    Step { state: State::Start, action: Action::Request(request) }
}

fn awaiting() -> Vec<State> {
    vec![
        State::AddBookTitle,
        State::AddBookType { title: "t".to_string() },
        State::AddBookDescription { title: "t".to_string(), book_type: BookType::Ranobe },
        State::AddChapterId { book_id: 3 },
        State::AddChapterLink { book_id: 3, chapter_id: "4".to_string() },
    ]
}

#[test]
fn default_state_is_start() {
    assert_eq!(State::default(), State::Start);
}

#[test]
fn empty_text_while_awaiting_the_title_asks_again() {
    let r = step(State::AddBookTitle, &text(""));
    assert_eq!(r, says(State::AddBookTitle, Message::AskTitle));
    assert_eq!(
        r.action,
        Action::Reply(Reply { text: "Введите название произведения: ".to_string(), buttons: vec![] })
    );
}

#[test]
fn empty_text_leaves_every_state() {
    let prompts = [
        Message::AskTitle,
        Message::AskKind,
        Message::AskDescription,
        Message::AskLabel,
        Message::AskLink,
    ];
    for (state, prompt) in awaiting().into_iter().zip(prompts) {
        assert_eq!(step(state.clone(), &text("")), says(state, prompt));
    }
    assert_eq!(step(State::Start, &text("")), says(State::Start, Message::NotUnderstood));
}

#[test]
fn text_in_start_is_not_understood() {
    assert_eq!(step(State::Start, &text("hello")), says(State::Start, Message::NotUnderstood));
}

#[test]
fn title_moves_on_to_the_kind() {
    assert_eq!(
        step(State::AddBookTitle, &text("One Piece")),
        says(State::AddBookType { title: "One Piece".to_string() }, Message::AskKind)
    );
}

#[test]
fn kind_moves_on_to_the_description() {
    assert_eq!(
        step(State::AddBookType { title: "One Piece".to_string() }, &text("manga")),
        says(
            State::AddBookDescription { title: "One Piece".to_string(), book_type: BookType::Manga },
            Message::AskDescription
        )
    );
    assert_eq!(
        step(State::AddBookType { title: "O".to_string() }, &text("ranobe")),
        says(
            State::AddBookDescription { title: "O".to_string(), book_type: BookType::Ranobe },
            Message::AskDescription
        )
    );
}

#[test]
fn unknown_kind_asks_again_and_keeps_the_title() {
    let state = State::AddBookType { title: "One Piece".to_string() };
    assert_eq!(step(state.clone(), &text("comic")), says(state, Message::AskKind));
}

#[test]
fn description_asks_for_the_insert_of_the_work() {
    let state = State::AddBookDescription { title: "One Piece".to_string(), book_type: BookType::Manga };
    assert_eq!(
        step(state, &text("Pirates.")),
        asks(Request::InsertManga(Manga {
            id: None,
            kind: BookType::Manga,
            title: "One Piece".to_string(),
            description: "Pirates.".to_string(),
            img: "none".to_string(),
        }))
    );
}

#[test]
fn label_moves_on_to_the_link() {
    assert_eq!(
        step(State::AddChapterId { book_id: 3 }, &text("12.5")),
        says(State::AddChapterLink { book_id: 3, chapter_id: "12.5".to_string() }, Message::AskLink)
    );
}

#[test]
fn link_asks_for_the_insert_of_the_chapter_with_the_sender() {
    let state = State::AddChapterLink { book_id: 3, chapter_id: "12.5".to_string() };
    assert_eq!(
        step(state, &text("https://example.org/c")),
        asks(Request::InsertChapter(Chapter {
            id: None,
            manga_id: 3,
            translator_id: 77,
            chapter_id: "12.5".to_string(),
            link: "https://example.org/c".to_string(),
        }))
    );
}

#[test]
fn commands_do_the_same_in_every_state() {
    let mut states = awaiting();
    states.push(State::Start);
    for state in states {
        assert_eq!(step(state.clone(), &command(Command::Help)), says(State::Start, Message::Help));
        assert_eq!(step(state.clone(), &command(Command::Start)), says(State::Start, Message::Greeting));
        assert_eq!(step(state.clone(), &command(Command::Ping)), says(State::Start, Message::Pong));
        assert_eq!(step(state.clone(), &command(Command::Menu)), asks(Request::ListManga));
        assert_eq!(
            step(state.clone(), &command(Command::BookAdd)),
            says(State::AddBookTitle, Message::AskTitle)
        );
        assert_eq!(
            step(state, &command(Command::ChapterAdd { id: 9 })),
            says(State::AddChapterId { book_id: 9 }, Message::AskLabel)
        );
    }
}

#[test]
fn callback_cancels_the_title_flow() {
    let started = step(State::Start, &callback("add-work", None));
    assert_eq!(started, says(State::AddBookTitle, Message::AskTitle));
    let r = step(started.state, &callback("view-work", Some(7)));
    assert_eq!(r, asks(Request::ListChapters { manga_id: 7 }));
}

#[test]
fn callbacks_do_the_same_in_every_state() {
    let mut states = awaiting();
    states.push(State::Start);
    for state in states {
        assert_eq!(
            step(state.clone(), &callback("view-work", Some(7))),
            asks(Request::ListChapters { manga_id: 7 })
        );
        assert_eq!(
            step(state.clone(), &callback("view-chapter", Some(8))),
            asks(Request::GetChapter { id: 8 })
        );
        assert_eq!(
            step(state.clone(), &callback("delete-work", Some(2))),
            asks(Request::DeleteManga { id: 2 })
        );
        assert_eq!(
            step(state.clone(), &callback("add-chapter", Some(5))),
            says(State::AddChapterId { book_id: 5 }, Message::AskLabel)
        );
        assert_eq!(
            step(state, &callback("add-work", None)),
            says(State::AddBookTitle, Message::AskTitle)
        );
    }
}

#[test]
fn unknown_route_leaves_the_state() {
    let mut states = awaiting();
    states.push(State::Start);
    for state in states {
        let r = step(state.clone(), &callback("fly", Some(1)));
        assert_eq!(r, Step { state: state.clone(), action: Action::Reply(Reply::failure(Error::Routing)) });
        let r = step(state.clone(), &callback("view-work", None));
        assert_eq!(r, says(state, Message::NotUnderstood));
    }
}
