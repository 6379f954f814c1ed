use catalog_bot::chapter::Chapter;
use catalog_bot::database::DatabaseConnection;
use catalog_bot::dialogue::{Action, Request};
use catalog_bot::engine::{handle, perform, Handled};
use catalog_bot::error::Error;
use catalog_bot::init::create_tables;
use catalog_bot::keyboard::{chapter_keyboard, catalog_keyboard, work_keyboard};
use catalog_bot::kind::BookType;
use catalog_bot::manga::Manga;
use catalog_bot::message::Message;
use catalog_bot::reply::{Button, Reply};
use catalog_bot::respond::{catalogue, chapter_added, chapter_list, chapter_page, work_added, work_deleted};
use catalog_bot::route::Route;
use catalog_bot::session::SessionStore;
use catalog_bot::state::{Command, EventKind, InboundEvent, State};

const C1: i64 = 1001;
const C2: i64 = -2002;

fn text(conversation_id: i64, t: &str) -> InboundEvent {
    InboundEvent { conversation_id, sender_id: 77, kind: EventKind::Text(t.to_string()) }
}

fn press(conversation_id: i64, tag: &str, arg: Option<i32>) -> InboundEvent {
    InboundEvent {
        conversation_id,
        sender_id: 77,
        kind: EventKind::Callback { tag: tag.to_string(), arg },
    }
}

fn command(conversation_id: i64, c: Command) -> InboundEvent {
    InboundEvent { conversation_id, sender_id: 77, kind: EventKind::Command(c) }
}

fn ready() -> (SessionStore, DatabaseConnection) {
    let mut db = DatabaseConnection::open();
    create_tables(&mut db);
    (SessionStore::new(), db)
}

fn button(label: &str, route: &str) -> Button {
    Button { label: label.to_string(), route: route.to_string() }
}

fn one_piece() -> Manga {
    Manga {
        id: None,
        kind: BookType::Manga,
        title: "One Piece".to_string(),
        description: "Pirates.".to_string(),
        img: "none".to_string(),
    }
}

#[test]
fn adding_a_work_end_to_end() {
    let (mut sessions, mut db) = ready();
    let h = handle(&mut sessions, &mut db, &press(C1, "add-work", None));
    assert_eq!(h, Handled { reply: Reply::plain(Message::AskTitle), effect: None });
    assert_eq!(sessions.get(C1), State::AddBookTitle);
    let h = handle(&mut sessions, &mut db, &text(C1, "One Piece"));
    assert_eq!(h, Handled { reply: Reply::plain(Message::AskKind), effect: None });
    let h = handle(&mut sessions, &mut db, &text(C1, "manga"));
    assert_eq!(h, Handled { reply: Reply::plain(Message::AskDescription), effect: None });
    assert_eq!(db.manga.list(), Ok(vec![]));
    let h = handle(&mut sessions, &mut db, &text(C1, "Pirates."));
    assert_eq!(h.effect, Some(Request::InsertManga(one_piece())));
    assert_eq!(h.reply, Reply { text: "Произведение добавлено".to_string(), buttons: vec![] });
    assert_eq!(sessions.get(C1), State::Start);
    assert_eq!(db.manga.list(), Ok(vec![Manga { id: Some(1), ..one_piece() }]));
}

#[test]
fn adding_a_chapter_end_to_end() {
    let (mut sessions, mut db) = ready();
    db.manga.insert(one_piece()).unwrap();
    let h = handle(&mut sessions, &mut db, &press(C1, "add-chapter", Some(1)));
    assert_eq!(h.reply, Reply::plain(Message::AskLabel));
    assert_eq!(sessions.get(C1), State::AddChapterId { book_id: 1 });
    let h = handle(&mut sessions, &mut db, &text(C1, "1050"));
    assert_eq!(h.reply, Reply::plain(Message::AskLink));
    let h = handle(&mut sessions, &mut db, &text(C1, "https://example.org/1050"));
    assert_eq!(h.reply, Reply { text: "Глава 1050 добавлена.".to_string(), buttons: vec![] });
    assert_eq!(sessions.get(C1), State::Start);
    assert_eq!(
        db.chapters.list(),
        Ok(vec![Chapter {
            id: Some(1),
            manga_id: 1,
            translator_id: 77,
            chapter_id: "1050".to_string(),
            link: "https://example.org/1050".to_string(),
        }])
    );
}

#[test]
fn callback_abandons_the_title_flow_and_navigates() {
    let (mut sessions, mut db) = ready();
    handle(&mut sessions, &mut db, &press(C1, "add-work", None));
    assert_eq!(sessions.get(C1), State::AddBookTitle);
    let h = handle(&mut sessions, &mut db, &press(C1, "view-work", Some(7)));
    assert_eq!(sessions.get(C1), State::Start);
    assert_eq!(h.effect, Some(Request::ListChapters { manga_id: 7 }));
    assert_eq!(
        h.reply,
        Reply { text: "Главы:".to_string(), buttons: vec![vec![button("Добавить", "add-chapter:7")]] }
    );
    let h = handle(&mut sessions, &mut db, &text(C1, "One Piece"));
    assert_eq!(h.reply, Reply::plain(Message::NotUnderstood));
    assert_eq!(db.manga.list(), Ok(vec![]));
}

#[test]
fn empty_text_never_reaches_the_catalog() {
    let (mut sessions, mut db) = ready();
    handle(&mut sessions, &mut db, &command(C1, Command::BookAdd));
    let h = handle(&mut sessions, &mut db, &text(C1, ""));
    assert_eq!(h, Handled { reply: Reply::plain(Message::AskTitle), effect: None });
    assert_eq!(sessions.get(C1), State::AddBookTitle);
    assert_eq!(db.manga.list(), Ok(vec![]));
}

#[test]
fn conversations_do_not_see_each_other() {
    let (mut sessions, mut db) = ready();
    handle(&mut sessions, &mut db, &press(C1, "add-work", None));
    handle(&mut sessions, &mut db, &press(C2, "add-chapter", Some(4)));
    handle(&mut sessions, &mut db, &text(C1, "One Piece"));
    assert_eq!(sessions.get(C2), State::AddChapterId { book_id: 4 });
    handle(&mut sessions, &mut db, &text(C2, "12"));
    assert_eq!(sessions.get(C1), State::AddBookType { title: "One Piece".to_string() });
    assert_eq!(sessions.get(C2), State::AddChapterLink { book_id: 4, chapter_id: "12".to_string() });
    handle(&mut sessions, &mut db, &command(C2, Command::Ping));
    assert_eq!(sessions.get(C1), State::AddBookType { title: "One Piece".to_string() });
    assert_eq!(sessions.get(C2), State::Start);
    assert_eq!(sessions.get(3), State::Start);
}

#[test]
fn interleaved_events_give_the_same_as_each_alone() {
    let (mut sessions, mut db) = ready();
    let (mut alone, mut db_alone) = ready();
    let first = [press(C1, "add-work", None), text(C1, "One Piece"), text(C1, "ranobe")];
    let second = [command(C2, Command::ChapterAdd { id: 2 }), text(C2, ""), text(C2, "5")];
    for (a, b) in first.iter().zip(second.iter()) {
        let together = handle(&mut sessions, &mut db, a);
        handle(&mut sessions, &mut db, b);
        assert_eq!(together, handle(&mut alone, &mut db_alone, a));
    }
    assert_eq!(sessions.get(C1), alone.get(C1));
    assert_eq!(
        sessions.get(C1),
        State::AddBookDescription { title: "One Piece".to_string(), book_type: BookType::Ranobe }
    );
    assert_eq!(alone.get(C2), State::Start);
}

#[test]
fn advance_moves_the_session_and_gives_the_action() {
    let mut sessions = SessionStore::new();
    assert_eq!(sessions.get(C1), State::Start);
    let action = sessions.advance(&command(C1, Command::Menu));
    assert_eq!(action, Action::Request(Request::ListManga));
    let action = sessions.advance(&press(C1, "add-work", None));
    assert_eq!(action, Action::Reply(Reply::plain(Message::AskTitle)));
    assert_eq!(sessions.get(C1), State::AddBookTitle);
    sessions.set(C2, State::AddChapterId { book_id: 1 });
    assert_eq!(sessions.get(C2), State::AddChapterId { book_id: 1 });
    assert_eq!(sessions.get(C1), State::AddBookTitle);
}

#[test]
fn view_work_of_a_fresh_work_shows_the_add_button_alone() {
    let (mut sessions, mut db) = ready();
    let id = db.manga.insert(one_piece()).unwrap();
    assert_eq!(db.chapters.list_by_manga_id(id), Ok(vec![]));
    let h = handle(&mut sessions, &mut db, &press(C1, "view-work", Some(id)));
    assert_eq!(
        h.reply,
        Reply { text: "Главы:".to_string(), buttons: vec![vec![button("Добавить", "add-chapter:1")]] }
    );
}

#[test]
fn view_work_lists_the_chapters_of_that_work() {
    let (mut sessions, mut db) = ready();
    db.manga.insert(one_piece()).unwrap();
    for (work, label) in [(1, "1"), (2, "x"), (1, "2")] {
        db.chapters
            .insert(Chapter {
                id: None,
                manga_id: work,
                translator_id: 77,
                chapter_id: label.to_string(),
                link: "l".to_string(),
            })
            .unwrap();
    }
    let h = handle(&mut sessions, &mut db, &press(C1, "view-work", Some(1)));
    assert_eq!(
        h.reply,
        Reply {
            text: "Главы:".to_string(),
            buttons: vec![vec![
                button("Глава: 1", "view-chapter:1"),
                button("Глава: 2", "view-chapter:3"),
                button("Добавить", "add-chapter:1"),
            ]],
        }
    );
}

#[test]
fn menu_lists_the_works() {
    let (mut sessions, mut db) = ready();
    db.manga.insert(one_piece()).unwrap();
    db.manga.insert(Manga { title: "Overlord".to_string(), kind: BookType::Ranobe, ..one_piece() }).unwrap();
    let h = handle(&mut sessions, &mut db, &command(C1, Command::Menu));
    assert_eq!(h.effect, Some(Request::ListManga));
    assert_eq!(
        h.reply,
        Reply {
            text: "Каталог:".to_string(),
            buttons: vec![vec![
                button("One Piece", "view-work:1"),
                button("Overlord", "view-work:2"),
                button("Добавить", "add-work"),
            ]],
        }
    );
}

#[test]
fn view_chapter_shows_the_link_and_the_way_back() {
    let (mut sessions, mut db) = ready();
    db.chapters
        .insert(Chapter {
            id: None,
            manga_id: 6,
            translator_id: 1,
            chapter_id: "12".to_string(),
            link: "https://example.org/12".to_string(),
        })
        .unwrap();
    let h = handle(&mut sessions, &mut db, &press(C1, "view-chapter", Some(1)));
    assert_eq!(
        h.reply,
        Reply {
            text: "[Глава 1](https://example.org/12)".to_string(),
            buttons: vec![vec![button("Назад", "view-work:6")]],
        }
    );
    assert_eq!(sessions.get(C1), State::Start);
}

#[test]
fn view_chapter_of_a_missing_chapter_is_not_found() {
    let (mut sessions, mut db) = ready();
    handle(&mut sessions, &mut db, &press(C1, "add-work", None));
    let h = handle(&mut sessions, &mut db, &press(C1, "view-chapter", Some(1)));
    assert_eq!(h.reply, Reply { text: "Не найдено".to_string(), buttons: vec![] });
    assert_eq!(sessions.get(C1), State::Start);
}

#[test]
fn delete_work_twice_confirms_twice() {
    let (mut sessions, mut db) = ready();
    db.manga.insert(one_piece()).unwrap();
    let h = handle(&mut sessions, &mut db, &press(C1, "delete-work", Some(1)));
    assert_eq!(h.reply, Reply::plain(Message::WorkDeleted));
    assert_eq!(db.manga.list(), Ok(vec![]));
    let h = handle(&mut sessions, &mut db, &press(C1, "delete-work", Some(1)));
    assert_eq!(h.reply, Reply::plain(Message::WorkDeleted));
    assert_eq!(h.effect, Some(Request::DeleteManga { id: 1 }));
}

#[test]
fn storage_failure_becomes_an_apology_and_the_session_returns_to_start() {
    let mut sessions = SessionStore::new();
    let mut db = DatabaseConnection::open();
    handle(&mut sessions, &mut db, &press(C1, "add-work", None));
    handle(&mut sessions, &mut db, &text(C1, "One Piece"));
    handle(&mut sessions, &mut db, &text(C1, "manga"));
    let h = handle(&mut sessions, &mut db, &text(C1, "Pirates."));
    assert_eq!(h.reply, Reply { text: "Что-то пошло не так, попробуйте позже".to_string(), buttons: vec![] });
    assert_eq!(h.effect, Some(Request::InsertManga(one_piece())));
    assert_eq!(sessions.get(C1), State::Start);
    let h = handle(&mut sessions, &mut db, &command(C1, Command::Menu));
    assert_eq!(h.reply, Reply::plain(Message::Apology));
    let h = handle(&mut sessions, &mut db, &press(C1, "view-chapter", Some(1)));
    assert_eq!(h.reply, Reply::plain(Message::Apology));
}

#[test]
fn unknown_button_is_not_understood_and_keeps_the_state() {
    let (mut sessions, mut db) = ready();
    handle(&mut sessions, &mut db, &press(C1, "add-work", None));
    let h = handle(&mut sessions, &mut db, &press(C1, "fly", Some(1)));
    assert_eq!(h, Handled { reply: Reply::plain(Message::NotUnderstood), effect: None });
    assert_eq!(sessions.get(C1), State::AddBookTitle);
}

#[test]
fn perform_carries_out_each_request() {
    let (_, mut db) = ready();
    assert_eq!(perform(&mut db, Request::InsertManga(one_piece())), Reply::plain(Message::WorkAdded));
    assert_eq!(perform(&mut db, Request::GetChapter { id: 3 }), Reply::failure(Error::NotFound));
    assert_eq!(perform(&mut db, Request::DeleteManga { id: 1 }), Reply::plain(Message::WorkDeleted));
    assert_eq!(db.manga.list(), Ok(vec![]));
}

#[test]
fn replies_for_each_outcome() {
    assert_eq!(work_added(Ok(4)), Reply::plain(Message::WorkAdded));
    assert_eq!(work_added(Err(Error::Storage)), Reply::plain(Message::Apology));
    assert_eq!(chapter_added("7", Ok(1)).text, "Глава 7 добавлена.");
    assert_eq!(chapter_added("7", Err(Error::Storage)), Reply::plain(Message::Apology));
    assert_eq!(work_deleted(Ok(())), Reply::plain(Message::WorkDeleted));
    assert_eq!(work_deleted(Err(Error::Storage)), Reply::plain(Message::Apology));
    assert_eq!(catalogue(&Err(Error::Storage)), Reply::plain(Message::Apology));
    assert_eq!(chapter_list(2, &Err(Error::Storage)), Reply::plain(Message::Apology));
    assert_eq!(chapter_page(2, &Err(Error::NotFound)), Reply::plain(Message::NotFound));
    assert_eq!(chapter_page(2, &Err(Error::Storage)), Reply::plain(Message::Apology));
    assert_eq!(
        catalogue(&Ok(vec![])),
        Reply { text: "Каталог:".to_string(), buttons: vec![vec![button("Добавить", "add-work")]] }
    );
}

#[test]
fn keyboards_skip_entries_without_identifier() {
    let works = vec![one_piece(), Manga { id: Some(5), ..one_piece() }];
    assert_eq!(
        work_keyboard(&works),
        vec![button("One Piece", "view-work:5"), button("Добавить", "add-work")]
    );
    let chapters = vec![Chapter {
        id: None,
        manga_id: 1,
        translator_id: 1,
        chapter_id: "1".to_string(),
        link: "l".to_string(),
    }];
    assert_eq!(chapter_keyboard(1, &chapters), vec![button("Добавить", "add-chapter:1")]);
}

#[test]
fn catalog_keyboard_of_works_and_of_chapters() {
    let (_, mut db) = ready();
    db.manga.insert(one_piece()).unwrap();
    assert_eq!(
        catalog_keyboard(&db, None),
        Ok(vec![vec![button("One Piece", "view-work:1"), button("Добавить", "add-work")]])
    );
    assert_eq!(catalog_keyboard(&db, Some(1)), Ok(vec![vec![button("Добавить", "add-chapter:1")]]));
    assert_eq!(catalog_keyboard(&DatabaseConnection::open(), None), Err(Error::Storage));
    assert_eq!(catalog_keyboard(&DatabaseConnection::open(), Some(1)), Err(Error::Storage));
}

#[test]
fn every_button_leads_to_its_route() {
    let (_, mut db) = ready();
    db.manga.insert(one_piece()).unwrap();
    for row in catalog_keyboard(&db, None).unwrap() {
        for b in row {
            let (tag, arg) = catalog_bot::route::split_payload(&b.route);
            assert!(Route::resolve(&tag, arg).is_ok());
        }
    }
}
