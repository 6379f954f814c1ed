use catalog_bot::chapter::{Chapter, ChapterRepository};
use catalog_bot::database::DatabaseConnection;
use catalog_bot::error::Error;
use catalog_bot::init::{create_table_chapter, create_table_manga, create_tables};
use catalog_bot::kind::BookType;
use catalog_bot::manga::{Manga, MangaRepository};

fn work(title: &str) -> Manga {
    Manga {
        id: None,
        kind: BookType::Manga,
        title: title.to_string(),
        description: "d".to_string(),
        img: "none".to_string(),
    }
}

fn chapter(manga_id: i32, label: &str) -> Chapter {
    Chapter {
        id: None,
        manga_id,
        translator_id: 5,
        chapter_id: label.to_string(),
        link: format!("https://example.org/{}", label),
    }
}

fn ready() -> DatabaseConnection {
    let mut db = DatabaseConnection::open();
    create_tables(&mut db);
    db
}

#[test]
fn insert_fails_before_the_tables_exist() {
    let mut db = DatabaseConnection::open();
    assert_eq!(db.manga.insert(work("a")), Err(Error::Storage));
    assert_eq!(db.chapters.insert(chapter(1, "1")), Err(Error::Storage));
    create_tables(&mut db);
    assert_eq!(db.manga.insert(work("a")), Ok(1));
    assert_eq!(db.chapters.insert(chapter(1, "1")), Ok(1));
}

#[test]
fn every_statement_fails_before_the_tables_exist() {
    let mut db = DatabaseConnection::open();
    assert_eq!(db.manga.get_by_id(1), Err(Error::Storage));
    assert_eq!(db.manga.list(), Err(Error::Storage));
    assert_eq!(db.manga.delete(1), Err(Error::Storage));
    assert_eq!(db.chapters.get_by_id(1), Err(Error::Storage));
    assert_eq!(db.chapters.list(), Err(Error::Storage));
    assert_eq!(db.chapters.list_by_manga_id(1), Err(Error::Storage));
    assert_eq!(db.chapters.delete(1), Err(Error::Storage));
}

#[test]
fn create_table_manga_leaves_the_chapters_missing() {
    let mut db = DatabaseConnection::open();
    assert_eq!(create_table_manga(&mut db), Ok(()));
    assert_eq!(db.manga.list(), Ok(vec![]));
    assert_eq!(db.chapters.list(), Err(Error::Storage));
    assert_eq!(create_table_chapter(&mut db), Ok(()));
    assert_eq!(db.chapters.list(), Ok(vec![]));
}

#[test]
fn create_tables_again_keeps_the_rows() {
    let mut db = ready();
    assert_eq!(db.manga.insert(work("a")), Ok(1));
    create_tables(&mut db);
    assert_eq!(db.manga.list().map(|v| v.len()), Ok(1));
    assert_eq!(db.manga.insert(work("b")), Ok(2));
}

#[test]
fn insert_round_trip() {
    let mut db = ready();
    let draft = Manga {
        id: None,
        kind: BookType::Ranobe,
        title: "Overlord".to_string(),
        description: "Bones.".to_string(),
        img: "cover.png".to_string(),
    };
    let id = db.manga.insert(draft.clone()).unwrap();
    let found = db.manga.get_by_id(id).unwrap();
    assert_eq!(found, Manga { id: Some(id), ..draft });
}

#[test]
fn insert_ignores_the_id_of_the_draft() {
    let mut db = ready();
    let mut draft = work("a");
    draft.id = Some(40);
    assert_eq!(db.manga.insert(draft), Ok(1));
    assert_eq!(db.manga.get_by_id(40), Err(Error::NotFound));
    assert_eq!(db.manga.get_by_id(1).map(|m| m.title), Ok("a".to_string()));
}

#[test]
fn chapter_insert_round_trip() {
    let mut db = ready();
    let draft = chapter(3, "12");
    let id = db.chapters.insert(draft.clone()).unwrap();
    assert_eq!(db.chapters.get_by_id(id), Ok(Chapter { id: Some(id), ..draft }));
}

#[test]
fn get_by_id_of_a_missing_row_is_not_found() {
    let mut db = ready();
    assert_eq!(db.manga.get_by_id(1), Err(Error::NotFound));
    db.manga.insert(work("a")).unwrap();
    assert_eq!(db.manga.get_by_id(2), Err(Error::NotFound));
    assert_eq!(db.manga.get_by_id(0), Err(Error::NotFound));
    assert_eq!(db.chapters.get_by_id(1), Err(Error::NotFound));
}

#[test]
fn delete_is_idempotent() {
    let mut db = ready();
    db.manga.insert(work("a")).unwrap();
    db.manga.insert(work("b")).unwrap();
    assert_eq!(db.manga.delete(1), Ok(()));
    let after_first = db.manga.list();
    assert_eq!(db.manga.delete(1), Ok(()));
    assert_eq!(db.manga.list(), after_first);
    assert_eq!(db.manga.get_by_id(1), Err(Error::NotFound));
    assert_eq!(db.manga.get_by_id(2).map(|m| m.title), Ok("b".to_string()));
}

#[test]
fn delete_of_an_unknown_id_changes_nothing() {
    let mut db = ready();
    db.chapters.insert(chapter(1, "1")).unwrap();
    assert_eq!(db.chapters.delete(9), Ok(()));
    assert_eq!(db.chapters.list().map(|v| v.len()), Ok(1));
}

#[test]
fn identifiers_are_not_used_again_after_a_delete() {
    let mut db = ready();
    assert_eq!(db.manga.insert(work("a")), Ok(1));
    assert_eq!(db.manga.delete(1), Ok(()));
    assert_eq!(db.manga.insert(work("b")), Ok(2));
}

#[test]
fn list_gives_the_rows_in_the_order_of_insertion() {
    let mut db = ready();
    db.manga.insert(work("a")).unwrap();
    db.manga.insert(work("b")).unwrap();
    db.manga.insert(work("c")).unwrap();
    db.manga.delete(2).unwrap();
    let titles: Vec<(Option<i32>, String)> =
        db.manga.list().unwrap().into_iter().map(|m| (m.id, m.title)).collect();
    assert_eq!(titles, vec![(Some(1), "a".to_string()), (Some(3), "c".to_string())]);
}

#[test]
fn list_by_manga_id_gives_the_chapters_of_that_work_only() {
    let mut db = ready();
    db.chapters.insert(chapter(1, "1")).unwrap();
    db.chapters.insert(chapter(2, "1")).unwrap();
    db.chapters.insert(chapter(1, "2")).unwrap();
    let labels: Vec<(Option<i32>, String)> =
        db.chapters.list_by_manga_id(1).unwrap().into_iter().map(|c| (c.id, c.chapter_id)).collect();
    assert_eq!(labels, vec![(Some(1), "1".to_string()), (Some(3), "2".to_string())]);
    assert_eq!(db.chapters.list().map(|v| v.len()), Ok(3));
}

#[test]
fn a_fresh_work_has_no_chapters() {
    let mut db = ready();
    db.manga.insert(work("a")).unwrap();
    db.chapters.insert(chapter(1, "1")).unwrap();
    let id = db.manga.insert(work("b")).unwrap();
    assert_eq!(db.chapters.list_by_manga_id(id), Ok(vec![]));
}

#[test]
fn deleting_a_work_keeps_its_chapters() {
    let mut db = ready();
    let id = db.manga.insert(work("a")).unwrap();
    db.chapters.insert(chapter(id, "1")).unwrap();
    assert_eq!(db.manga.delete(id), Ok(()));
    assert_eq!(db.chapters.list_by_manga_id(id).map(|v| v.len()), Ok(1));
}

#[test]
fn push_inserts_what_was_held_ready() {
    let mut works = MangaRepository::init();
    works.create_table();
    works.new(BookType::Manga, "One Piece".to_string(), "Pirates.".to_string(), "none".to_string());
    assert_eq!(works.get().title, "One Piece");
    assert_eq!(works.get().id, None);
    assert_eq!(works.push(), Ok(1));
    assert_eq!(works.push(), Ok(2));
    works.set(work("b"));
    assert_eq!(works.get().title, "b");
    assert_eq!(works.push(), Ok(3));
    assert_eq!(works.get_by_id(2).map(|m| m.title), Ok("One Piece".to_string()));
    assert_eq!(works.get_by_id(3).map(|m| m.title), Ok("b".to_string()));
}

#[test]
fn chapter_push_inserts_what_was_held_ready() {
    let mut chapters = ChapterRepository::init();
    chapters.new(4, 9, "7".to_string(), "https://example.org/7".to_string());
    assert_eq!(chapters.push(), Err(Error::Storage));
    chapters.create_table();
    assert_eq!(chapters.push(), Ok(1));
    assert_eq!(
        chapters.get_by_id(1),
        Ok(Chapter {
            id: Some(1),
            manga_id: 4,
            translator_id: 9,
            chapter_id: "7".to_string(),
            link: "https://example.org/7".to_string(),
        })
    );
    chapters.set(chapter(4, "8"));
    assert_eq!(chapters.get().chapter_id, "8");
}
