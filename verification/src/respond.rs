//! The reply that the outcome of a request to the catalog makes.

use vstd::prelude::*;
use crate::chapter::{chapter_views, Chapter, ChapterView};
use crate::error::Error;
use crate::keyboard::{catalogue_row, chapter_keyboard, chapters_row, work_keyboard};
use crate::manga::{manga_views, Manga, MangaView};
use crate::message::Message;
use crate::reply::{button_to, button_views, failure, plain, Button, Reply, ReplyView};
use crate::route::Route;
use crate::text::{decimal, to_decimal};

verus! {

/// The text that confirms a new chapter with the label `label`.
pub open spec fn chapter_added_text(label: Seq<char>) -> Seq<char> {
    "Глава "@ + label + " добавлена."@
}

/// The text that shows the chapter `id`: a link in Markdown to where it can be read.
pub open spec fn chapter_link_text(id: i32, link: Seq<char>) -> Seq<char> {
    "[Глава "@ + decimal(id as int) + "]("@ + link + ")"@
}

/// After an insert of a work: a confirmation, or what tells of the error.
pub open spec fn work_added_reply(result: Result<i32, Error>) -> ReplyView {
    match result {
        Ok(_) => plain(Message::WorkAdded),
        Err(e) => failure(e),
    }
}

/// After an insert of a chapter with the label `label`: a confirmation that
/// names the label, or what tells of the error.
pub open spec fn chapter_added_reply(label: Seq<char>, result: Result<i32, Error>) -> ReplyView {
    match result {
        Ok(_) => ReplyView { text: chapter_added_text(label), buttons: Seq::empty() },
        Err(e) => failure(e),
    }
}

/// After a listing of the works: the list with a button for each work and the
/// add button, or what tells of the error.
pub open spec fn catalogue_reply(result: Result<Seq<MangaView>, Error>) -> ReplyView {
    match result {
        Ok(works) => ReplyView {
            text: Message::Catalogue.text(),
            buttons: seq![catalogue_row(works)],
        },
        Err(e) => failure(e),
    }
}

/// After a listing of the chapters of the work `manga_id`: the list with a
/// button for each chapter and the add button, or what tells of the error.
pub open spec fn chapters_reply(manga_id: i32, result: Result<Seq<ChapterView>, Error>) -> ReplyView {
    match result {
        Ok(chapters) => ReplyView {
            text: Message::Chapters.text(),
            buttons: seq![chapters_row(manga_id, chapters)],
        },
        Err(e) => failure(e),
    }
}

/// After a lookup of the chapter `id`: its link, with a button back to its
/// work, or what tells of the error.
pub open spec fn chapter_reply(id: i32, result: Result<ChapterView, Error>) -> ReplyView {
    match result {
        Ok(chapter) => ReplyView {
            text: chapter_link_text(id, chapter.link),
            buttons: seq![seq![button_to(Message::Back.text(), Route::ViewWork(chapter.manga_id))]],
        },
        Err(e) => failure(e),
    }
}

/// After a delete of a work: a confirmation, or what tells of the error.
pub open spec fn work_deleted_reply(result: Result<(), Error>) -> ReplyView {
    match result {
        Ok(_) => plain(Message::WorkDeleted),
        Err(e) => failure(e),
    }
}

/// Makes the reply after an insert of a work.
pub fn work_added(result: Result<i32, Error>) -> (r: Reply)
    ensures
        r@ == work_added_reply(result),
{
    match result {
        Ok(_) => Reply::plain(Message::WorkAdded),
        Err(e) => Reply::failure(e),
    }
}

/// Makes the reply after an insert of a chapter with the label `label`.
pub fn chapter_added(label: &str, result: Result<i32, Error>) -> (r: Reply)
    ensures
        r@ == chapter_added_reply(label@, result),
{
    match result {
        Ok(_) => {
            let mut text = String::from_str("Глава ");
            text.append(label);
            text.append(" добавлена.");
            let r = Reply { text, buttons: Vec::new() };
            assert(r@.buttons =~= Seq::empty());
            r
        },
        Err(e) => Reply::failure(e),
    }
}

/// Makes the reply after a listing of the works.
pub fn catalogue(result: &Result<Vec<Manga>, Error>) -> (r: Reply)
    ensures
        r@ == catalogue_reply(
            match *result {
                Ok(works) => Ok(manga_views(works@)),
                Err(e) => Err(e),
            },
        ),
{
    match result {
        Ok(works) => Reply::with_row(
            String::from_str(Message::Catalogue.as_str()),
            work_keyboard(works),
        ),
        Err(e) => Reply::failure(*e),
    }
}

/// Makes the reply after a listing of the chapters of the work `manga_id`.
pub fn chapter_list(manga_id: i32, result: &Result<Vec<Chapter>, Error>) -> (r: Reply)
    ensures
        r@ == chapters_reply(
            manga_id,
            match *result {
                Ok(chapters) => Ok(chapter_views(chapters@)),
                Err(e) => Err(e),
            },
        ),
{
    match result {
        Ok(chapters) => Reply::with_row(
            String::from_str(Message::Chapters.as_str()),
            chapter_keyboard(manga_id, chapters),
        ),
        Err(e) => Reply::failure(*e),
    }
}

/// Makes the reply after a lookup of the chapter `id`.
pub fn chapter_page(id: i32, result: &Result<Chapter, Error>) -> (r: Reply)
    ensures
        r@ == chapter_reply(
            id,
            match *result {
                Ok(chapter) => Ok(chapter@),
                Err(e) => Err(e),
            },
        ),
{
    match result {
        Ok(chapter) => {
            let mut text = String::from_str("[Глава ");
            let number = to_decimal(id);
            text.append(number.as_str());
            text.append("](");
            text.append(chapter.link.as_str());
            text.append(")");
            let back = Button::to(
                String::from_str(Message::Back.as_str()),
                Route::ViewWork(chapter.manga_id),
            );
            let mut row: Vec<Button> = Vec::new();
            row.push(back);
            assert(button_views(row@) =~= seq![back@]);
            Reply::with_row(text, row)
        },
        Err(e) => Reply::failure(*e),
    }
}

/// Makes the reply after a delete of a work.
pub fn work_deleted(result: Result<(), Error>) -> (r: Reply)
    ensures
        r@ == work_deleted_reply(result),
{
    match result {
        Ok(_) => Reply::plain(Message::WorkDeleted),
        Err(e) => Reply::failure(e),
    }
}

} // verus!
