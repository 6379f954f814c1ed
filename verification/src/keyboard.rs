//! The rows of buttons under the lists of the catalog.

use vstd::prelude::*;
use crate::chapter::{chapter_views, Chapter, ChapterView};
use crate::database::{Catalog, DatabaseConnection};
use crate::error::Error;
use crate::manga::{manga_views, Manga, MangaView};
use crate::message::Message;
use crate::reply::{button_to, button_views, row_views, Button, ButtonView};
use crate::route::{lemma_route_round_trip, payload_arg, payload_tag, Route};

verus! {

/// What the button of a chapter shows: a fixed word, then the label of the chapter.
pub open spec fn chapter_label(label: Seq<char>) -> Seq<char> {
    "Глава: "@ + label
}

/// One button for each work that has an identifier, in the order of the
/// works: it shows the title and leads to the chapters of the work.
pub open spec fn work_buttons(works: Seq<MangaView>) -> Seq<ButtonView>
    decreases works.len(),
{
    if works.len() == 0 {
        Seq::empty()
    } else {
        let before = work_buttons(works.drop_last());
        match works.last().id {
            Some(id) => before.push(button_to(works.last().title, Route::ViewWork(id))),
            None => before,
        }
    }
}

/// One button for each chapter that has an identifier, in the order of the
/// chapters: it shows the label and leads to the chapter.
pub open spec fn chapter_buttons(chapters: Seq<ChapterView>) -> Seq<ButtonView>
    decreases chapters.len(),
{
    if chapters.len() == 0 {
        Seq::empty()
    } else {
        let before = chapter_buttons(chapters.drop_last());
        match chapters.last().id {
            Some(id) => before.push(
                button_to(chapter_label(chapters.last().chapter_id), Route::ViewChapter(id)),
            ),
            None => before,
        }
    }
}

/// The row under the list of works: the buttons of the works, then the
/// button that adds a work.
pub open spec fn catalogue_row(works: Seq<MangaView>) -> Seq<ButtonView> {
    work_buttons(works).push(button_to(Message::Add.text(), Route::AddWork))
}

/// The row under the chapters of the work `manga_id`: the buttons of the
/// chapters, then the button that adds a chapter to that work.
pub open spec fn chapters_row(manga_id: i32, chapters: Seq<ChapterView>) -> Seq<ButtonView> {
    chapter_buttons(chapters).push(button_to(Message::Add.text(), Route::AddChapter(manga_id)))
}

/// The keyboard of the catalog: under a work its chapters, else the works.
pub open spec fn keyboard(catalog: Catalog, book_id: Option<i32>) -> Result<
    Seq<Seq<ButtonView>>,
    Error,
> {
    match book_id {
        Some(id) => match catalog.chapters.listing_of(id) {
            Ok(chapters) => Ok(seq![chapters_row(id, chapters)]),
            Err(e) => Err(e),
        },
        None => match catalog.manga.listing() {
            Ok(works) => Ok(seq![catalogue_row(works)]),
            Err(e) => Err(e),
        },
    }
}

/// Whether a press of `button` is understood: its payload names a route.
pub open spec fn leads_somewhere(button: ButtonView) -> bool {
    Route::resolved(payload_tag(button.route), payload_arg(button.route)) is Ok
}

/// Every button under the list of works is understood when it is pressed.
pub proof fn lemma_catalogue_row_leads(works: Seq<MangaView>, i: int)
    requires
        0 <= i < catalogue_row(works).len(),
    ensures
        leads_somewhere(catalogue_row(works)[i]),
    decreases works.len(),
{
    lemma_route_round_trip(Route::AddWork);
    if i < work_buttons(works).len() {
        let before = work_buttons(works.drop_last());
        if i < before.len() {
            lemma_catalogue_row_leads(works.drop_last(), i);
        } else {
            lemma_route_round_trip(Route::ViewWork(works.last().id->0));
        }
    }
}

/// Every button under the chapters of a work is understood when it is pressed.
pub proof fn lemma_chapters_row_leads(manga_id: i32, chapters: Seq<ChapterView>, i: int)
    requires
        0 <= i < chapters_row(manga_id, chapters).len(),
    ensures
        leads_somewhere(chapters_row(manga_id, chapters)[i]),
    decreases chapters.len(),
{
    lemma_route_round_trip(Route::AddChapter(manga_id));
    if i < chapter_buttons(chapters).len() {
        let before = chapter_buttons(chapters.drop_last());
        if i < before.len() {
            lemma_chapters_row_leads(manga_id, chapters.drop_last(), i);
        } else {
            lemma_route_round_trip(Route::ViewChapter(chapters.last().id->0));
        }
    }
}

/// With no chapter the row under a work holds the add button alone.
pub proof fn lemma_no_chapters_row(manga_id: i32)
    ensures
        chapters_row(manga_id, Seq::empty()) == seq![
            button_to(Message::Add.text(), Route::AddChapter(manga_id)),
        ],
{
    assert(chapters_row(manga_id, Seq::empty()) =~= seq![
        button_to(Message::Add.text(), Route::AddChapter(manga_id)),
    ]);
}

/// Makes the row of buttons under the list of works.
pub fn work_keyboard(works: &Vec<Manga>) -> (r: Vec<Button>)
    ensures
        button_views(r@) == catalogue_row(manga_views(works@)),
{
    let ghost all = manga_views(works@);
    let mut row: Vec<Button> = Vec::new();
    let mut i: usize = 0;
    assert(button_views(row@) =~= work_buttons(all.take(0)));
    while i < works.len()
        invariant
            0 <= i <= works.len(),
            all == manga_views(works@),
            button_views(row@) == work_buttons(all.take(i as int)),
        decreases works.len() - i,
    {
        let work = &works[i];
        proof {
            assert(all[i as int] == work@);
            assert(all.take(i + 1).drop_last() =~= all.take(i as int));
        }
        match work.id {
            Some(id) => {
                let button = Button::to(work.title.clone(), Route::ViewWork(id));
                assert(button_views(row@.push(button)) =~= button_views(row@).push(button@));
                row.push(button);
            },
            None => {},
        }
        i += 1;
    }
    assert(all.take(i as int) =~= all);
    let add = Button::to(String::from_str(Message::Add.as_str()), Route::AddWork);
    assert(button_views(row@.push(add)) =~= button_views(row@).push(add@));
    row.push(add);
    row
}

/// Makes the row of buttons under the chapters of the work `manga_id`.
pub fn chapter_keyboard(manga_id: i32, chapters: &Vec<Chapter>) -> (r: Vec<Button>)
    ensures
        button_views(r@) == chapters_row(manga_id, chapter_views(chapters@)),
{
    let ghost all = chapter_views(chapters@);
    let mut row: Vec<Button> = Vec::new();
    let mut i: usize = 0;
    assert(button_views(row@) =~= chapter_buttons(all.take(0)));
    while i < chapters.len()
        invariant
            0 <= i <= chapters.len(),
            all == chapter_views(chapters@),
            button_views(row@) == chapter_buttons(all.take(i as int)),
        decreases chapters.len() - i,
    {
        let chapter = &chapters[i];
        proof {
            assert(all[i as int] == chapter@);
            assert(all.take(i + 1).drop_last() =~= all.take(i as int));
        }
        match chapter.id {
            Some(id) => {
                let mut label = String::from_str("Глава: ");
                label.append(chapter.chapter_id.as_str());
                let button = Button::to(label, Route::ViewChapter(id));
                assert(button_views(row@.push(button)) =~= button_views(row@).push(button@));
                row.push(button);
            },
            None => {},
        }
        i += 1;
    }
    assert(all.take(i as int) =~= all);
    let add = Button::to(String::from_str(Message::Add.as_str()), Route::AddChapter(manga_id));
    assert(button_views(row@.push(add)) =~= button_views(row@).push(add@));
    row.push(add);
    row
}

/// Makes the keyboard of the catalog: under the work `book_id` its
/// chapters, and with no work the list of works.
pub fn catalog_keyboard(db: &DatabaseConnection, book_id: Option<i32>) -> (r: Result<
    Vec<Vec<Button>>,
    Error,
>)
    ensures
        (match r {
            Ok(rows) => Ok::<Seq<Seq<ButtonView>>, Error>(row_views(rows@)),
            Err(e) => Err::<Seq<Seq<ButtonView>>, Error>(e),
        }) == keyboard(db@, book_id),
{
    let row = match book_id {
        Some(id) => match db.chapters.list_by_manga_id(id) {
            Ok(chapters) => chapter_keyboard(id, &chapters),
            Err(e) => {
                return Err(e);
            },
        },
        None => match db.manga.list() {
            Ok(works) => work_keyboard(&works),
            Err(e) => {
                return Err(e);
            },
        },
    };
    let mut rows: Vec<Vec<Button>> = Vec::new();
    let ghost views = button_views(row@);
    rows.push(row);
    assert(row_views(rows@) =~= seq![views]);
    Ok(rows)
}

} // verus!
