//! The engine: takes an event, moves the session, carries out on the
//! catalog what the dialogue asks, and gives the reply.

use vstd::prelude::*;
use crate::chapter::{chapter_of, lemma_chapter_insert_then_get, ChapterView};
use crate::database::{Catalog, DatabaseConnection};
use crate::error::Error;
use crate::keyboard::lemma_no_chapters_row;
use crate::manga::{lemma_manga_insert_then_get, lemma_manga_delete_removes, MangaView};
use crate::message::Message;
use crate::reply::button_to;
use crate::route::Route;
use crate::seqs::lemma_filter_keeps_none;
use crate::dialogue::{Action, ActionView, Request, RequestView};
use crate::reply::{Reply, ReplyView};
use crate::respond::{catalogue, catalogue_reply, chapter_added, chapter_added_reply, chapter_list, chapter_page, chapter_reply, chapters_reply, work_added, work_added_reply, work_deleted, work_deleted_reply};
use crate::session::{action_for, advanced, SessionStore};
use crate::state::InboundEvent;

verus! {

/// The catalog after `request` was carried out on it.
pub open spec fn catalog_after(catalog: Catalog, request: RequestView) -> Catalog {
    match request {
        RequestView::InsertManga(draft) => Catalog { manga: catalog.manga.inserted(draft), ..catalog },
        RequestView::InsertChapter(draft) => Catalog {
            chapters: catalog.chapters.inserted(draft),
            ..catalog
        },
        RequestView::DeleteManga { id } => Catalog { manga: catalog.manga.deleted(id), ..catalog },
        _ => catalog,
    }
}

/// The reply that carrying out `request` on `catalog` makes.
pub open spec fn reply_to(catalog: Catalog, request: RequestView) -> ReplyView {
    match request {
        RequestView::InsertManga(_) => work_added_reply(catalog.manga.insert_result()),
        RequestView::InsertChapter(draft) => chapter_added_reply(
            draft.chapter_id,
            catalog.chapters.insert_result(),
        ),
        RequestView::ListManga => catalogue_reply(catalog.manga.listing()),
        RequestView::ListChapters { manga_id } => chapters_reply(
            manga_id,
            catalog.chapters.listing_of(manga_id),
        ),
        RequestView::GetChapter { id } => chapter_reply(id, catalog.chapters.lookup(id)),
        RequestView::DeleteManga { id } => work_deleted_reply(catalog.manga.status()),
    }
}

/// What taking an event comes to: the reply, and the request that was
/// carried out on the catalog, if there was one.
#[derive(Debug, PartialEq, Eq)]
pub struct Handled {
    pub reply: Reply,
    pub effect: Option<Request>,
}

/// The request that an action carries, if it carries one.
pub open spec fn effect_of(action: ActionView) -> Option<RequestView> {
    match action {
        ActionView::Reply(_) => None,
        ActionView::Request(request) => Some(request),
    }
}

/// The catalog after `action`.
pub open spec fn catalog_through(catalog: Catalog, action: ActionView) -> Catalog {
    match action {
        ActionView::Reply(_) => catalog,
        ActionView::Request(request) => catalog_after(catalog, request),
    }
}

/// The reply that `action` comes to on `catalog`.
pub open spec fn reply_through(catalog: Catalog, action: ActionView) -> ReplyView {
    match action {
        ActionView::Reply(reply) => reply,
        ActionView::Request(request) => reply_to(catalog, request),
    }
}

/// Carries out a request on the catalog and makes the reply of its outcome.
/// A failure of the store becomes a reply; it is never passed on.
pub fn perform(db: &mut DatabaseConnection, request: Request) -> (r: Reply)
    requires
        old(db)@.wf(),
    ensures
        final(db)@.wf(),
        final(db)@ == catalog_after(old(db)@, request@),
        r@ == reply_to(old(db)@, request@),
{
    match request {
        Request::InsertManga(draft) => {
            let result = db.manga.insert(draft);
            work_added(result)
        },
        Request::InsertChapter(draft) => {
            let label = draft.chapter_id.clone();
            let result = db.chapters.insert(draft);
            chapter_added(label.as_str(), result)
        },
        Request::ListManga => {
            let result = db.manga.list();
            catalogue(&result)
        },
        Request::ListChapters { manga_id } => {
            let result = db.chapters.list_by_manga_id(manga_id);
            chapter_list(manga_id, &result)
        },
        Request::GetChapter { id } => {
            let result = db.chapters.get_by_id(id);
            chapter_page(id, &result)
        },
        Request::DeleteManga { id } => {
            let result = db.manga.delete(id);
            work_deleted(result)
        },
    }
}

/// Takes one event: moves the session of its conversation, carries out on
/// the catalog what the dialogue asks, and gives the reply.
pub fn handle(sessions: &mut SessionStore, db: &mut DatabaseConnection, event: &InboundEvent) -> (r:
    Handled)
    requires
        old(db)@.wf(),
    ensures
        final(db)@.wf(),
        final(sessions)@ == advanced(old(sessions)@, event@),
        final(db)@ == catalog_through(old(db)@, action_for(old(sessions)@, event@)),
        r.reply@ == reply_through(old(db)@, action_for(old(sessions)@, event@)),
        (match r.effect {
            Some(request) => Some(request@),
            None => None,
        }) == effect_of(action_for(old(sessions)@, event@)),
{
    match sessions.advance(event) {
        Action::Reply(reply) => Handled { reply, effect: None },
        Action::Request(request) => {
            let effect = request.clone();
            let reply = perform(db, request);
            Handled { reply, effect: Some(effect) }
        },
    }
}

/// A work that was just inserted has no chapters, and the list under it
/// shows the add button alone. This holds where no chapter already names the
/// identifier that the insert hands out: the catalog does not check that the
/// work of a chapter exists.
pub proof fn lemma_fresh_work_has_no_chapters(catalog: Catalog, draft: MangaView, id: i32)
    requires
        catalog.wf(),
        catalog.chapters.created,
        catalog.manga.insert_result() == Ok::<i32, Error>(id),
        forall|i: int|
            0 <= i < catalog.chapters.rows.len() ==> (#[trigger] catalog.chapters.rows[i]).manga_id
                != id,
    ensures
        catalog_after(catalog, RequestView::InsertManga(draft)).chapters.listing_of(id) == Ok::<
            Seq<ChapterView>,
            Error,
        >(Seq::empty()),
        reply_to(
            catalog_after(catalog, RequestView::InsertManga(draft)),
            RequestView::ListChapters { manga_id: id },
        ) == (ReplyView {
            text: Message::Chapters.text(),
            buttons: seq![seq![button_to(Message::Add.text(), Route::AddChapter(id))]],
        }),
{
    lemma_filter_keeps_none(catalog.chapters.rows, chapter_of(id));
    lemma_no_chapters_row(id);
}

/// Carrying out a request keeps the catalog well formed.
pub proof fn lemma_catalog_after_wf(catalog: Catalog, request: RequestView)
    requires
        catalog.wf(),
    ensures
        catalog_after(catalog, request).wf(),
{
    match request {
        RequestView::InsertManga(draft) => {
            lemma_manga_insert_then_get(catalog.manga, draft);
        },
        RequestView::InsertChapter(draft) => {
            lemma_chapter_insert_then_get(catalog.chapters, draft);
        },
        RequestView::DeleteManga { id } => {
            lemma_manga_delete_removes(catalog.manga, id);
        },
        _ => {},
    }
}

/// Deleting a work leaves its chapters in the catalog.
pub proof fn lemma_delete_keeps_chapters(catalog: Catalog, id: i32)
    ensures
        catalog_after(catalog, RequestView::DeleteManga { id }).chapters == catalog.chapters,
{
}

} // verus!
