//! Chapters: the entries that belong to a work, and the table that keeps them.

use vstd::prelude::*;
use crate::error::Error;
use crate::seqs::{lemma_filter_drops_one, lemma_filter_keeps_all, lemma_filter_push, lemma_filter_twice};

verus! {

/// A chapter of a work.
#[derive(Debug, PartialEq, Eq)]
pub struct Chapter {
    /// Assigned by the table when the chapter is stored; `None` before that.
    pub id: Option<i32>,
    /// The work that the chapter belongs to.
    pub manga_id: i32,
    /// Who registered the chapter.
    pub translator_id: i32,
    /// The label of the chapter: its number or name, as free text.
    pub chapter_id: String,
    /// Where the chapter can be read.
    pub link: String,
}

/// A chapter as a mathematical value.
#[verifier::ext_equal]
pub struct ChapterView {
    pub id: Option<i32>,
    pub manga_id: i32,
    pub translator_id: i32,
    pub chapter_id: Seq<char>,
    pub link: Seq<char>,
}

impl View for Chapter {
    type V = ChapterView;

    open spec fn view(&self) -> ChapterView {
        ChapterView {
            id: self.id,
            manga_id: self.manga_id,
            translator_id: self.translator_id,
            chapter_id: self.chapter_id@,
            link: self.link@,
        }
    }
}

impl Clone for Chapter {
    fn clone(&self) -> (r: Self)
        ensures
            r == *self,
    {
        Chapter {
            id: self.id,
            manga_id: self.manga_id,
            translator_id: self.translator_id,
            chapter_id: self.chapter_id.clone(),
            link: self.link.clone(),
        }
    }
}

/// The chapters of a sequence, each as a mathematical value.
pub open spec fn chapter_views(chapters: Seq<Chapter>) -> Seq<ChapterView> {
    chapters.map_values(|c: Chapter| c@)
}

/// Holds of the chapters whose identifier is not `id`.
pub open spec fn chapter_other_than(id: i32) -> spec_fn(ChapterView) -> bool {
    |row: ChapterView| row.id != Some(id)
}

/// Holds of the chapters that belong to the work `manga_id`.
pub open spec fn chapter_of(manga_id: i32) -> spec_fn(ChapterView) -> bool {
    |row: ChapterView| row.manga_id == manga_id
}

/// The table of chapters as a mathematical value.
#[verifier::ext_equal]
pub struct ChapterTable {
    /// Whether the table has been created in the store.
    pub created: bool,
    /// The rows, in the order in which they were inserted.
    pub rows: Seq<ChapterView>,
    /// The last identifier that the table handed out; zero if it never did.
    pub last_id: int,
}

impl ChapterTable {
    /// What holds of every table: each row carries its own identifier, the
    /// identifiers grow along the rows, and none exceeds the last one handed out.
    pub open spec fn wf(self) -> bool {
        &&& 0 <= self.last_id <= i32::MAX
        &&& !self.created ==> self.rows.len() == 0
        &&& forall|i: int|
            0 <= i < self.rows.len() ==> (#[trigger] self.rows[i]).id is Some && 1
                <= self.rows[i].id->0 <= self.last_id
        &&& forall|i: int, j: int|
            0 <= i < j < self.rows.len() ==> (#[trigger] self.rows[i]).id->0 < (
            #[trigger] self.rows[j]).id->0
    }

    /// Whether some row has the identifier `id`.
    pub open spec fn has(self, id: i32) -> bool {
        exists|i: int| 0 <= i < self.rows.len() && (#[trigger] self.rows[i]).id == Some(id)
    }

    /// Whether the table can take one more row.
    pub open spec fn can_insert(self) -> bool {
        self.created && self.last_id < i32::MAX
    }

    /// The row that `draft` becomes when the table stores it.
    pub open spec fn stored(self, draft: ChapterView) -> ChapterView {
        ChapterView { id: Some((self.last_id + 1) as i32), ..draft }
    }

    /// The table after an insert of `draft`: unchanged where it cannot take the row.
    pub open spec fn inserted(self, draft: ChapterView) -> ChapterTable {
        if self.can_insert() {
            ChapterTable {
                rows: self.rows.push(self.stored(draft)),
                last_id: self.last_id + 1,
                ..self
            }
        } else {
            self
        }
    }

    /// What an insert returns: the new identifier, or a storage error where
    /// the table is missing or has no identifier left.
    pub open spec fn insert_result(self) -> Result<i32, Error> {
        if self.can_insert() {
            Ok((self.last_id + 1) as i32)
        } else {
            Err(Error::Storage)
        }
    }

    /// The row that has the identifier `id`, where `has(id)` holds.
    pub open spec fn row(self, id: i32) -> ChapterView {
        let i = choose|i: int| 0 <= i < self.rows.len() && (#[trigger] self.rows[i]).id == Some(id);
        self.rows[i]
    }

    /// What a lookup of `id` returns: the row with that identifier, `NotFound`
    /// where no row has it, a storage error where the table is missing.
    pub open spec fn lookup(self, id: i32) -> Result<ChapterView, Error> {
        if !self.created {
            Err(Error::Storage)
        } else if self.has(id) {
            Ok(self.row(id))
        } else {
            Err(Error::NotFound)
        }
    }

    /// What a listing returns: every row, in the order of insertion.
    pub open spec fn listing(self) -> Result<Seq<ChapterView>, Error> {
        if self.created {
            Ok(self.rows)
        } else {
            Err(Error::Storage)
        }
    }

    /// What a listing of the work `manga_id` returns: the rows that belong to
    /// it, in the order of insertion; none where it has no chapter.
    pub open spec fn listing_of(self, manga_id: i32) -> Result<Seq<ChapterView>, Error> {
        if self.created {
            Ok(self.rows.filter(chapter_of(manga_id)))
        } else {
            Err(Error::Storage)
        }
    }

    /// The table once it has been created: unchanged if it already was.
    pub open spec fn with_table(self) -> ChapterTable {
        ChapterTable { created: true, ..self }
    }

    /// The table after a delete of `id`: the same rows without those that have that identifier.
    pub open spec fn deleted(self, id: i32) -> ChapterTable {
        ChapterTable { rows: self.rows.filter(chapter_other_than(id)), ..self }
    }

    /// What a statement returns that only needs the table to exist.
    pub open spec fn status(self) -> Result<(), Error> {
        if self.created {
            Ok(())
        } else {
            Err(Error::Storage)
        }
    }
}

/// The table of chapters.
pub struct ChapterRepository {
    created: bool,
    rows: Vec<Chapter>,
    last_id: i32,
    chapter: Option<Chapter>,
}

impl View for ChapterRepository {
    type V = ChapterTable;

    closed spec fn view(&self) -> ChapterTable {
        ChapterTable {
            created: self.created,
            rows: chapter_views(self.rows@),
            last_id: self.last_id as int,
        }
    }
}

impl ChapterRepository {
    /// The chapter that is held ready for `push`, if any.
    pub closed spec fn staged(&self) -> Option<ChapterView> {
        match self.chapter {
            Some(m) => Some(m@),
            None => None,
        }
    }

    /// A repository whose table has not been created yet.
    pub fn init() -> (r: Self)
        ensures
            r@ == (ChapterTable { created: false, rows: Seq::empty(), last_id: 0 }),
            r@.wf(),
            r.staged() is None,
    {
        let r = ChapterRepository { created: false, rows: Vec::new(), last_id: 0, chapter: None };
        assert(r@.rows =~= Seq::empty());
        r
    }

    /// Stores `draft` as a new row under the next identifier and returns that
    /// identifier. The identifier that `draft` carries is not used.
    pub fn insert(&mut self, draft: Chapter) -> (r: Result<i32, Error>)
        requires
            old(self)@.wf(),
        ensures
            final(self)@.wf(),
            final(self)@ == old(self)@.inserted(draft@),
            final(self).staged() == old(self).staged(),
            r == old(self)@.insert_result(),
    {
        if !self.created || self.last_id == i32::MAX {
            return Err(Error::Storage);
        }
        let id = self.last_id + 1;
        let row = Chapter {
            id: Some(id),
            manga_id: draft.manga_id,
            translator_id: draft.translator_id,
            chapter_id: draft.chapter_id,
            link: draft.link,
        };
        proof {
            assert(row@ == old(self)@.stored(draft@));
            assert(chapter_views(self.rows@.push(row)) =~= chapter_views(self.rows@).push(row@));
        }
        self.last_id = id;
        self.rows.push(row);
        Ok(id)
    }

    /// Creates the table if the store does not have it yet.
    pub fn create_table(&mut self)
        requires
            old(self)@.wf(),
        ensures
            final(self)@.wf(),
            final(self)@ == old(self)@.with_table(),
            final(self).staged() == old(self).staged(),
    {
        self.created = true;
    }

    /// Holds a new draft ready for `push`.
    pub fn new(&mut self, manga_id: i32, translator_id: i32, chapter_id: String, link: String)
        ensures
            final(self)@ == old(self)@,
            final(self).staged() == Some(
                ChapterView {
                    id: None,
                    manga_id,
                    translator_id,
                    chapter_id: chapter_id@,
                    link: link@,
                },
            ),
    {
        self.chapter = Some(Chapter { id: None, manga_id, translator_id, chapter_id, link });
    }

    /// The chapter that is held ready.
    pub fn get(&self) -> (r: &Chapter)
        requires
            self.staged() is Some,
        ensures
            Some(r@) == self.staged(),
    {
        self.chapter.as_ref().unwrap()
    }

    /// Holds `chapter` ready for `push`.
    pub fn set(&mut self, chapter: Chapter)
        ensures
            final(self)@ == old(self)@,
            final(self).staged() == Some(chapter@),
    {
        self.chapter = Some(chapter);
    }

    /// Inserts the chapter that is held ready, and keeps holding it.
    pub fn push(&mut self) -> (r: Result<i32, Error>)
        requires
            old(self)@.wf(),
            old(self).staged() is Some,
        ensures
            final(self)@.wf(),
            final(self)@ == old(self)@.inserted(old(self).staged()->0),
            final(self).staged() == old(self).staged(),
            r == old(self)@.insert_result(),
    {
        let draft = self.get().clone();
        self.insert(draft)
    }

    /// The row with the identifier `id`.
    pub fn get_by_id(&self, id: i32) -> (r: Result<Chapter, Error>)
        requires
            self@.wf(),
        ensures
            (match r {
                Ok(m) => Ok::<ChapterView, Error>(m@),
                Err(e) => Err::<ChapterView, Error>(e),
            }) == self@.lookup(id),
    {
        if !self.created {
            return Err(Error::Storage);
        }
        let mut i: usize = 0;
        while i < self.rows.len()
            invariant
                0 <= i <= self.rows.len(),
                self@.wf(),
                forall|j: int| 0 <= j < i ==> (#[trigger] self@.rows[j]).id != Some(id),
            decreases self.rows.len() - i,
        {
            let row = &self.rows[i];
            assert(self@.rows[i as int] == row@);
            if row.id == Some(id) {
                return Ok(row.clone());
            }
            i += 1;
        }
        Err(Error::NotFound)
    }

    /// Removes the row with the identifier `id`. Where no row has it, nothing changes.
    pub fn delete(&mut self, id: i32) -> (r: Result<(), Error>)
        requires
            old(self)@.wf(),
        ensures
            final(self)@.wf(),
            final(self)@ == old(self)@.deleted(id),
            final(self).staged() == old(self).staged(),
            r == old(self)@.status(),
    {
        if !self.created {
            proof {
                lemma_filter_keeps_all(self@.rows, chapter_other_than(id));
            }
            return Err(Error::Storage);
        }
        let mut i: usize = 0;
        while i < self.rows.len()
            invariant
                0 <= i <= self.rows.len(),
                self@.wf(),
                *self == *old(self),
                forall|j: int| 0 <= j < i ==> (#[trigger] self@.rows[j]).id != Some(id),
            decreases self.rows.len() - i,
        {
            assert(self@.rows[i as int] == self.rows[i as int]@);
            if self.rows[i].id == Some(id) {
                proof {
                    let rows = self@.rows;
                    assert forall|j: int| 0 <= j < rows.len() && j != i implies chapter_other_than(id)(
                        #[trigger] rows[j],
                    ) by {
                        if j > i {
                            assert(rows[i as int].id->0 < rows[j].id->0);
                        }
                    }
                    lemma_filter_drops_one(rows, chapter_other_than(id), i as int);
                    assert(chapter_views(self.rows@.remove(i as int)) =~= rows.remove(i as int));
                }
                self.rows.remove(i);
                return Ok(());
            }
            i += 1;
        }
        proof {
            lemma_filter_keeps_all(self@.rows, chapter_other_than(id));
        }
        Ok(())
    }

    /// Every row, in the order of insertion.
    pub fn list(&self) -> (r: Result<Vec<Chapter>, Error>)
        ensures
            (match r {
                Ok(chapters) => Ok::<Seq<ChapterView>, Error>(chapter_views(chapters@)),
                Err(e) => Err::<Seq<ChapterView>, Error>(e),
            }) == self@.listing(),
    {
        if !self.created {
            return Err(Error::Storage);
        }
        let mut chapters: Vec<Chapter> = Vec::new();
        let mut i: usize = 0;
        while i < self.rows.len()
            invariant
                0 <= i <= self.rows.len(),
                chapter_views(chapters@) == self@.rows.take(i as int),
            decreases self.rows.len() - i,
        {
            let row = self.rows[i].clone();
            proof {
                assert(self@.rows[i as int] == row@);
                assert(chapter_views(chapters@.push(row)) =~= chapter_views(chapters@).push(row@));
                assert(self@.rows.take(i + 1) =~= self@.rows.take(i as int).push(row@));
            }
            chapters.push(row);
            i += 1;
        }
        assert(self@.rows.take(i as int) =~= self@.rows);
        Ok(chapters)
    }

    /// The rows that belong to the work `id`, in the order of insertion.
    pub fn list_by_manga_id(&self, id: i32) -> (r: Result<Vec<Chapter>, Error>)
        ensures
            (match r {
                Ok(chapters) => Ok::<Seq<ChapterView>, Error>(chapter_views(chapters@)),
                Err(e) => Err::<Seq<ChapterView>, Error>(e),
            }) == self@.listing_of(id),
    {
        if !self.created {
            return Err(Error::Storage);
        }
        let mut chapters: Vec<Chapter> = Vec::new();
        let mut i: usize = 0;
        proof {
            assert(self@.rows.take(0) =~= Seq::<ChapterView>::empty());
            reveal(Seq::filter);
            assert(chapter_views(chapters@) =~= self@.rows.take(0).filter(chapter_of(id)));
        }
        while i < self.rows.len()
            invariant
                0 <= i <= self.rows.len(),
                chapter_views(chapters@) == self@.rows.take(i as int).filter(chapter_of(id)),
            decreases self.rows.len() - i,
        {
            let row = &self.rows[i];
            proof {
                assert(self@.rows[i as int] == row@);
                assert(self@.rows.take(i + 1) =~= self@.rows.take(i as int).push(row@));
                lemma_filter_push(self@.rows.take(i as int), row@, chapter_of(id));
            }
            if row.manga_id == id {
                let copy = row.clone();
                proof {
                    assert(chapter_views(chapters@.push(copy)) =~= chapter_views(chapters@).push(
                        copy@,
                    ));
                }
                chapters.push(copy);
            }
            i += 1;
        }
        assert(self@.rows.take(i as int) =~= self@.rows);
        Ok(chapters)
    }
}

/// A delete keeps the table well formed and leaves no row with the
/// identifier: a lookup of it no longer finds anything.
pub proof fn lemma_chapter_delete_removes(table: ChapterTable, id: i32)
    requires
        table.wf(),
    ensures
        table.deleted(id).wf(),
        !table.deleted(id).has(id),
        table.deleted(id).lookup(id) is Err,
{
    lemma_chapter_deleted(table, id);
}

/// In a well-formed table the row at `i` is the only one with its identifier.
pub proof fn lemma_chapter_row_unique(table: ChapterTable, id: i32, i: int)
    requires
        table.wf(),
        0 <= i < table.rows.len(),
        table.rows[i].id == Some(id),
    ensures
        table.has(id),
        table.row(id) == table.rows[i],
{
    let j = choose|j: int| 0 <= j < table.rows.len() && (#[trigger] table.rows[j]).id == Some(id);
    if j < i {
        assert(table.rows[j].id->0 < table.rows[i].id->0);
    } else if i < j {
        assert(table.rows[i].id->0 < table.rows[j].id->0);
    }
}

/// What a delete leaves: the rows with another identifier, in their order.
proof fn lemma_chapter_deleted(table: ChapterTable, id: i32)
    requires
        table.wf(),
    ensures
        table.deleted(id).wf(),
        !table.deleted(id).has(id),
        table.has(id) || table.deleted(id) == table,
        table.has(id) ==> exists|i: int|
            0 <= i < table.rows.len() && (#[trigger] table.rows[i]).id == Some(id)
                && table.deleted(id).rows == table.rows.remove(i),
{
    let p = chapter_other_than(id);
    if table.has(id) {
        let i = choose|i: int| 0 <= i < table.rows.len() && (#[trigger] table.rows[i]).id == Some(id);
        assert forall|j: int| 0 <= j < table.rows.len() && j != i implies p(#[trigger] table.rows[j]) by {
            if j > i {
                assert(table.rows[i].id->0 < table.rows[j].id->0);
            } else {
                assert(table.rows[j].id->0 < table.rows[i].id->0);
            }
        }
        lemma_filter_drops_one(table.rows, p, i);
        let rest = table.rows.remove(i);
        assert forall|a: int, b: int| 0 <= a < b < rest.len() implies (#[trigger] rest[a]).id->0 < (
        #[trigger] rest[b]).id->0 by {
            let a0 = if a < i { a } else { a + 1 };
            let b0 = if b < i { b } else { b + 1 };
            assert(rest[a] == table.rows[a0]);
            assert(rest[b] == table.rows[b0]);
        }
        assert forall|a: int| 0 <= a < rest.len() implies (#[trigger] rest[a]).id is Some && 1
            <= rest[a].id->0 <= table.last_id && rest[a].id != Some(id) by {
            let a0 = if a < i { a } else { a + 1 };
            assert(rest[a] == table.rows[a0]);
        }
    } else {
        lemma_filter_keeps_all(table.rows, p);
    }
}

/// A chapter that was just inserted is found under the identifier that the
/// insert returned, with every field of the draft but the identifier.
pub proof fn lemma_chapter_insert_then_get(table: ChapterTable, draft: ChapterView)
    requires
        table.wf(),
    ensures
        table.inserted(draft).wf(),
        table.insert_result() matches Ok(id) ==> table.inserted(draft).lookup(id) == Ok::<
            ChapterView,
            Error,
        >(ChapterView { id: Some(id), ..draft }),
{
    if table.can_insert() {
        let after = table.inserted(draft);
        let id = (table.last_id + 1) as i32;
        let last = after.rows.len() - 1;
        assert(after.rows[last] == table.stored(draft));
        assert(after.has(id));
        let i = choose|i: int| 0 <= i < after.rows.len() && (#[trigger] after.rows[i]).id == Some(id);
        if i != last {
            assert(after.rows[i] == table.rows[i]);
        }
    }
}

/// A delete changes the lookup of no other identifier.
pub proof fn lemma_chapter_delete_spares(table: ChapterTable, id: i32, other: i32)
    requires
        table.wf(),
        other != id,
    ensures
        table.deleted(id).lookup(other) == table.lookup(other),
{
    lemma_chapter_deleted(table, id);
    let after = table.deleted(id);
    if table.has(id) {
        let i = choose|i: int|
            0 <= i < table.rows.len() && (#[trigger] table.rows[i]).id == Some(id) && after.rows
                == table.rows.remove(i);
        if table.has(other) {
            let k = choose|k: int|
                0 <= k < table.rows.len() && (#[trigger] table.rows[k]).id == Some(other);
            let k1 = if k < i { k } else { k - 1 };
            assert(after.rows[k1] == table.rows[k]);
            lemma_chapter_row_unique(after, other, k1);
            lemma_chapter_row_unique(table, other, k);
        }
        if after.has(other) {
            let k = choose|k: int|
                0 <= k < after.rows.len() && (#[trigger] after.rows[k]).id == Some(other);
            let k0 = if k < i { k } else { k + 1 };
            assert(after.rows[k] == table.rows[k0]);
            lemma_chapter_row_unique(table, other, k0);
        }
    }
}

/// An insert changes the lookup of no identifier but the one that it hands out.
pub proof fn lemma_chapter_insert_spares(table: ChapterTable, draft: ChapterView, other: i32)
    requires
        table.wf(),
        table.insert_result() != Ok::<i32, Error>(other),
    ensures
        table.inserted(draft).lookup(other) == table.lookup(other),
{
    lemma_chapter_insert_then_get(table, draft);
    if table.can_insert() {
        let after = table.inserted(draft);
        if table.has(other) {
            let k = choose|k: int|
                0 <= k < table.rows.len() && (#[trigger] table.rows[k]).id == Some(other);
            assert(after.rows[k] == table.rows[k]);
            lemma_chapter_row_unique(after, other, k);
            lemma_chapter_row_unique(table, other, k);
        }
        if after.has(other) {
            let k = choose|k: int|
                0 <= k < after.rows.len() && (#[trigger] after.rows[k]).id == Some(other);
            assert(k < table.rows.len());
            assert(after.rows[k] == table.rows[k]);
            lemma_chapter_row_unique(table, other, k);
        }
    }
}

/// Deleting the same identifier a second time succeeds whenever the first
/// delete did, and changes nothing.
pub proof fn lemma_chapter_delete_twice(table: ChapterTable, id: i32)
    ensures
        table.deleted(id).status() == table.status(),
        table.deleted(id).deleted(id) == table.deleted(id),
{
    lemma_filter_twice(table.rows, chapter_other_than(id));
}

} // verus!
