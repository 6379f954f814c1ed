//! Works: the top-level entries of the catalog, and the table that keeps them.

use vstd::prelude::*;
use crate::error::Error;
use crate::kind::BookType;
use crate::seqs::{lemma_filter_drops_one, lemma_filter_keeps_all, lemma_filter_twice};

verus! {

/// A work of the catalog.
#[derive(Debug, PartialEq, Eq)]
pub struct Manga {
    /// Assigned by the table when the work is stored; `None` before that.
    pub id: Option<i32>,
    pub kind: BookType,
    pub title: String,
    pub description: String,
    /// Reference to the cover image.
    pub img: String,
}

/// A work as a mathematical value.
#[verifier::ext_equal]
pub struct MangaView {
    pub id: Option<i32>,
    pub kind: BookType,
    pub title: Seq<char>,
    pub description: Seq<char>,
    pub img: Seq<char>,
}

impl View for Manga {
    type V = MangaView;

    open spec fn view(&self) -> MangaView {
        MangaView {
            id: self.id,
            kind: self.kind,
            title: self.title@,
            description: self.description@,
            img: self.img@,
        }
    }
}

impl Clone for Manga {
    fn clone(&self) -> (r: Self)
        ensures
            r == *self,
    {
        Manga {
            id: self.id,
            kind: self.kind,
            title: self.title.clone(),
            description: self.description.clone(),
            img: self.img.clone(),
        }
    }
}

/// The works of a sequence, each as a mathematical value.
pub open spec fn manga_views(works: Seq<Manga>) -> Seq<MangaView> {
    works.map_values(|m: Manga| m@)
}

/// Holds of the works whose identifier is not `id`.
pub open spec fn manga_other_than(id: i32) -> spec_fn(MangaView) -> bool {
    |row: MangaView| row.id != Some(id)
}

/// The table of works as a mathematical value.
#[verifier::ext_equal]
pub struct MangaTable {
    /// Whether the table has been created in the store.
    pub created: bool,
    /// The rows, in the order in which they were inserted.
    pub rows: Seq<MangaView>,
    /// The last identifier that the table handed out; zero if it never did.
    pub last_id: int,
}

impl MangaTable {
    /// What holds of every table: each row carries its own identifier, the
    /// identifiers grow along the rows, and none exceeds the last one handed out.
    pub open spec fn wf(self) -> bool {
        &&& 0 <= self.last_id <= i32::MAX
        &&& !self.created ==> self.rows.len() == 0
        &&& forall|i: int|
            0 <= i < self.rows.len() ==> (#[trigger] self.rows[i]).id is Some && 1
                <= self.rows[i].id->0 <= self.last_id
        &&& forall|i: int, j: int|
            0 <= i < j < self.rows.len() ==> (#[trigger] self.rows[i]).id->0 < (
            #[trigger] self.rows[j]).id->0
    }

    /// Whether some row has the identifier `id`.
    pub open spec fn has(self, id: i32) -> bool {
        exists|i: int| 0 <= i < self.rows.len() && (#[trigger] self.rows[i]).id == Some(id)
    }

    /// Whether the table can take one more row.
    pub open spec fn can_insert(self) -> bool {
        self.created && self.last_id < i32::MAX
    }

    /// The row that `draft` becomes when the table stores it.
    pub open spec fn stored(self, draft: MangaView) -> MangaView {
        MangaView { id: Some((self.last_id + 1) as i32), ..draft }
    }

    /// The table after an insert of `draft`: unchanged where it cannot take the row.
    pub open spec fn inserted(self, draft: MangaView) -> MangaTable {
        if self.can_insert() {
            MangaTable {
                rows: self.rows.push(self.stored(draft)),
                last_id: self.last_id + 1,
                ..self
            }
        } else {
            self
        }
    }

    /// What an insert returns: the new identifier, or a storage error where
    /// the table is missing or has no identifier left.
    pub open spec fn insert_result(self) -> Result<i32, Error> {
        if self.can_insert() {
            Ok((self.last_id + 1) as i32)
        } else {
            Err(Error::Storage)
        }
    }

    /// The row that has the identifier `id`, where `has(id)` holds.
    pub open spec fn row(self, id: i32) -> MangaView {
        let i = choose|i: int| 0 <= i < self.rows.len() && (#[trigger] self.rows[i]).id == Some(id);
        self.rows[i]
    }

    /// What a lookup of `id` returns: the row with that identifier, `NotFound`
    /// where no row has it, a storage error where the table is missing.
    pub open spec fn lookup(self, id: i32) -> Result<MangaView, Error> {
        if !self.created {
            Err(Error::Storage)
        } else if self.has(id) {
            Ok(self.row(id))
        } else {
            Err(Error::NotFound)
        }
    }

    /// What a listing returns: every row, in the order of insertion.
    pub open spec fn listing(self) -> Result<Seq<MangaView>, Error> {
        if self.created {
            Ok(self.rows)
        } else {
            Err(Error::Storage)
        }
    }

    /// The table once it has been created: unchanged if it already was.
    pub open spec fn with_table(self) -> MangaTable {
        MangaTable { created: true, ..self }
    }

    /// The table after a delete of `id`: the same rows without those that have that identifier.
    pub open spec fn deleted(self, id: i32) -> MangaTable {
        MangaTable { rows: self.rows.filter(manga_other_than(id)), ..self }
    }

    /// What a statement returns that only needs the table to exist.
    pub open spec fn status(self) -> Result<(), Error> {
        if self.created {
            Ok(())
        } else {
            Err(Error::Storage)
        }
    }
}

/// The table of works.
pub struct MangaRepository {
    created: bool,
    rows: Vec<Manga>,
    last_id: i32,
    manga: Option<Manga>,
}

impl View for MangaRepository {
    type V = MangaTable;

    closed spec fn view(&self) -> MangaTable {
        MangaTable {
            created: self.created,
            rows: manga_views(self.rows@),
            last_id: self.last_id as int,
        }
    }
}

impl MangaRepository {
    /// The work that is held ready for `push`, if any.
    pub closed spec fn staged(&self) -> Option<MangaView> {
        match self.manga {
            Some(m) => Some(m@),
            None => None,
        }
    }

    /// A repository whose table has not been created yet.
    pub fn init() -> (r: Self)
        ensures
            r@ == (MangaTable { created: false, rows: Seq::empty(), last_id: 0 }),
            r@.wf(),
            r.staged() is None,
    {
        let r = MangaRepository { created: false, rows: Vec::new(), last_id: 0, manga: None };
        assert(r@.rows =~= Seq::empty());
        r
    }

    /// Stores `draft` as a new row under the next identifier and returns that
    /// identifier. The identifier that `draft` carries is not used.
    pub fn insert(&mut self, draft: Manga) -> (r: Result<i32, Error>)
        requires
            old(self)@.wf(),
        ensures
            final(self)@.wf(),
            final(self)@ == old(self)@.inserted(draft@),
            final(self).staged() == old(self).staged(),
            r == old(self)@.insert_result(),
    {
        if !self.created || self.last_id == i32::MAX {
            return Err(Error::Storage);
        }
        let id = self.last_id + 1;
        let row = Manga {
            id: Some(id),
            kind: draft.kind,
            title: draft.title,
            description: draft.description,
            img: draft.img,
        };
        proof {
            assert(row@ == old(self)@.stored(draft@));
            assert(manga_views(self.rows@.push(row)) =~= manga_views(self.rows@).push(row@));
        }
        self.last_id = id;
        self.rows.push(row);
        Ok(id)
    }

    /// Creates the table if the store does not have it yet.
    pub fn create_table(&mut self)
        requires
            old(self)@.wf(),
        ensures
            final(self)@.wf(),
            final(self)@ == old(self)@.with_table(),
            final(self).staged() == old(self).staged(),
    {
        self.created = true;
    }

    /// Holds a new draft ready for `push`.
    pub fn new(&mut self, kind: BookType, title: String, description: String, img: String)
        ensures
            final(self)@ == old(self)@,
            final(self).staged() == Some(
                MangaView { id: None, kind, title: title@, description: description@, img: img@ },
            ),
    {
        self.manga = Some(Manga { id: None, kind, title, description, img });
    }

    /// The work that is held ready.
    pub fn get(&self) -> (r: &Manga)
        requires
            self.staged() is Some,
        ensures
            Some(r@) == self.staged(),
    {
        self.manga.as_ref().unwrap()
    }

    /// Holds `manga` ready for `push`.
    pub fn set(&mut self, manga: Manga)
        ensures
            final(self)@ == old(self)@,
            final(self).staged() == Some(manga@),
    {
        self.manga = Some(manga);
    }

    /// Inserts the work that is held ready, and keeps holding it.
    pub fn push(&mut self) -> (r: Result<i32, Error>)
        requires
            old(self)@.wf(),
            old(self).staged() is Some,
        ensures
            final(self)@.wf(),
            final(self)@ == old(self)@.inserted(old(self).staged()->0),
            final(self).staged() == old(self).staged(),
            r == old(self)@.insert_result(),
    {
        let draft = self.get().clone();
        self.insert(draft)
    }

    /// The row with the identifier `id`.
    pub fn get_by_id(&self, id: i32) -> (r: Result<Manga, Error>)
        requires
            self@.wf(),
        ensures
            (match r {
                Ok(m) => Ok::<MangaView, Error>(m@),
                Err(e) => Err::<MangaView, Error>(e),
            }) == self@.lookup(id),
    {
        if !self.created {
            return Err(Error::Storage);
        }
        let mut i: usize = 0;
        while i < self.rows.len()
            invariant
                0 <= i <= self.rows.len(),
                self@.wf(),
                forall|j: int| 0 <= j < i ==> (#[trigger] self@.rows[j]).id != Some(id),
            decreases self.rows.len() - i,
        {
            let row = &self.rows[i];
            assert(self@.rows[i as int] == row@);
            if row.id == Some(id) {
                return Ok(row.clone());
            }
            i += 1;
        }
        Err(Error::NotFound)
    }

    /// Removes the row with the identifier `id`. Where no row has it, nothing changes.
    pub fn delete(&mut self, id: i32) -> (r: Result<(), Error>)
        requires
            old(self)@.wf(),
        ensures
            final(self)@.wf(),
            final(self)@ == old(self)@.deleted(id),
            final(self).staged() == old(self).staged(),
            r == old(self)@.status(),
    {
        if !self.created {
            proof {
                lemma_filter_keeps_all(self@.rows, manga_other_than(id));
            }
            return Err(Error::Storage);
        }
        let mut i: usize = 0;
        while i < self.rows.len()
            invariant
                0 <= i <= self.rows.len(),
                self@.wf(),
                *self == *old(self),
                forall|j: int| 0 <= j < i ==> (#[trigger] self@.rows[j]).id != Some(id),
            decreases self.rows.len() - i,
        {
            assert(self@.rows[i as int] == self.rows[i as int]@);
            if self.rows[i].id == Some(id) {
                proof {
                    let rows = self@.rows;
                    assert forall|j: int| 0 <= j < rows.len() && j != i implies manga_other_than(id)(
                        #[trigger] rows[j],
                    ) by {
                        if j > i {
                            assert(rows[i as int].id->0 < rows[j].id->0);
                        }
                    }
                    lemma_filter_drops_one(rows, manga_other_than(id), i as int);
                    assert(manga_views(self.rows@.remove(i as int)) =~= rows.remove(i as int));
                }
                self.rows.remove(i);
                return Ok(());
            }
            i += 1;
        }
        proof {
            lemma_filter_keeps_all(self@.rows, manga_other_than(id));
        }
        Ok(())
    }

    /// Every row, in the order of insertion.
    pub fn list(&self) -> (r: Result<Vec<Manga>, Error>)
        ensures
            (match r {
                Ok(works) => Ok::<Seq<MangaView>, Error>(manga_views(works@)),
                Err(e) => Err::<Seq<MangaView>, Error>(e),
            }) == self@.listing(),
    {
        if !self.created {
            return Err(Error::Storage);
        }
        let mut works: Vec<Manga> = Vec::new();
        let mut i: usize = 0;
        while i < self.rows.len()
            invariant
                0 <= i <= self.rows.len(),
                manga_views(works@) == self@.rows.take(i as int),
            decreases self.rows.len() - i,
        {
            let row = self.rows[i].clone();
            proof {
                assert(self@.rows[i as int] == row@);
                assert(manga_views(works@.push(row)) =~= manga_views(works@).push(row@));
                assert(self@.rows.take(i + 1) =~= self@.rows.take(i as int).push(row@));
            }
            works.push(row);
            i += 1;
        }
        assert(self@.rows.take(i as int) =~= self@.rows);
        Ok(works)
    }
}

/// A delete keeps the table well formed and leaves no row with the
/// identifier: a lookup of it no longer finds anything.
pub proof fn lemma_manga_delete_removes(table: MangaTable, id: i32)
    requires
        table.wf(),
    ensures
        table.deleted(id).wf(),
        !table.deleted(id).has(id),
        table.deleted(id).lookup(id) is Err,
{
    lemma_manga_deleted(table, id);
}

/// In a well-formed table the row at `i` is the only one with its identifier.
pub proof fn lemma_manga_row_unique(table: MangaTable, id: i32, i: int)
    requires
        table.wf(),
        0 <= i < table.rows.len(),
        table.rows[i].id == Some(id),
    ensures
        table.has(id),
        table.row(id) == table.rows[i],
{
    let j = choose|j: int| 0 <= j < table.rows.len() && (#[trigger] table.rows[j]).id == Some(id);
    if j < i {
        assert(table.rows[j].id->0 < table.rows[i].id->0);
    } else if i < j {
        assert(table.rows[i].id->0 < table.rows[j].id->0);
    }
}

/// What a delete leaves: the rows with another identifier, in their order.
proof fn lemma_manga_deleted(table: MangaTable, id: i32)
    requires
        table.wf(),
    ensures
        table.deleted(id).wf(),
        !table.deleted(id).has(id),
        table.has(id) || table.deleted(id) == table,
        table.has(id) ==> exists|i: int|
            0 <= i < table.rows.len() && (#[trigger] table.rows[i]).id == Some(id)
                && table.deleted(id).rows == table.rows.remove(i),
{
    let p = manga_other_than(id);
    if table.has(id) {
        let i = choose|i: int| 0 <= i < table.rows.len() && (#[trigger] table.rows[i]).id == Some(id);
        assert forall|j: int| 0 <= j < table.rows.len() && j != i implies p(#[trigger] table.rows[j]) by {
            if j > i {
                assert(table.rows[i].id->0 < table.rows[j].id->0);
            } else {
                assert(table.rows[j].id->0 < table.rows[i].id->0);
            }
        }
        lemma_filter_drops_one(table.rows, p, i);
        let rest = table.rows.remove(i);
        assert forall|a: int, b: int| 0 <= a < b < rest.len() implies (#[trigger] rest[a]).id->0 < (
        #[trigger] rest[b]).id->0 by {
            let a0 = if a < i { a } else { a + 1 };
            let b0 = if b < i { b } else { b + 1 };
            assert(rest[a] == table.rows[a0]);
            assert(rest[b] == table.rows[b0]);
        }
        assert forall|a: int| 0 <= a < rest.len() implies (#[trigger] rest[a]).id is Some && 1
            <= rest[a].id->0 <= table.last_id && rest[a].id != Some(id) by {
            let a0 = if a < i { a } else { a + 1 };
            assert(rest[a] == table.rows[a0]);
        }
    } else {
        lemma_filter_keeps_all(table.rows, p);
    }
}

/// A work that was just inserted is found under the identifier that the
/// insert returned, with every field of the draft but the identifier.
pub proof fn lemma_manga_insert_then_get(table: MangaTable, draft: MangaView)
    requires
        table.wf(),
    ensures
        table.inserted(draft).wf(),
        table.insert_result() matches Ok(id) ==> table.inserted(draft).lookup(id) == Ok::<
            MangaView,
            Error,
        >(MangaView { id: Some(id), ..draft }),
{
    if table.can_insert() {
        let after = table.inserted(draft);
        let id = (table.last_id + 1) as i32;
        let last = after.rows.len() - 1;
        assert(after.rows[last] == table.stored(draft));
        assert(after.has(id));
        let i = choose|i: int| 0 <= i < after.rows.len() && (#[trigger] after.rows[i]).id == Some(id);
        if i != last {
            assert(after.rows[i] == table.rows[i]);
        }
    }
}

/// A delete changes the lookup of no other identifier.
pub proof fn lemma_manga_delete_spares(table: MangaTable, id: i32, other: i32)
    requires
        table.wf(),
        other != id,
    ensures
        table.deleted(id).lookup(other) == table.lookup(other),
{
    lemma_manga_deleted(table, id);
    let after = table.deleted(id);
    if table.has(id) {
        let i = choose|i: int|
            0 <= i < table.rows.len() && (#[trigger] table.rows[i]).id == Some(id) && after.rows
                == table.rows.remove(i);
        if table.has(other) {
            let k = choose|k: int|
                0 <= k < table.rows.len() && (#[trigger] table.rows[k]).id == Some(other);
            let k1 = if k < i { k } else { k - 1 };
            assert(after.rows[k1] == table.rows[k]);
            lemma_manga_row_unique(after, other, k1);
            lemma_manga_row_unique(table, other, k);
        }
        if after.has(other) {
            let k = choose|k: int|
                0 <= k < after.rows.len() && (#[trigger] after.rows[k]).id == Some(other);
            let k0 = if k < i { k } else { k + 1 };
            assert(after.rows[k] == table.rows[k0]);
            lemma_manga_row_unique(table, other, k0);
        }
    }
}

/// An insert changes the lookup of no identifier but the one that it hands out.
pub proof fn lemma_manga_insert_spares(table: MangaTable, draft: MangaView, other: i32)
    requires
        table.wf(),
        table.insert_result() != Ok::<i32, Error>(other),
    ensures
        table.inserted(draft).lookup(other) == table.lookup(other),
{
    lemma_manga_insert_then_get(table, draft);
    if table.can_insert() {
        let after = table.inserted(draft);
        if table.has(other) {
            let k = choose|k: int|
                0 <= k < table.rows.len() && (#[trigger] table.rows[k]).id == Some(other);
            assert(after.rows[k] == table.rows[k]);
            lemma_manga_row_unique(after, other, k);
            lemma_manga_row_unique(table, other, k);
        }
        if after.has(other) {
            let k = choose|k: int|
                0 <= k < after.rows.len() && (#[trigger] after.rows[k]).id == Some(other);
            assert(k < table.rows.len());
            assert(after.rows[k] == table.rows[k]);
            lemma_manga_row_unique(table, other, k);
        }
    }
}

/// Deleting the same identifier a second time succeeds whenever the first
/// delete did, and changes nothing.
pub proof fn lemma_manga_delete_twice(table: MangaTable, id: i32)
    ensures
        table.deleted(id).status() == table.status(),
        table.deleted(id).deleted(id) == table.deleted(id),
{
    lemma_filter_twice(table.rows, manga_other_than(id));
}

} // verus!
