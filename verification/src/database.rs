//! The catalog store, kept in memory: the tables of works and of chapters
//! behind one connection.

use vstd::prelude::*;
use crate::chapter::{ChapterRepository, ChapterTable};
use crate::manga::{MangaRepository, MangaTable};

verus! {

/// Marks the repositories that a connection reaches.
pub trait RepositoryS {

}

impl RepositoryS for MangaRepository {

}

impl RepositoryS for ChapterRepository {

}

/// The catalog store as a mathematical value: one table for each kind of entry.
#[verifier::ext_equal]
pub struct Catalog {
    pub manga: MangaTable,
    pub chapters: ChapterTable,
}

impl Catalog {
    /// Both tables are well formed.
    pub open spec fn wf(self) -> bool {
        self.manga.wf() && self.chapters.wf()
    }

    /// A store in which no table has been created.
    pub open spec fn blank() -> Catalog {
        Catalog {
            manga: MangaTable { created: false, rows: Seq::empty(), last_id: 0 },
            chapters: ChapterTable { created: false, rows: Seq::empty(), last_id: 0 },
        }
    }
}

/// A connection to a catalog store that is kept in memory. Every statement
/// on the catalog goes through the repository of the table that it is about.
pub struct DatabaseConnection {
    pub manga: MangaRepository,
    pub chapters: ChapterRepository,
}

impl View for DatabaseConnection {
    type V = Catalog;

    open spec fn view(&self) -> Catalog {
        Catalog { manga: self.manga@, chapters: self.chapters@ }
    }
}

impl DatabaseConnection {
    /// Connects to a store in which no table has been created yet: until
    /// they are, every statement fails with a storage error.
    pub fn open() -> (r: Self)
        ensures
            r@ == Catalog::blank(),
            r@.wf(),
    {
        DatabaseConnection { manga: MangaRepository::init(), chapters: ChapterRepository::init() }
    }
}

} // verus!
