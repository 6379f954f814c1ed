//! Bootstrap of the catalog store: creating the tables that are not there yet.

use vstd::prelude::*;
use crate::database::{Catalog, DatabaseConnection};
use crate::error::Error;

verus! {

/// The store after its bootstrap: both tables exist, and what they already
/// held is untouched.
pub open spec fn bootstrapped(catalog: Catalog) -> Catalog {
    Catalog { manga: catalog.manga.with_table(), chapters: catalog.chapters.with_table() }
}

/// Creates the table of works if the store does not have it yet.
pub fn create_table_manga(db: &mut DatabaseConnection) -> (r: Result<(), Error>)
    requires
        old(db)@.wf(),
    ensures
        r == Ok::<(), Error>(()),
        final(db)@.wf(),
        final(db)@ == (Catalog { manga: old(db)@.manga.with_table(), ..old(db)@ }),
{
    db.manga.create_table();
    Ok(())
}

/// Creates the table of chapters if the store does not have it yet.
pub fn create_table_chapter(db: &mut DatabaseConnection) -> (r: Result<(), Error>)
    requires
        old(db)@.wf(),
    ensures
        r == Ok::<(), Error>(()),
        final(db)@.wf(),
        final(db)@ == (Catalog { chapters: old(db)@.chapters.with_table(), ..old(db)@ }),
{
    db.chapters.create_table();
    Ok(())
}

/// Creates both tables of the catalog where they are missing.
pub fn create_tables(db: &mut DatabaseConnection)
    requires
        old(db)@.wf(),
    ensures
        final(db)@.wf(),
        final(db)@ == bootstrapped(old(db)@),
{
    let _ = create_table_manga(db);
    let _ = create_table_chapter(db);
}

/// Running the bootstrap again changes nothing.
pub proof fn lemma_bootstrap_twice(catalog: Catalog)
    ensures
        bootstrapped(bootstrapped(catalog)) == bootstrapped(catalog),
{
}

} // verus!
