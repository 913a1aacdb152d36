//! Catalog store: an additive-only `images` table behind a relational
//! connection. Schema creation is idempotent; appending is a single-row
//! insert with no conflict handling, so the store accumulates one row per
//! successful append and nothing is ever merged, updated or deleted.

use vstd::prelude::*;
use crate::record::{ImageMetadata, MetaView, StoreError};

verus! {

#[verifier::external_type_specification]
#[verifier::external_body]
pub struct ExConnection(rusqlite::Connection);

#[verifier::external_type_specification]
#[verifier::external_body]
pub struct ExRusqliteError(rusqlite::Error);

/// The records held by the store behind this connection, in insertion order.
pub uninterp spec fn store_rows(conn: rusqlite::Connection) -> Seq<MetaView>;

/// Whether the store behind this connection has the catalog's `images`
/// table, with its documented columns in their documented order: the
/// synthetic `id` key, then `path`, `file_name`, `file_size`, `width`,
/// `height`, `format`, `creation_date`, `keywords`, `description`.
pub uninterp spec fn store_has_schema(conn: rusqlite::Connection) -> bool;

/// Whether the store behind this connection holds some table named
/// `images`, of whatever shape. Weaker than [`store_has_schema`]: a store
/// written by another program may hold a foreign table under that name.
pub uninterp spec fn store_has_images_table(conn: rusqlite::Connection) -> bool;

/// Relies on `rusqlite::Connection::execute` running `CREATE TABLE IF NOT
/// EXISTS`: with no table named `images` present it creates the documented
/// one; with any table of that name already there the statement is a no-op,
/// whatever that table's shape; stored rows are never touched.
#[verifier::external_body]
fn create_images_table(conn: &mut rusqlite::Connection) -> (r: Result<(), rusqlite::Error>)
    ensures
        store_rows(*final(conn)) == store_rows(*old(conn)),
        store_has_schema(*old(conn)) ==> store_has_schema(*final(conn)),
        store_has_images_table(*old(conn)) ==> store_has_images_table(*final(conn)),
        r is Ok ==> store_has_images_table(*final(conn)),
        r is Ok && !store_has_images_table(*old(conn)) ==> store_has_schema(*final(conn)),
{
    match conn.execute(
        "CREATE TABLE IF NOT EXISTS images (id INTEGER PRIMARY KEY, path TEXT NOT NULL, file_name TEXT NOT NULL, file_size INTEGER NOT NULL, width INTEGER, height INTEGER, format TEXT, creation_date TEXT, keywords TEXT, description TEXT)",
        [],
    ) {
        Ok(_) => Ok(()),
        Err(e) => Err(e),
    }
}

/// Relies on `rusqlite::Connection::execute` running a parameterized
/// single-row `INSERT` into `images`: on success exactly one row holding
/// the record's fields is appended; on failure (no such table, or a size
/// beyond the store's integer range) nothing changes.
#[verifier::external_body]
fn insert_image_row(conn: &mut rusqlite::Connection, m: &ImageMetadata) -> (r: Result<
    (),
    rusqlite::Error,
>)
    ensures
        store_has_schema(*final(conn)) == store_has_schema(*old(conn)),
        r is Ok ==> store_rows(*final(conn)) == store_rows(*old(conn)).push(m@),
        r is Err ==> store_rows(*final(conn)) == store_rows(*old(conn)),
{
    let d = m.dimensions;
    match conn.execute(
        "INSERT INTO images (path, file_name, file_size, width, height, format, creation_date, keywords, description) VALUES (?1, ?2, ?3, ?4, ?5, ?6, ?7, ?8, ?9)",
        (&m.path, &m.file_name, m.file_size, d.map(|d: (u32, u32)| d.0),
            d.map(|d: (u32, u32)| d.1), m.format.as_ref(), m.creation_date.as_ref(),
            m.keywords.as_ref(), m.description.as_ref()),
    ) {
        Ok(_) => Ok(()),
        Err(e) => Err(e),
    }
}

/// Ensures the catalog schema exists. Safe to call against a store that
/// already has the table: an existing `images` table is kept exactly as it
/// stands and no stored row is lost, so running this on every process start
/// changes nothing after the first time. Only against a store with no
/// `images` table at all is the documented schema owed: a foreign table of
/// that name, left by another program, is not redefined.
pub fn init_database(conn: &mut rusqlite::Connection) -> (r: Result<(), StoreError>)
    ensures
        store_rows(*final(conn)) == store_rows(*old(conn)),
        store_has_schema(*old(conn)) ==> store_has_schema(*final(conn)),
        store_has_images_table(*old(conn)) ==> store_has_images_table(*final(conn)),
        r is Ok ==> store_has_images_table(*final(conn)),
        r is Ok && !store_has_images_table(*old(conn)) ==> store_has_schema(*final(conn)),
{
    match create_images_table(conn) {
        Ok(u) => Ok(u),
        Err(_) => Err(StoreError::Backend),
    }
}

/// Appends one record to the store. There is no conflict handling and no
/// identity key: on success the store holds exactly one more row, whatever
/// rows it already held; on failure it is unchanged.
pub fn save_metadata(conn: &mut rusqlite::Connection, metadata: &ImageMetadata) -> (r: Result<
    (),
    StoreError,
>)
    ensures
        store_has_schema(*final(conn)) == store_has_schema(*old(conn)),
        r is Ok ==> store_rows(*final(conn)) == store_rows(*old(conn)).push(metadata@),
        r is Err ==> store_rows(*final(conn)) == store_rows(*old(conn)),
{
    match insert_image_row(conn, metadata) {
        Ok(u) => Ok(u),
        Err(_) => Err(StoreError::Backend),
    }
}

} // verus!
