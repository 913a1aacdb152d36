//! Scan orchestration: the per-file pipeline step and the batch driver.
//! Each file moves strictly forward through filter, extraction and
//! persistence; a failure at any stage is that file's outcome alone and the
//! scan goes on, while the success counter and the store advance in step.

use vstd::prelude::*;
use crate::enrich;
use crate::extract;
use crate::record::{EnrichmentError, ExtractionError, StoreError};
use crate::store;

verus! {

/// The terminal state of one file's pass through the pipeline.
#[derive(Clone, Copy, Debug, PartialEq, Eq, Structural)]
pub enum FileOutcome {
    /// The record reached the store.
    Persisted,
    /// Extraction failed; nothing was persisted.
    ExtractionFailed(ExtractionError),
    /// Extraction produced a record but the store refused it.
    PersistFailed(StoreError),
}

/// Everything the pipeline needs for one candidate file: its path, its
/// statted size, its bytes, and the outcome of the enrichment call (the
/// reply's transport status and body on success).
pub struct ScanItem {
    pub path: String,
    pub file_size: u64,
    pub bytes: Vec<u8>,
    pub response: Result<(u16, String), EnrichmentError>,
}

/// The record the pipeline owes for one gathered item.
pub open spec fn item_view(it: ScanItem) -> crate::record::MetaView {
    extract::extracted_view(it.path@, it.file_size, it.bytes@, extract::enrichment_raw(it.response))
}

/// Runs one accepted file through extraction and persistence, advancing the
/// success counter exactly when its record reaches the store.
pub fn scan_step(
    conn: &mut rusqlite::Connection,
    processed: &mut u64,
    path: &str,
    file_size: u64,
    bytes: &Vec<u8>,
    response: &Result<(u16, String), EnrichmentError>,
) -> (outcome: FileOutcome)
    requires
        *old(processed) < u64::MAX,
    ensures
        store::store_has_schema(*final(conn)) == store::store_has_schema(*old(conn)),
        outcome is Persisted ==> {
            &&& *final(processed) == *old(processed) + 1
            &&& store::store_rows(*final(conn)) == store::store_rows(*old(conn)).push(
                extract::extracted_view(
                    path@,
                    file_size,
                    bytes@,
                    extract::enrichment_raw(*response),
                ),
            )
        },
        !(outcome is Persisted) ==> {
            &&& *final(processed) == *old(processed)
            &&& store::store_rows(*final(conn)) == store::store_rows(*old(conn))
        },
        (outcome is ExtractionFailed) == !extract::enrichment_ok(*response),
{
    match extract::process_image(path, file_size, bytes, response) {
        Ok(m) => match store::save_metadata(conn, &m) {
            Ok(u) => {
                *processed = *processed + 1;
                FileOutcome::Persisted
            },
            Err(e) => FileOutcome::PersistFailed(e),
        },
        Err(e) => FileOutcome::ExtractionFailed(e),
    }
}

/// How many of these outcomes are `Persisted`.
pub open spec fn count_persisted(s: Seq<FileOutcome>) -> int
    decreases s.len(),
{
    if s.len() == 0 {
        0
    } else {
        count_persisted(s.drop_last()) + if s.last() is Persisted {
            1int
        } else {
            0int
        }
    }
}

/// The records of exactly those items whose outcome is `Persisted`, in scan
/// order.
pub open spec fn persisted_views(items: Seq<ScanItem>, outcomes: Seq<FileOutcome>) -> Seq<
    crate::record::MetaView,
>
    decreases outcomes.len(),
{
    if outcomes.len() == 0 || items.len() == 0 {
        Seq::empty()
    } else {
        persisted_views(items.drop_last(), outcomes.drop_last()) + (if outcomes.last() is Persisted {
            seq![item_view(items.last())]
        } else {
            Seq::empty()
        })
    }
}

/// Drives the per-file pipeline over a batch of gathered inputs. The store
/// ends with exactly its old rows followed, in scan order, by the records
/// of the persisted items and nothing else; the returned count is the
/// number of those items — all of them when no file's enrichment or
/// persistence failed.
pub fn run_scan(conn: &mut rusqlite::Connection, items: &Vec<ScanItem>) -> (r: (u64, Vec<
    FileOutcome,
>))
    ensures
        r.1@.len() == items@.len(),
        r.0 as int == count_persisted(r.1@),
        r.0 <= items@.len(),
        store::store_rows(*final(conn)) == store::store_rows(*old(conn)) + persisted_views(
            items@,
            r.1@,
        ),
        store::store_rows(*final(conn)).len() == store::store_rows(*old(conn)).len() + r.0,
        store::store_has_schema(*final(conn)) == store::store_has_schema(*old(conn)),
        forall|i: int|
            0 <= i < items@.len() ==> (((#[trigger] r.1@[i]) is ExtractionFailed)
                == !extract::enrichment_ok(items@[i].response)),
{
    let mut processed: u64 = 0;
    let mut outcomes: Vec<FileOutcome> = Vec::new();
    let mut idx: usize = 0;
    while idx < items.len()
        invariant
            0 <= idx <= items@.len(),
            outcomes@.len() == idx,
            processed as int == count_persisted(outcomes@),
            processed <= idx,
            store::store_rows(*conn) == store::store_rows(*old(conn)) + persisted_views(
                items@.take(idx as int),
                outcomes@,
            ),
            store::store_rows(*conn).len() == store::store_rows(*old(conn)).len() + processed,
            store::store_has_schema(*conn) == store::store_has_schema(*old(conn)),
            forall|i: int|
                0 <= i < idx ==> (((#[trigger] outcomes@[i]) is ExtractionFailed)
                    == !extract::enrichment_ok(items@[i].response)),
        decreases items@.len() - idx,
    {
        let item = &items[idx];
        let outcome = scan_step(
            conn,
            &mut processed,
            item.path.as_str(),
            item.file_size,
            &item.bytes,
            &item.response,
        );
        let ghost prev = outcomes@;
        outcomes.push(outcome);
        proof {
            assert(outcomes@.drop_last() =~= prev);
            assert(items@.take(idx + 1).drop_last() =~= items@.take(idx as int));
            assert(items@.take(idx + 1).last() == items@[idx as int]);
            if outcome is Persisted {
                assert(store::store_rows(*conn) =~= store::store_rows(*old(conn))
                    + persisted_views(items@.take(idx + 1), outcomes@));
            } else {
                assert(store::store_rows(*conn) =~= store::store_rows(*old(conn))
                    + persisted_views(items@.take(idx + 1), outcomes@));
            }
        }
        idx += 1;
    }
    proof {
        assert(items@.take(items@.len() as int) =~= items@);
    }
    (processed, outcomes)
}

} // verus!
