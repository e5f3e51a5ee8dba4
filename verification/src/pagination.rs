use vstd::prelude::*;

verus! {

use crate::error::ExportError;

/// The rows one OFFSET/LIMIT page selects out of a table state `tbl`.
pub open spec fn page_of<A>(tbl: Seq<A>, offset: int, limit: int) -> Seq<A> {
    if offset < 0 || offset >= tbl.len() {
        Seq::empty()
    } else if offset + limit <= tbl.len() {
        tbl.subrange(offset, offset + limit)
    } else {
        tbl.subrange(offset, tbl.len() as int)
    }
}

/// Every page a cursor starting at `offset` observes over a table state
/// that does not change between fetches: the page at `offset` itself and
/// then, as long as `offset + limit` still lies within the table, the
/// pages after it. When `limit` divides a non-zero table length this ends
/// with one empty page, exactly as the cursor fetches one before its
/// bookkeeping turns terminal.
pub open spec fn pages_from<A>(tbl: Seq<A>, offset: int, limit: int) -> Seq<Seq<A>>
    decreases tbl.len() - offset
        when 0 <= offset && 0 < limit
{
    if offset + limit <= tbl.len() {
        seq![page_of(tbl, offset, limit)] + pages_from(tbl, offset + limit, limit)
    } else {
        seq![page_of(tbl, offset, limit)]
    }
}

/// The number of rows summed across a sequence of pages.
pub open spec fn row_count<A>(pages: Seq<Seq<A>>) -> int
    decreases pages.len()
{
    if pages.len() == 0 {
        0
    } else {
        pages.first().len() + row_count(pages.drop_first())
    }
}

/// Summing the page lengths is the same as measuring the concatenation.
pub proof fn lemma_row_count_is_flatten_len<A>(pages: Seq<Seq<A>>)
    ensures
        row_count(pages) == pages.flatten().len(),
    decreases pages.len(),
{
    if pages.len() > 0 {
        lemma_row_count_is_flatten_len(pages.drop_first());
    }
}

proof fn lemma_pages_from_flatten<A>(tbl: Seq<A>, offset: int, limit: int)
    requires
        0 < limit,
        0 <= offset <= tbl.len(),
    ensures
        pages_from(tbl, offset, limit).flatten() =~= tbl.skip(offset),
    decreases tbl.len() - offset,
{
    if offset + limit <= tbl.len() {
        lemma_pages_from_flatten(tbl, offset + limit, limit);
        let pages = pages_from(tbl, offset, limit);
        let rest = pages_from(tbl, offset + limit, limit);
        assert(pages.first() == page_of(tbl, offset, limit));
        assert(pages.drop_first() =~= rest);
        assert(page_of(tbl, offset, limit) + tbl.skip(offset + limit) =~= tbl.skip(offset));
    } else {
        let pages = pages_from(tbl, offset, limit);
        pages.lemma_flatten_singleton();
        assert(pages.flatten() == page_of(tbl, offset, limit));
    }
}

/// Law: over a table state that no concurrent writer mutates during the
/// run, the pages a cursor delivers concatenate to exactly the table's
/// rows, and the record counts of the pages sum to the observed total.
/// The delivered pages are a function of the table state and the page
/// size alone, so a second run over the unchanged state delivers the
/// same records in the same order.
pub proof fn lemma_cursor_pages_cover_table<A>(tbl: Seq<A>, limit: int)
    requires
        0 < limit,
    ensures
        pages_from(tbl, 0, limit).flatten() == tbl,
        row_count(pages_from(tbl, 0, limit)) == tbl.len(),
{
    lemma_pages_from_flatten(tbl, 0, limit);
    assert(tbl.skip(0) =~= tbl);
    lemma_row_count_is_flatten_len(pages_from(tbl, 0, limit));
}

/// Converts a row count reported by the database as a signed integer into
/// the unsigned total the pagination state tracks. A negative value cannot
/// come from a well-formed count and is reported as a decode error.
pub fn count_to_total(n: i64) -> (r: Result<u64, ExportError>)
    ensures
        n >= 0 ==> r == Ok::<u64, ExportError>(n as u64),
        n < 0 ==> (r matches Err(e) && e is Decode && e.detail() == "row count was negative"@),
{
    if n >= 0 {
        Ok(n as u64)
    } else {
        Err(ExportError::Decode(String::from_str("row count was negative")))
    }
}

} // verus!
