use vstd::prelude::*;

verus! {

use crate::error::ExportError;
use crate::pagination::count_to_total;

/// Declares csv's `StringRecord`, the shape the record writer consumes,
/// so that signatures and fields here can hold one. Verus sees a record
/// only through `record_fields`, the ordered fields it holds.
#[verifier::external_type_specification]
#[verifier::external_body]
pub struct ExStringRecord(csv::StringRecord);

/// The ordered fields a `csv::StringRecord` holds.
pub uninterp spec fn record_fields(r: csv::StringRecord) -> Seq<Seq<char>>;

/// Relies on `csv::StringRecord::new`: a freshly created record holds no
/// fields.
pub assume_specification[ csv::StringRecord::new ]() -> (r: csv::StringRecord)
    ensures
        record_fields(r) == Seq::<Seq<char>>::empty(),
;

/// Relies on `csv::StringRecord::push_field`: appends one field at the
/// end of the record.
pub assume_specification[ csv::StringRecord::push_field ](
    r: &mut csv::StringRecord,
    field: &str,
)
    ensures
        record_fields(*final(r)) == record_fields(*old(r)).push(field@),
;

/// Builds the record for one row: every textual field value, in the order
/// given, which for a fetched row is the schema order of its columns.
pub fn record_from_fields(fields: &Vec<String>) -> (r: csv::StringRecord)
    ensures
        record_fields(r) == crate::names_view(fields@),
{
    let ghost target = crate::names_view(fields@);
    let mut record = csv::StringRecord::new();
    let mut i: usize = 0;
    proof {
        assert(record_fields(record) =~= target.take(0));
    }
    while i < fields.len()
        invariant
            i <= fields.len(),
            target == crate::names_view(fields@),
            target.len() == fields@.len(),
            record_fields(record) == target.take(i as int),
        decreases fields.len() - i,
    {
        record.push_field(fields[i].as_str());
        proof {
            assert(target[i as int] == fields@[i as int]@);
            assert(target.take(i + 1) =~= target.take(i as int).push(target[i as int]));
        }
        i += 1;
    }
    proof {
        assert(target.take(fields@.len() as int) =~= target);
    }
    record
}

/// True when `records` are exactly `rows` turned into csv records, one
/// per row, each holding the row's textual fields in order.
pub open spec fn records_match_rows(records: Seq<csv::StringRecord>, rows: Seq<Vec<String>>) -> bool {
    &&& records.len() == rows.len()
    &&& forall|i: int|
        0 <= i < rows.len() ==> record_fields(#[trigger] records[i]) == crate::names_view(rows[i]@)
}

/// Paginated, schema-driven row fetch for one table.
///
/// Unlike the listing stream, `total` here is a per-page observation: the
/// page query recomputes the live row count beside every page, so the
/// total may drift while a concurrent writer mutates the table. That is a
/// deliberate trade of snapshot isolation for simplicity; iteration is
/// always driven by the most recently observed count.
///
/// The cursor holds only the schema, the pagination bookkeeping and the
/// current page of records; issuing the queries and decoding their rows
/// is its caller's work, fed in through `new` and `advance_fetched`.
#[derive(Debug)]
pub struct FetchTableData {
    /// Records of the current page, drained by `take_current`.
    pub current: Vec<csv::StringRecord>,
    /// Page size; fixed for the cursor's lifetime.
    pub limit: u32,
    /// The row count most recently observed beside a fetched page.
    pub total: u64,
    /// Offset of the current page; always a multiple of `limit`.
    pub offset: u64,
    /// The table's columns, in the order schema introspection returned.
    pub column_names: Vec<String>,
}

impl FetchTableData {
    /// Bookkeeping invariant kept for the cursor's whole life.
    pub open spec fn wf(self) -> bool {
        0 < self.limit && self.offset as int % (self.limit as int) == 0
    }

    /// True exactly when one more page lies within the last observed
    /// total.
    pub open spec fn has_next_page(self) -> bool {
        self.offset + self.limit <= self.total
    }

    /// The schema: column names in the order used to build every record.
    /// Stable for the cursor's lifetime, independent of page state.
    pub fn column_names(&self) -> (r: &[String])
        ensures
            r@ == self.column_names@,
    {
        self.column_names.as_slice()
    }

    pub fn get_current_ref(&self) -> (r: &[csv::StringRecord])
        ensures
            r@ == self.current@,
    {
        self.current.as_slice()
    }

    /// Drains the current page, leaving it empty; called again before the
    /// next advance it yields nothing.
    pub fn take_current(&mut self) -> (r: Vec<csv::StringRecord>)
        ensures
            r@ == old(self).current@,
            final(self).current@ == Seq::<csv::StringRecord>::empty(),
            final(self).offset == old(self).offset,
            final(self).total == old(self).total,
            final(self).limit == old(self).limit,
            final(self).column_names@ == old(self).column_names@,
    {
        let mut taken: Vec<csv::StringRecord> = Vec::new();
        core::mem::swap(&mut self.current, &mut taken);
        taken
    }

    /// Builds the cursor from what the first page query returned: the
    /// introspected schema, the first page's rows as textual fields in
    /// schema order, and the window count read beside the first row —
    /// absent exactly when the page came back empty, which by convention
    /// means a total of 0, not an error. A negative count is a decode
    /// error. `limit` is the page size, configured once for the cursor's
    /// lifetime.
    pub fn new(
        limit: u32,
        column_names: Vec<String>,
        rows: Vec<Vec<String>>,
        window_count: Option<i64>,
    ) -> (r: Result<Self, ExportError>)
        requires
            0 < limit,
        ensures
            (r matches Err(e) ==> e is Decode),
            r is Err <==> (window_count matches Some(n) && n < 0),
            r matches Ok(c) ==> {
                &&& c.wf()
                &&& c.limit == limit
                &&& c.offset == 0
                &&& c.total == match window_count {
                    Some(n) => n as u64,
                    None => 0u64,
                }
                &&& c.column_names@ == column_names@
                &&& records_match_rows(c.current@, rows@)
            },
    {
        let total = match window_count {
            Some(n) => count_to_total(n)?,
            None => 0u64,
        };
        let current = Self::records_of(&rows);
        proof {
            let ghost l = limit as int;
            assert(0int % l == 0) by (nonlinear_arith)
                requires
                    0 < l,
            ;
        }
        Ok(FetchTableData { current, limit, total, offset: 0, column_names })
    }

    /// Turns decoded rows into csv records, one per row, fields in order.
    fn records_of(rows: &Vec<Vec<String>>) -> (r: Vec<csv::StringRecord>)
        ensures
            records_match_rows(r@, rows@),
    {
        let mut records: Vec<csv::StringRecord> = Vec::new();
        let mut i: usize = 0;
        while i < rows.len()
            invariant
                i <= rows.len(),
                records_match_rows(records@, rows@.take(i as int)),
            decreases rows.len() - i,
        {
            records.push(record_from_fields(&rows[i]));
            proof {
                assert(rows@.take(i + 1) =~= rows@.take(i as int).push(rows@[i as int]));
            }
            i += 1;
        }
        proof {
            assert(rows@.take(rows@.len() as int) =~= rows@);
        }
        records
    }

    /// Decision for the next advance: `true` asks the caller to fetch the
    /// page at `next_offset`, `false` says the cursor is exhausted with
    /// respect to the most recently observed total.
    pub fn wants_more(&self) -> (b: bool)
        ensures
            b == self.has_next_page(),
    {
        self.offset <= self.total && self.total - self.offset >= self.limit as u64
    }

    /// The offset the next page must be fetched at.
    pub fn next_offset(&self) -> (o: u64)
        requires
            self.has_next_page(),
        ensures
            o == self.offset + self.limit,
    {
        self.offset + self.limit as u64
    }

    /// Terminal advance: the last observed total lies behind the next
    /// offset; the current page is cleared without touching the database
    /// and `false` comes back, with `offset` left where it was.
    pub fn advance_exhausted(&mut self) -> (b: bool)
        requires
            !old(self).has_next_page(),
        ensures
            !b,
            final(self).current@ == Seq::<csv::StringRecord>::empty(),
            final(self).offset == old(self).offset,
            final(self).total == old(self).total,
            final(self).limit == old(self).limit,
            final(self).column_names@ == old(self).column_names@,
    {
        self.current.clear();
        false
    }

    /// Successful advance: the rows fetched at `next_offset` become the
    /// current page, `offset` moves forward by exactly `limit`, and
    /// `total` becomes the count observed beside this page — absent
    /// exactly when the page came back empty, which counts as 0. A
    /// negative count is a decode error and leaves the cursor unchanged.
    pub fn advance_fetched(&mut self, rows: Vec<Vec<String>>, window_count: Option<i64>) -> (r:
        Result<bool, ExportError>)
        requires
            old(self).wf(),
            old(self).has_next_page(),
        ensures
            (r matches Err(e) ==> e is Decode && *final(self) == *old(self)),
            r is Err <==> (window_count matches Some(n) && n < 0),
            r matches Ok(b) ==> {
                &&& b
                &&& final(self).wf()
                &&& final(self).offset == old(self).offset + old(self).limit
                &&& final(self).total == match window_count {
                    Some(n) => n as u64,
                    None => 0u64,
                }
                &&& final(self).limit == old(self).limit
                &&& final(self).column_names@ == old(self).column_names@
                &&& records_match_rows(final(self).current@, rows@)
            },
    {
        let total = match window_count {
            Some(n) => count_to_total(n)?,
            None => 0u64,
        };
        let next = self.offset + self.limit as u64;
        proof {
            let ghost o = old(self).offset as int;
            let ghost l = old(self).limit as int;
            assert((o + l) % l == 0) by (nonlinear_arith)
                requires
                    o % l == 0,
                    0 < l,
            ;
        }
        self.offset = next;
        self.total = total;
        self.current = Self::records_of(&rows);
        Ok(true)
    }

    /// The header record written first to each output file: the column
    /// names, exactly in the schema order records are built with.
    pub fn get_csv_header(&self) -> (r: csv::StringRecord)
        ensures
            record_fields(r) == crate::names_view(self.column_names@),
    {
        record_from_fields(&self.column_names)
    }
}

} // verus!
