use vstd::prelude::*;

verus! {

use crate::error::ExportError;
use crate::pagination::pages_from;
use crate::pagination::lemma_cursor_pages_cover_table;

/// The export request as it arrives from the command line: parsing is a
/// collaborator concern, these are the parsed values.
pub struct ExportArgs {
    /// The owner whose tables are exported; defaults to the connecting
    /// user when absent.
    pub table_owner: Option<String>,
    /// The directory the output files are written to.
    pub directory: String,
    /// Export the tables in parallel under the bounded connection pool.
    pub parallel: bool,
}

/// One export batch: every table the owner holds, written as one file per
/// table under `directory`. The batch's decisions live here; leasing
/// connections, creating files and running worker threads is its
/// caller's work.
pub struct ExportTablesToDir {
    /// The owner whose tables are enumerated.
    pub table_owner: String,
    /// The directory the output files are written to.
    pub directory: String,
    /// Run one task per table under a bounded worker pool instead of one
    /// task after the other.
    pub parallel: bool,
}

impl ExportTablesToDir {
    /// The output file name for one table: the table's own name with the
    /// `.csv` suffix, placed inside the output directory by the caller.
    pub fn csv_file_name(table: &str) -> (r: String)
        ensures
            r@ == table@ + ".csv"@,
    {
        let mut out = String::from_str(table);
        out.append(".csv");
        out
    }

    /// Collapses the outcomes of a batch of export tasks into the batch
    /// outcome: `Ok` exactly when every task succeeded, otherwise the
    /// first error in the given order — later errors are discarded, and
    /// nothing is retried.
    pub fn first_failure(results: Vec<Result<(), ExportError>>) -> (r: Result<(), ExportError>)
        ensures
            r is Ok <==> (forall|i: int| 0 <= i < results@.len() ==> results@[i] is Ok),
            r matches Err(e) ==> exists|i: int|
                {
                    &&& 0 <= i < results@.len()
                    &&& #[trigger] results@[i] == Err::<(), ExportError>(e)
                    &&& forall|j: int| 0 <= j < i ==> results@[j] is Ok
                },
    {
        let mut first: Option<usize> = None;
        let mut i: usize = 0;
        while i < results.len()
            invariant
                i <= results@.len(),
                first is None ==> forall|j: int| 0 <= j < i ==> results@[j] is Ok,
                first matches Some(k) ==> {
                    &&& k < i
                    &&& results@[k as int] is Err
                    &&& forall|j: int| 0 <= j < k ==> results@[j] is Ok
                },
            decreases results.len() - i,
        {
            if first.is_none() && results[i].is_err() {
                first = Some(i);
            }
            i += 1;
        }
        match first {
            None => Ok(()),
            Some(at) => {
                let mut owned = results;
                let failed = owned.remove(at);
                match failed {
                    Err(e) => {
                        proof {
                            assert(results@[at as int] == Err::<(), ExportError>(e));
                            assert(!(results@[at as int] is Ok));
                        }
                        Err(e)
                    },
                    Ok(()) => {
                        proof {
                            assert(false);
                        }
                        Ok(())
                    },
                }
            },
        }
    }
}

/// The records an export writes for one entity, in order: the header
/// first, then every page the cursor fetched over the table state `tbl`.
pub open spec fn exported_records<A>(header: A, tbl: Seq<A>, limit: int) -> Seq<A> {
    seq![header] + pages_from(tbl, 0, limit).flatten()
}

/// Law: the records written for one entity are its header followed by
/// exactly the table's rows, however the rows fell into pages. They are a
/// function of the schema and the table state alone, so re-running the
/// export over an unchanged table writes the same records in the same
/// order.
pub proof fn lemma_export_records_deterministic<A>(header: A, tbl: Seq<A>, limit: int)
    requires
        0 < limit,
    ensures
        exported_records(header, tbl, limit) == seq![header] + tbl,
{
    lemma_cursor_pages_cover_table(tbl, limit);
}

} // verus!
