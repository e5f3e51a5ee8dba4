use vstd::prelude::*;

verus! {

/// Failure taxonomy of the export engine.
///
/// - `Connectivity`: leasing a connection or reaching the database failed;
///   fatal, aborts the whole operation.
/// - `Query`: preparing or executing a statement failed; fatal per entity.
/// - `Decode`: a fetched value could not be read in its expected shape;
///   aborts the cursor it came from.
/// - `Io`: creating, writing or flushing an output file failed; fatal per
///   entity.
///
/// No variant is ever retried: every error surfaces to the orchestrator.
#[derive(Debug, PartialEq, Eq)]
pub enum ExportError {
    Connectivity(String),
    Query(String),
    Decode(String),
    Io(String),
}

impl ExportError {
    /// The human-readable detail the error carries.
    pub open spec fn detail(self) -> Seq<char> {
        match self {
            ExportError::Connectivity(m) => m@,
            ExportError::Query(m) => m@,
            ExportError::Decode(m) => m@,
            ExportError::Io(m) => m@,
        }
    }

    pub fn message(&self) -> (r: &str)
        ensures
            r@ == self.detail(),
    {
        match self {
            ExportError::Connectivity(m) => m.as_str(),
            ExportError::Query(m) => m.as_str(),
            ExportError::Decode(m) => m.as_str(),
            ExportError::Io(m) => m.as_str(),
        }
    }
}

} // verus!
