use vstd::prelude::*;

pub mod all_tables;
pub mod error;
pub mod export;
pub mod fetch_table;
pub mod pagination;
pub mod query;

pub use all_tables::AllTableNameStream;
pub use error::ExportError;
pub use export::ExportArgs;
pub use export::ExportTablesToDir;
pub use fetch_table::FetchTableData;

verus! {

/// Number of rows requested per page of any paginated query.
pub const LIMIT_FETCH: u32 = 100;

/// A sequence of owned strings seen as the character sequences they hold.
pub open spec fn names_view(names: Seq<String>) -> Seq<Seq<char>> {
    names.map_values(|s: String| s@)
}

/// The connection settings and export request taken from the command line.
/// Parsing itself is a collaborator concern; this holds the parsed values.
pub struct Cli {
    /// Database user.
    pub user: String,
    /// Database password.
    pub password: String,
    /// Database host.
    pub host: String,
    /// Database port; a default applies when absent.
    pub port: Option<u16>,
    /// Maximum number of connections the pool manages; must be non-zero
    /// when given.
    pub max_connection: Option<u32>,
    /// The owner whose tables are exported; defaults to `user` when absent.
    pub table_owner: Option<String>,
    /// Database name.
    pub database: String,
    /// The directory the output files are written to.
    pub directory: String,
}

impl Cli {
    /// The owner whose tables are enumerated: the explicit `table_owner`
    /// when one was given, otherwise the connecting `user`.
    pub open spec fn spec_table_owner(self) -> Seq<char> {
        match self.table_owner {
            Some(owner) => owner@,
            None => self.user@,
        }
    }

    pub fn table_owner(&self) -> (r: &str)
        ensures
            r@ == self.spec_table_owner(),
    {
        match &self.table_owner {
            Some(owner) => owner.as_str(),
            None => self.user.as_str(),
        }
    }
}

} // verus!
