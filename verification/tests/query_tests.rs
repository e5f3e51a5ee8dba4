use table_export::Cli;
use table_export::ExportError;
use table_export::ExportTablesToDir;
use table_export::pagination::count_to_total;
use table_export::query::columns_query;
use table_export::query::listing_query;
use table_export::query::projection_query;
use table_export::query::quote_ident;
use table_export::query::table_count_query;

#[test]
fn fixed_query_texts() {
    assert_eq!(
        table_count_query(),
        "SELECT COUNT(*) as tables FROM pg_catalog.pg_tables where tableowner = $1"
    );
    assert_eq!(
        listing_query(),
        "SELECT * FROM pg_catalog.pg_tables where tableowner = $1 offset $2 limit $3"
    );
    assert_eq!(
        columns_query(),
        "SELECT column_name from information_schema.columns where table_name = $1"
    );
}

#[test]
fn quoting_wraps_identifiers() {
    assert_eq!(quote_ident("id"), "\"id\"");
    assert_eq!(quote_ident(""), "\"\"");
}

#[test]
fn quoting_doubles_embedded_quotes() {
    assert_eq!(quote_ident("we\"ird"), "\"we\"\"ird\"");
    assert_eq!(quote_ident("\"\""), "\"\"\"\"\"\"");
}

#[test]
fn projection_query_for_two_columns() {
    let columns = vec!["id".to_string(), "name".to_string()];
    let text = projection_query("t", &columns);
    assert_eq!(
        text,
        "SELECT *, COUNT(*) OVER () as \"__table_count_total\" FROM (SELECT coalesce(\"id\"::text, '') as \"id\", coalesce(\"name\"::text, '') as \"name\", null as \"________nothing\" from \"t\") as paged_query_with OFFSET $1 LIMIT $2"
    );
}

#[test]
fn projection_query_for_zero_columns_keeps_sentinel() {
    let text = projection_query("empty_table", &Vec::new());
    assert_eq!(
        text,
        "SELECT *, COUNT(*) OVER () as \"__table_count_total\" FROM (SELECT null as \"________nothing\" from \"empty_table\") as paged_query_with OFFSET $1 LIMIT $2"
    );
}

#[test]
fn projection_query_quotes_hostile_names() {
    let columns = vec!["na\"me".to_string()];
    let text = projection_query("ta\"ble", &columns);
    assert_eq!(
        text,
        "SELECT *, COUNT(*) OVER () as \"__table_count_total\" FROM (SELECT coalesce(\"na\"\"me\"::text, '') as \"na\"\"me\", null as \"________nothing\" from \"ta\"\"ble\") as paged_query_with OFFSET $1 LIMIT $2"
    );
}

#[test]
fn count_to_total_accepts_nonnegative() {
    assert_eq!(count_to_total(0), Ok(0));
    assert_eq!(count_to_total(41), Ok(41));
}

#[test]
fn count_to_total_rejects_negative() {
    let err = count_to_total(-3).unwrap_err();
    assert!(matches!(err, ExportError::Decode(_)));
}

#[test]
fn csv_file_name_appends_suffix() {
    assert_eq!(ExportTablesToDir::csv_file_name("users"), "users.csv");
}

#[test]
fn first_failure_of_all_ok_is_ok() {
    let results: Vec<Result<(), ExportError>> = vec![Ok(()), Ok(()), Ok(())];
    assert_eq!(ExportTablesToDir::first_failure(results), Ok(()));
    let none: Vec<Result<(), ExportError>> = Vec::new();
    assert_eq!(ExportTablesToDir::first_failure(none), Ok(()));
}

#[test]
fn first_failure_keeps_the_first_error() {
    let results: Vec<Result<(), ExportError>> = vec![
        Ok(()),
        Err(ExportError::Query("missing relation".to_string())),
        Err(ExportError::Io("disk full".to_string())),
    ];
    assert_eq!(
        ExportTablesToDir::first_failure(results),
        Err(ExportError::Query("missing relation".to_string()))
    );
}

#[test]
fn error_messages_carry_their_detail() {
    assert_eq!(
        ExportError::Connectivity("pool timed out".to_string()).message(),
        "pool timed out"
    );
    assert_eq!(ExportError::Query("bad sql".to_string()).message(), "bad sql");
    assert_eq!(ExportError::Decode("not text".to_string()).message(), "not text");
    assert_eq!(ExportError::Io("flush failed".to_string()).message(), "flush failed");
}

fn cli_with_owner(owner: Option<&str>) -> Cli {
    Cli {
        user: "app_user".to_string(),
        password: "secret".to_string(),
        host: "localhost".to_string(),
        port: None,
        max_connection: Some(4),
        table_owner: owner.map(|s| s.to_string()),
        database: "app_db".to_string(),
        directory: "out".to_string(),
    }
}

#[test]
fn table_owner_defaults_to_user() {
    assert_eq!(cli_with_owner(None).table_owner(), "app_user");
    assert_eq!(cli_with_owner(Some("tony")).table_owner(), "tony");
}
