use vstd::prelude::*;

verus! {

// Every statement built here keeps values out of the statement text: the
// owner, the offset and the limit are always bound parameters. Only SQL
// identifiers (table and column names), which cannot be bound, are
// interpolated, and those only through `quote_ident`, which renders them
// as quoted identifiers that no embedded character can break out of.

/// How one character of an identifier appears inside its quotes: a double
/// quote is doubled, every other character stands as itself.
pub open spec fn escape_one(c: char) -> Seq<char> {
    if c == '"' {
        seq!['"', '"']
    } else {
        seq![c]
    }
}

/// An identifier's characters with every embedded double quote doubled.
pub open spec fn escaped(s: Seq<char>) -> Seq<char>
    decreases s.len(),
{
    if s.len() == 0 {
        Seq::empty()
    } else {
        escape_one(s.first()) + escaped(s.drop_first())
    }
}

/// `s` rendered as a quoted SQL identifier: wrapped in double quotes with
/// every embedded double quote doubled, so the text between the quotes can
/// never terminate the identifier early.
pub open spec fn quoted_ident(s: Seq<char>) -> Seq<char> {
    seq!['"'] + escaped(s) + seq!['"']
}

proof fn lemma_escaped_push(s: Seq<char>, c: char)
    ensures
        escaped(s.push(c)) =~= escaped(s) + escape_one(c),
    decreases s.len(),
{
    if s.len() == 0 {
        assert(s.push(c).drop_first() =~= Seq::<char>::empty());
        assert(s.push(c).first() == c);
        assert(escaped(Seq::<char>::empty()) =~= Seq::<char>::empty());
        assert(escaped(s.push(c)) =~= escape_one(c) + escaped(Seq::<char>::empty()));
    } else {
        assert(s.push(c).first() == s.first());
        assert(s.push(c).drop_first() =~= s.drop_first().push(c));
        lemma_escaped_push(s.drop_first(), c);
        assert(escaped(s.push(c)) =~= escape_one(s.first()) + (escaped(s.drop_first())
            + escape_one(c)));
        assert(escaped(s) == escape_one(s.first()) + escaped(s.drop_first()));
    }
}

/// Relies on `String::push`: appends the given character to the end of
/// the string.
#[verifier::external_body]
fn push_char(s: &mut String, c: char)
    ensures
        final(s)@ == old(s)@.push(c),
{
    s.push(c);
}

/// Renders a runtime-discovered table or column name as a quoted SQL
/// identifier, safe to interpolate into statement text.
pub fn quote_ident(name: &str) -> (r: String)
    ensures
        r@ == quoted_ident(name@),
{
    let mut out = String::from_str("\"");
    proof {
        reveal_strlit("\"");
        assert(out@ =~= seq!['"'] + escaped(name@.take(0)));
    }
    let n = name.unicode_len();
    let mut i: usize = 0;
    while i < n
        invariant
            n == name@.len(),
            i <= n,
            out@ =~= seq!['"'] + escaped(name@.take(i as int)),
        decreases n - i,
    {
        let c = name.get_char(i);
        if c == '"' {
            push_char(&mut out, '"');
            push_char(&mut out, '"');
        } else {
            push_char(&mut out, c);
        }
        proof {
            assert(name@.take(i + 1) =~= name@.take(i as int).push(name@[i as int]));
            lemma_escaped_push(name@.take(i as int), name@[i as int]);
            assert(out@ =~= seq!['"'] + escaped(name@.take(i + 1)));
        }
        i += 1;
    }
    proof {
        assert(name@.take(n as int) =~= name@);
    }
    out.append("\"");
    proof {
        reveal_strlit("\"");
        assert(out@ =~= quoted_ident(name@));
    }
    out
}

/// Text of the owner-scoped table count over the catalog; the owner is
/// bound as `$1`, never spliced into the text.
pub fn table_count_query() -> (r: String)
    ensures
        r@ == "SELECT COUNT(*) as tables FROM pg_catalog.pg_tables where tableowner = $1"@,
{
    String::from_str("SELECT COUNT(*) as tables FROM pg_catalog.pg_tables where tableowner = $1")
}

/// Text of one page of the owner's catalog entries; the owner, the offset
/// and the limit are bound as `$1`, `$2` and `$3`.
pub fn listing_query() -> (r: String)
    ensures
        r@ == "SELECT * FROM pg_catalog.pg_tables where tableowner = $1 offset $2 limit $3"@,
{
    String::from_str("SELECT * FROM pg_catalog.pg_tables where tableowner = $1 offset $2 limit $3")
}

/// Text of the column discovery query; the table name is bound as `$1`.
pub fn columns_query() -> (r: String)
    ensures
        r@ == "SELECT column_name from information_schema.columns where table_name = $1"@,
{
    String::from_str("SELECT column_name from information_schema.columns where table_name = $1")
}

/// One column of the uniform textual projection: the value cast to text
/// with NULL replaced by the empty string, aliased back to the column's
/// own name.
pub open spec fn projection_item(col: Seq<char>) -> Seq<char> {
    "coalesce("@ + quoted_ident(col) + "::text, '') as "@ + quoted_ident(col) + ", "@
}

/// The projection items of all columns, in schema order.
pub open spec fn projection_list(cols: Seq<Seq<char>>) -> Seq<char>
    decreases cols.len(),
{
    if cols.len() == 0 {
        Seq::empty()
    } else {
        projection_item(cols.first()) + projection_list(cols.drop_first())
    }
}

/// The inner projection over one table: every discovered column rendered
/// uniformly as text, then one inert sentinel column, so that even a
/// table with zero columns yields a valid projection list.
pub open spec fn inner_query_text(table: Seq<char>, cols: Seq<Seq<char>>) -> Seq<char> {
    "SELECT "@ + projection_list(cols) + "null as \"________nothing\" from "@ + quoted_ident(
        table,
    )
}

/// The full page query over one table: the inner projection wrapped in an
/// outer query that recomputes the live row count as a window aggregate
/// beside every row, paginated with bound OFFSET/LIMIT parameters.
pub open spec fn projection_query_text(table: Seq<char>, cols: Seq<Seq<char>>) -> Seq<char> {
    "SELECT *, COUNT(*) OVER () as \"__table_count_total\" FROM ("@ + inner_query_text(
        table,
        cols,
    ) + ") as paged_query_with OFFSET $1 LIMIT $2"@
}

proof fn lemma_projection_list_push(cols: Seq<Seq<char>>, col: Seq<char>)
    ensures
        projection_list(cols.push(col)) =~= projection_list(cols) + projection_item(col),
    decreases cols.len(),
{
    if cols.len() == 0 {
        assert(cols.push(col).drop_first() =~= Seq::<Seq<char>>::empty());
        assert(cols.push(col).first() == col);
        assert(projection_list(Seq::<Seq<char>>::empty()) =~= Seq::<char>::empty());
        assert(projection_list(cols.push(col)) =~= projection_item(col) + projection_list(
            Seq::<Seq<char>>::empty(),
        ));
    } else {
        assert(cols.push(col).first() == cols.first());
        assert(cols.push(col).drop_first() =~= cols.drop_first().push(col));
        lemma_projection_list_push(cols.drop_first(), col);
        assert(projection_list(cols.push(col)) =~= projection_item(cols.first()) + (
        projection_list(cols.drop_first()) + projection_item(col)));
        assert(projection_list(cols) == projection_item(cols.first()) + projection_list(
            cols.drop_first(),
        ));
    }
}

/// Builds the page query for one table from its discovered columns. The
/// table and column names are interpolated only as quoted identifiers;
/// offset and limit stay bound parameters of the returned text.
pub fn projection_query(table: &str, columns: &Vec<String>) -> (r: String)
    ensures
        r@ == projection_query_text(table@, crate::names_view(columns@)),
{
    let ghost cols = crate::names_view(columns@);
    let mut list = String::new();
    let mut i: usize = 0;
    proof {
        assert(cols.take(0) =~= Seq::<Seq<char>>::empty());
    }
    while i < columns.len()
        invariant
            i <= columns.len(),
            cols == crate::names_view(columns@),
            cols.len() == columns@.len(),
            list@ =~= projection_list(cols.take(i as int)),
        decreases columns.len() - i,
    {
        let quoted = quote_ident(columns[i].as_str());
        list.append("coalesce(");
        list.append(quoted.as_str());
        list.append("::text, '') as ");
        list.append(quoted.as_str());
        list.append(", ");
        proof {
            assert(cols[i as int] == columns@[i as int]@);
            assert(cols.take(i + 1) =~= cols.take(i as int).push(cols[i as int]));
            lemma_projection_list_push(cols.take(i as int), cols[i as int]);
            assert(list@ =~= projection_list(cols.take(i + 1)));
        }
        i += 1;
    }
    proof {
        assert(cols.take(columns@.len() as int) =~= cols);
    }
    let mut inner = String::from_str("SELECT ");
    inner.append(list.as_str());
    inner.append("null as \"________nothing\" from ");
    let quoted_table = quote_ident(table);
    inner.append(quoted_table.as_str());
    proof {
        assert(inner@ =~= inner_query_text(table@, cols));
    }
    let mut out = String::from_str("SELECT *, COUNT(*) OVER () as \"__table_count_total\" FROM (");
    out.append(inner.as_str());
    out.append(") as paged_query_with OFFSET $1 LIMIT $2");
    proof {
        assert(out@ =~= projection_query_text(table@, cols));
    }
    out
}

} // verus!
