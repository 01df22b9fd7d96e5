//! The schema builder: the CREATE TABLE statement with one typed column per
//! header, in header order, and the parameterized INSERT statement with one
//! placeholder per header. Column names are embedded double-quoted as given;
//! the table name is embedded as given. Nothing is validated here: a name
//! that makes the statement invalid is the storage engine's to reject.

use crate::types::{sql_type, sql_type_spec, ColumnType};
use vstd::prelude::*;
use vstd::string::StringExecFns;

verus! {

/// A column name as it stands in SQL: wrapped in double quotes.
pub open spec fn quoted(h: Seq<char>) -> Seq<char> {
    "\""@ + h + "\""@
}

/// One column definition: the quoted name, a space, the type keyword.
pub open spec fn col_def(h: Seq<char>, t: ColumnType) -> Seq<char> {
    quoted(h) + " "@ + sql_type_spec(t)
}

/// The column definitions joined with ", ", in header order.
pub open spec fn col_defs(headers: Seq<Seq<char>>, types: Seq<ColumnType>) -> Seq<char>
    decreases headers.len(),
{
    if headers.len() == 0 {
        Seq::empty()
    } else if headers.len() == 1 {
        col_def(headers[0], types[0])
    } else {
        col_defs(headers.drop_last(), types.drop_last()) + ", "@ + col_def(
            headers.last(),
            types.last(),
        )
    }
}

/// The whole CREATE TABLE statement.
pub open spec fn create_sql_spec(
    table: Seq<char>,
    headers: Seq<Seq<char>>,
    types: Seq<ColumnType>,
) -> Seq<char> {
    "CREATE TABLE "@ + table + " ("@ + col_defs(headers, types) + ")"@
}

/// The quoted column names joined with ", ", in header order.
pub open spec fn name_list(headers: Seq<Seq<char>>) -> Seq<char>
    decreases headers.len(),
{
    if headers.len() == 0 {
        Seq::empty()
    } else if headers.len() == 1 {
        quoted(headers[0])
    } else {
        name_list(headers.drop_last()) + ", "@ + quoted(headers.last())
    }
}

/// n placeholders joined with ", ".
pub open spec fn placeholders(n: int) -> Seq<char>
    decreases n,
{
    if n <= 0 {
        Seq::empty()
    } else if n == 1 {
        "?"@
    } else {
        placeholders(n - 1) + ", ?"@
    }
}

/// The whole parameterized INSERT statement.
pub open spec fn insert_sql_spec(table: Seq<char>, headers: Seq<Seq<char>>) -> Seq<char> {
    "INSERT INTO "@ + table + " ("@ + name_list(headers) + ") VALUES ("@ + placeholders(
        headers.len() as int,
    ) + ")"@
}

/// Builds the CREATE TABLE statement for the given table name, headers and
/// column types.
pub fn build_create_sql(table: &str, headers: &Vec<String>, types: &Vec<ColumnType>) -> (r: String)
    requires
        headers@.len() == types@.len(),
    ensures
        r@ == create_sql_spec(table@, headers.deep_view(), types@),
{
    let ghost hs = headers.deep_view();
    let mut out = String::from_str("CREATE TABLE ");
    out.append(table);
    out.append(" (");
    let ghost prefix = out@;
    let n = headers.len();
    for i in 0..n
        invariant
            n == headers@.len() == types@.len(),
            hs == headers.deep_view(),
            hs.len() == n,
            prefix == "CREATE TABLE "@ + table@ + " ("@,
            out@ == prefix + col_defs(hs.take(i as int), types@.take(i as int)),
    {
        proof {
            assert(hs.take(i + 1).drop_last() =~= hs.take(i as int));
            assert(types@.take(i + 1).drop_last() =~= types@.take(i as int));
            assert(hs.take(i + 1).last() == hs[i as int]);
            assert(types@.take(i + 1).last() == types@[i as int]);
            assert(hs[i as int] == headers@[i as int]@);
        }
        if i > 0 {
            out.append(", ");
        }
        out.append("\"");
        out.append(headers[i].as_str());
        out.append("\"");
        out.append(" ");
        out.append(sql_type(types[i]));
        proof {
            assert(out@ =~= prefix + col_defs(hs.take(i + 1), types@.take(i + 1)));
        }
    }
    out.append(")");
    proof {
        assert(hs.take(n as int) =~= hs);
        assert(types@.take(n as int) =~= types@);
        assert(out@ =~= create_sql_spec(table@, hs, types@));
    }
    out
}

/// Builds the parameterized INSERT statement for the given table name and
/// headers.
pub fn build_insert_sql(table: &str, headers: &Vec<String>) -> (r: String)
    ensures
        r@ == insert_sql_spec(table@, headers.deep_view()),
{
    let ghost hs = headers.deep_view();
    let mut out = String::from_str("INSERT INTO ");
    out.append(table);
    out.append(" (");
    let ghost prefix = out@;
    let n = headers.len();
    for i in 0..n
        invariant
            n == headers@.len(),
            hs == headers.deep_view(),
            hs.len() == n,
            prefix == "INSERT INTO "@ + table@ + " ("@,
            out@ == prefix + name_list(hs.take(i as int)),
    {
        proof {
            assert(hs.take(i + 1).drop_last() =~= hs.take(i as int));
            assert(hs.take(i + 1).last() == hs[i as int]);
            assert(hs[i as int] == headers@[i as int]@);
        }
        if i > 0 {
            out.append(", ");
        }
        out.append("\"");
        out.append(headers[i].as_str());
        out.append("\"");
        proof {
            assert(out@ =~= prefix + name_list(hs.take(i + 1)));
        }
    }
    proof {
        assert(hs.take(n as int) =~= hs);
    }
    out.append(") VALUES (");
    let ghost prefix2 = out@;
    proof {
        assert(prefix2 =~= "INSERT INTO "@ + table@ + " ("@ + name_list(hs) + ") VALUES ("@);
    }
    for i in 0..n
        invariant
            n == headers@.len(),
            hs == headers.deep_view(),
            hs.len() == n,
            prefix2 == "INSERT INTO "@ + table@ + " ("@ + name_list(hs) + ") VALUES ("@,
            out@ == prefix2 + placeholders(i as int),
    {
        if i > 0 {
            out.append(", ?");
        } else {
            out.append("?");
        }
        proof {
            assert(out@ =~= prefix2 + placeholders(i + 1));
        }
    }
    out.append(")");
    proof {
        assert(hs.take(n as int) =~= hs);
        assert(out@ =~= insert_sql_spec(table@, hs));
    }
    out
}

} // verus!
