//! The SQL output: connection configuration and row extraction.
//!
//! The database connections and the insert statements are the embedding's
//! work. Fixed here: which SSL mode names are accepted, how the client
//! certificate and key options combine, and how a columnar batch turns into
//! the rows an insert binds — one value list per row, column order preserved.

use crate::batch::{CellValue, RecordBatch};
use crate::error::Error;
use crate::registry::Registries;
use crate::text::{ascii_eq_ignore_case, spec_eq_ignore_ascii_case};
use vstd::prelude::*;
use vstd::string::StringExecFns;

verus! {

/// The database engines the output can write to.
#[derive(Clone, Copy, Debug, PartialEq, Eq, Structural)]
pub enum DatabaseType {
    Mysql,
    Postgres,
    Sqlite,
}

/// SSL configuration of a database connection.
pub struct SslConfig {
    /// The SSL mode name.
    pub ssl_mode: String,
    /// Root certificate path.
    pub root_cert: Option<String>,
    /// Client certificate path.
    pub client_cert: Option<String>,
    /// Client key path.
    pub client_key: Option<String>,
}

/// SQL output configuration.
pub struct SqlOutputConfig {
    /// Which engine to write to.
    pub database_type: DatabaseType,
    /// The table inserts go into.
    pub table_name: String,
    /// The connection string.
    pub uri: String,
    /// SSL settings, when the connection is secured.
    pub ssl: Option<SslConfig>,
}

/// The SSL modes a connection can demand, in increasing strictness.
#[derive(Clone, Copy, Debug, PartialEq, Eq, Structural)]
pub enum SslMode {
    Disable,
    Prefer,
    Require,
    VerifyCa,
    VerifyFull,
}

/// The SSL mode a configured name selects, compared ignoring ASCII case; any
/// other name is a `Config` error.
pub fn parse_ssl_mode(mode: &String) -> (r: Result<SslMode, Error>)
    ensures
        spec_eq_ignore_ascii_case(mode@, "DISABLE"@) ==> r == Ok::<SslMode, Error>(
            SslMode::Disable,
        ),
        spec_eq_ignore_ascii_case(mode@, "PREFER"@) ==> r == Ok::<SslMode, Error>(SslMode::Prefer),
        spec_eq_ignore_ascii_case(mode@, "REQUIRE"@) ==> r == Ok::<SslMode, Error>(
            SslMode::Require,
        ),
        spec_eq_ignore_ascii_case(mode@, "VERIFY_CA"@) ==> r == Ok::<SslMode, Error>(
            SslMode::VerifyCa,
        ),
        spec_eq_ignore_ascii_case(mode@, "VERIFY_FULL"@) ==> r == Ok::<SslMode, Error>(
            SslMode::VerifyFull,
        ),
        r is Err <==> !(spec_eq_ignore_ascii_case(mode@, "DISABLE"@) || spec_eq_ignore_ascii_case(
            mode@,
            "PREFER"@,
        ) || spec_eq_ignore_ascii_case(mode@, "REQUIRE"@) || spec_eq_ignore_ascii_case(
            mode@,
            "VERIFY_CA"@,
        ) || spec_eq_ignore_ascii_case(mode@, "VERIFY_FULL"@)),
        r matches Err(e) ==> e is Config,
{
    proof {
        reveal_strlit("DISABLE");
        reveal_strlit("PREFER");
        reveal_strlit("REQUIRE");
        reveal_strlit("VERIFY_CA");
        reveal_strlit("VERIFY_FULL");
    }
    if ascii_eq_ignore_case(mode.as_str(), "DISABLE") {
        proof {
            crate::text::lemma_eq_ignore_distinct(mode@, "DISABLE"@, "REQUIRE"@, 0);
        }
        Ok(SslMode::Disable)
    } else if ascii_eq_ignore_case(mode.as_str(), "PREFER") {
        Ok(SslMode::Prefer)
    } else if ascii_eq_ignore_case(mode.as_str(), "REQUIRE") {
        Ok(SslMode::Require)
    } else if ascii_eq_ignore_case(mode.as_str(), "VERIFY_CA") {
        Ok(SslMode::VerifyCa)
    } else if ascii_eq_ignore_case(mode.as_str(), "VERIFY_FULL") {
        Ok(SslMode::VerifyFull)
    } else {
        Err(Error::Config(String::from_str("Invalid SSL mode")))
    }
}

/// How the configured client certificate and key combine.
#[derive(Clone, Copy, Debug, PartialEq, Eq, Structural)]
pub enum ClientCertUsage {
    /// Certificate and key are both configured and both apply.
    Both,
    /// A certificate without its key is ignored, with a warning.
    IgnoreCertWithoutKey,
    /// A key without its certificate is ignored, with a warning.
    IgnoreKeyWithoutCert,
    /// Neither is configured.
    Neither,
}

/// The connection applies the client certificate only together with its key;
/// one without the other is ignored with a warning.
pub fn client_cert_usage(client_cert: &Option<String>, client_key: &Option<String>) -> (r:
    ClientCertUsage)
    ensures
        client_cert is Some && client_key is Some ==> r == ClientCertUsage::Both,
        client_cert is Some && client_key is None ==> r == ClientCertUsage::IgnoreCertWithoutKey,
        client_cert is None && client_key is Some ==> r == ClientCertUsage::IgnoreKeyWithoutCert,
        client_cert is None && client_key is None ==> r == ClientCertUsage::Neither,
{
    match (client_cert, client_key) {
        (Some(_), Some(_)) => ClientCertUsage::Both,
        (Some(_), None) => ClientCertUsage::IgnoreCertWithoutKey,
        (None, Some(_)) => ClientCertUsage::IgnoreKeyWithoutCert,
        (None, None) => ClientCertUsage::Neither,
    }
}

/// The column names of a batch, in schema order; they name the insert's
/// target columns.
pub fn column_names(batch: &RecordBatch) -> (r: Vec<String>)
    requires
        batch@.wf(),
    ensures
        r@.len() == batch@.schema.len(),
        forall|i: int| 0 <= i < r@.len() ==> (#[trigger] r@[i])@ == batch@.schema[i].name,
{
    let mut r: Vec<String> = Vec::new();
    let n = batch.num_columns();
    for i in 0..n
        invariant
            batch@.wf(),
            n == batch@.schema.len(),
            r@.len() == i,
            forall|k: int| 0 <= k < i ==> (#[trigger] r@[k])@ == batch@.schema[k].name,
    {
        r.push(batch.field(i).name.clone());
    }
    r
}

/// The rows an insert binds, extracted row-major from a columnar batch: one
/// value list per row, columns in schema order.
pub fn extract_rows(batch: &RecordBatch) -> (r: Vec<Vec<CellValue>>)
    requires
        batch@.wf(),
    ensures
        r@.len() == batch@.rows,
        forall|row: int|
            0 <= row < r@.len() ==> (#[trigger] r@[row])@.len() == batch@.columns.len(),
        forall|row: int, col: int|
            0 <= row < r@.len() && 0 <= col < batch@.columns.len() ==> (#[trigger] r@[row]@[
            col])@ == batch@.columns[col][row],
{
    let mut r: Vec<Vec<CellValue>> = Vec::new();
    let rows = batch.num_rows();
    let cols = batch.num_columns();
    for row in 0..rows
        invariant
            batch@.wf(),
            rows == batch@.rows,
            cols == batch@.columns.len(),
            r@.len() == row,
            forall|k: int| 0 <= k < row ==> (#[trigger] r@[k])@.len() == cols,
            forall|k: int, col: int|
                0 <= k < row && 0 <= col < cols ==> (#[trigger] r@[k]@[col])@
                    == batch@.columns[col][k],
    {
        let mut one_row: Vec<CellValue> = Vec::new();
        for col in 0..cols
            invariant
                batch@.wf(),
                rows == batch@.rows,
                cols == batch@.columns.len(),
                row < rows,
                one_row@.len() == col,
                forall|c: int| 0 <= c < col ==> (#[trigger] one_row@[c])@ == batch@.columns[c][row
                    as int],
        {
            let column = batch.column(col);
            proof {
                assert(column@.map_values(|x: CellValue| x@)[row as int] == batch@.columns[
                col as int][row as int]);
            }
            one_row.push(column[row].clone());
        }
        r.push(one_row);
    }
    r
}

/// Register the SQL output builder under its `sql` tag.
pub fn init(registries: &mut Registries, builder: u64) -> (r: Result<(), Error>)
    requires
        old(registries).wf(),
    ensures
        final(registries).wf(),
        r is Ok <==> !old(registries).spec_output().spec_contains("sql"@),
        r is Ok ==> final(registries).spec_output().spec_lookup("sql"@) == Some(builder),
        r is Ok ==> final(registries).spec_output().tags() == old(
            registries,
        ).spec_output().tags().push("sql"@),
        r matches Err(e) ==> e is Config,
{
    registries.register_output_builder(String::from_str("sql"), builder)
}

} // verus!
