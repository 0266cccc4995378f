//! The SQL input: one query, read exactly once.
//!
//! The input runs a table definition and a select statement against an
//! embedded query engine once, hands the collected record batches downstream
//! as a single message batch, and reports `EOF` on every later read. The
//! query execution itself happens in the embedding; the read-once gate, the
//! statement handover and the coalescing of the result batches are fixed and
//! verified here.

use crate::batch::{concat_batches, MessageBatch, RecordBatch};
use crate::error::Error;
use vstd::prelude::*;

verus! {

/// SQL input configuration: the select statement to read with, and the table
/// definition to run first.
pub struct SqlConfig {
    pub select_sql: String,
    pub create_table_sql: String,
}

/// The SQL input component: its configuration and whether the one read has
/// already happened.
pub struct SqlInput {
    sql_config: SqlConfig,
    read: bool,
}

impl SqlInput {
    /// The select statement.
    pub closed spec fn spec_select_sql(self) -> Seq<char> {
        self.sql_config.select_sql@
    }

    /// The table definition statement.
    pub closed spec fn spec_create_table_sql(self) -> Seq<char> {
        self.sql_config.create_table_sql@
    }

    /// Whether the one read has already completed.
    pub closed spec fn spec_read(self) -> bool {
        self.read
    }

    /// Create the input from its configuration; nothing has been read yet.
    pub fn new(sql_config: &SqlConfig) -> (r: Result<SqlInput, Error>)
        ensures
            r is Ok,
            r matches Ok(input) ==> {
                &&& input.spec_select_sql() == sql_config.select_sql@
                &&& input.spec_create_table_sql() == sql_config.create_table_sql@
                &&& !input.spec_read()
            },
    {
        Ok(
            SqlInput {
                sql_config: SqlConfig {
                    select_sql: sql_config.select_sql.clone(),
                    create_table_sql: sql_config.create_table_sql.clone(),
                },
                read: false,
            },
        )
    }

    /// Connecting needs no external resource; it always succeeds.
    pub fn connect(&self) -> (r: Result<(), Error>)
        ensures
            r is Ok,
    {
        Ok(())
    }

    /// The read-once gate: the statements to run, in order (table definition
    /// first), as long as nothing has been read; after the one successful
    /// read every further read reports `EOF`.
    pub fn begin_read(&self) -> (r: Result<(String, String), Error>)
        ensures
            r is Ok <==> !self.spec_read(),
            r matches Ok(stmts) ==> stmts.0@ == self.spec_create_table_sql() && stmts.1@
                == self.spec_select_sql(),
            r matches Err(e) ==> e is EOF,
    {
        if self.read {
            return Err(Error::EOF);
        }
        Ok((self.sql_config.create_table_sql.clone(), self.sql_config.select_sql.clone()))
    }

    /// Record that the one read completed; later reads report `EOF`.
    pub fn complete_read(&mut self)
        ensures
            final(self).spec_read(),
            final(self).spec_select_sql() == old(self).spec_select_sql(),
            final(self).spec_create_table_sql() == old(self).spec_create_table_sql(),
    {
        self.read = true;
    }

    /// Close the input. No external resource needs releasing, so closing
    /// always succeeds; after it, every read reports `EOF`.
    pub fn close(&mut self) -> (r: Result<(), Error>)
        ensures
            r is Ok,
            final(self).spec_read(),
            final(self).spec_select_sql() == old(self).spec_select_sql(),
            final(self).spec_create_table_sql() == old(self).spec_create_table_sql(),
    {
        self.read = true;
        Ok(())
    }
}

/// Turn the record batches a query collected into the one message batch this
/// input emits: none makes an empty columnar batch, one passes through, and
/// several concatenate under their common schema — inconsistent schemas are
/// a `Process` error.
pub fn coalesce_results(batches: Vec<RecordBatch>) -> (r: Result<MessageBatch, Error>)
    requires
        forall|k: int| 0 <= k < batches@.len() ==> (#[trigger] batches@[k])@.wf(),
    ensures
        batches@.len() == 0 ==> (r matches Ok(m) && m@ is Arrow && m@.len() == 0),
        batches@.len() > 0 ==> (r is Ok <==> (crate::batch::all_same_schema(
            batches@.map_values(|b: RecordBatch| b@),
        ) && crate::batch::sum_rows(batches@.map_values(|b: RecordBatch| b@)) <= usize::MAX)),
        r matches Ok(m) ==> m@.wf() && m@ is Arrow,
        r matches Ok(m) ==> (batches@.len() > 0 ==> {
            &&& m@->Arrow_0.schema == batches@[0]@.schema
            &&& m@->Arrow_0.rows == crate::batch::sum_rows(
                batches@.map_values(|b: RecordBatch| b@),
            )
            &&& forall|i: int|
                0 <= i < m@->Arrow_0.columns.len() ==> #[trigger] m@->Arrow_0.columns[i]
                    == crate::batch::concat_col(batches@.map_values(|b: RecordBatch| b@), i)
        }),
        r matches Err(e) ==> e is Process,
{
    if batches.len() == 0 {
        let empty = RecordBatch::empty();
        return Ok(MessageBatch::new_arrow(empty));
    }
    match concat_batches(&batches) {
        Ok(merged) => Ok(MessageBatch::new_arrow(merged)),
        Err(e) => Err(e),
    }
}

} // verus!
