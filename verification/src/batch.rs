//! The unit of data flow: a message batch.
//!
//! A batch carries either a columnar record batch (a schema and one column of
//! cells per field) or a vector of opaque byte payloads. Both variants have a
//! well-defined length: the row count for columnar data, the payload count for
//! binary data. An empty batch is legal and traverses the pipeline without
//! producing downstream work.

use crate::error::Error;
use vstd::prelude::*;
use vstd::string::StrSliceExecFns;
use vstd::string::StringExecFns;
use vstd::string::StringSliceAdditionalSpecFns;

verus! {

/// The primitive and list types a column of cells can have.
#[derive(Clone, Copy, Debug, PartialEq, Eq, Structural)]
pub enum DataType {
    Boolean,
    Int64,
    UInt64,
    Utf8,
    BooleanList,
    UInt16List,
}

/// One named, typed column slot of a schema.
pub struct Field {
    pub name: String,
    pub data_type: DataType,
}

/// The mathematical value of a `Field`.
#[verifier::ext_equal]
pub struct FieldV {
    pub name: Seq<char>,
    pub data_type: DataType,
}

impl View for Field {
    type V = FieldV;

    open spec fn view(&self) -> FieldV {
        FieldV { name: self.name@, data_type: self.data_type }
    }
}

impl Field {
    /// Build a field from a name and a type.
    pub fn new(name: String, data_type: DataType) -> (r: Field)
        ensures
            r@.name == name@,
            r@.data_type == data_type,
    {
        Field { name, data_type }
    }
}

impl Clone for Field {
    fn clone(&self) -> (r: Self)
        ensures
            r@ == self@,
    {
        Field { name: self.name.clone(), data_type: self.data_type }
    }
}

/// One cell of a column: a primitive value, a list value, or null.
#[derive(Debug)]
pub enum CellValue {
    Null,
    Boolean(bool),
    Int64(i64),
    UInt64(u64),
    Utf8(String),
    BooleanList(Vec<bool>),
    UInt16List(Vec<u16>),
}

/// The mathematical value of a `CellValue`.
#[verifier::ext_equal]
pub enum CellV {
    Null,
    Boolean(bool),
    Int64(i64),
    UInt64(u64),
    Utf8(Seq<char>),
    BooleanList(Seq<bool>),
    UInt16List(Seq<u16>),
}

impl View for CellValue {
    type V = CellV;

    open spec fn view(&self) -> CellV {
        match self {
            CellValue::Null => CellV::Null,
            CellValue::Boolean(b) => CellV::Boolean(*b),
            CellValue::Int64(v) => CellV::Int64(*v),
            CellValue::UInt64(v) => CellV::UInt64(*v),
            CellValue::Utf8(s) => CellV::Utf8(s@),
            CellValue::BooleanList(v) => CellV::BooleanList(v@),
            CellValue::UInt16List(v) => CellV::UInt16List(v@),
        }
    }
}

impl Clone for CellValue {
    fn clone(&self) -> (r: Self)
        ensures
            r@ == self@,
    {
        match self {
            CellValue::Null => CellValue::Null,
            CellValue::Boolean(b) => CellValue::Boolean(*b),
            CellValue::Int64(v) => CellValue::Int64(*v),
            CellValue::UInt64(v) => CellValue::UInt64(*v),
            CellValue::Utf8(s) => CellValue::Utf8(s.clone()),
            CellValue::BooleanList(v) => CellValue::BooleanList(v.clone()),
            CellValue::UInt16List(v) => CellValue::UInt16List(v.clone()),
        }
    }
}

/// Whether a cell is admissible in a column of the given type: it is null or
/// carries exactly that type.
pub open spec fn cell_matches(c: CellV, dt: DataType) -> bool {
    match c {
        CellV::Null => true,
        CellV::Boolean(_) => dt == DataType::Boolean,
        CellV::Int64(_) => dt == DataType::Int64,
        CellV::UInt64(_) => dt == DataType::UInt64,
        CellV::Utf8(_) => dt == DataType::Utf8,
        CellV::BooleanList(_) => dt == DataType::BooleanList,
        CellV::UInt16List(_) => dt == DataType::UInt16List,
    }
}

impl CellValue {
    /// Whether this cell is admissible in a column of the given type.
    pub fn matches(&self, dt: DataType) -> (r: bool)
        ensures
            r == cell_matches(self@, dt),
    {
        match self {
            CellValue::Null => true,
            CellValue::Boolean(_) => dt == DataType::Boolean,
            CellValue::Int64(_) => dt == DataType::Int64,
            CellValue::UInt64(_) => dt == DataType::UInt64,
            CellValue::Utf8(_) => dt == DataType::Utf8,
            CellValue::BooleanList(_) => dt == DataType::BooleanList,
            CellValue::UInt16List(_) => dt == DataType::UInt16List,
        }
    }
}

/// The mathematical value of a `RecordBatch`.
#[verifier::ext_equal]
pub struct RecordBatchV {
    pub schema: Seq<FieldV>,
    pub columns: Seq<Seq<CellV>>,
    pub rows: nat,
}

impl RecordBatchV {
    /// Shape and typing constraints every record batch satisfies: one column
    /// per field, every column of the same length, every cell admissible in
    /// its column's type, and no rows without columns.
    pub open spec fn wf(self) -> bool {
        &&& self.columns.len() == self.schema.len()
        &&& forall|i: int|
            0 <= i < self.columns.len() ==> (#[trigger] self.columns[i]).len() == self.rows
        &&& forall|i: int, j: int|
            0 <= i < self.columns.len() && 0 <= j < self.columns[i].len() ==> cell_matches(
                #[trigger] self.columns[i][j],
                self.schema[i].data_type,
            )
        &&& self.schema.len() == 0 ==> self.rows == 0
    }
}

/// A columnar record batch: a schema and one column of cells per field.
pub struct RecordBatch {
    fields: Vec<Field>,
    columns: Vec<Vec<CellValue>>,
    rows: usize,
}

impl View for RecordBatch {
    type V = RecordBatchV;

    closed spec fn view(&self) -> RecordBatchV {
        RecordBatchV {
            schema: self.fields@.map_values(|f: Field| f@),
            columns: self.columns@.map_values(|c: Vec<CellValue>| c@.map_values(|x: CellValue| x@)),
            rows: self.rows as nat,
        }
    }
}

impl RecordBatch {
    /// The record batch with no fields and no rows.
    pub fn empty() -> (r: RecordBatch)
        ensures
            r@.schema.len() == 0,
            r@.columns.len() == 0,
            r@.rows == 0,
            r@.wf(),
    {
        let r = RecordBatch { fields: Vec::new(), columns: Vec::new(), rows: 0 };
        proof {
            assert(r@.schema =~= Seq::<FieldV>::empty());
            assert(r@.columns =~= Seq::<Seq<CellV>>::empty());
        }
        r
    }

    /// Whether fields and columns fit together as a record batch: one column
    /// per field, all columns of one length, and typed cells only.
    pub open spec fn spec_shape_ok(schema: Seq<FieldV>, columns: Seq<Seq<CellV>>) -> bool {
        &&& columns.len() == schema.len()
        &&& forall|i: int|
            0 <= i < columns.len() ==> (#[trigger] columns[i]).len() == spec_rows_of(columns)
        &&& forall|i: int, j: int|
            0 <= i < columns.len() && 0 <= j < columns[i].len() ==> cell_matches(
                #[trigger] columns[i][j],
                schema[i].data_type,
            )
    }

    /// Build a record batch, validating the shape; rejects mismatched column
    /// counts, ragged columns and ill-typed cells with a `Process` error.
    pub fn try_new(fields: Vec<Field>, columns: Vec<Vec<CellValue>>) -> (r: Result<
        RecordBatch,
        Error,
    >)
        ensures
            r is Ok <==> Self::spec_shape_ok(
                fields@.map_values(|f: Field| f@),
                columns@.map_values(|c: Vec<CellValue>| c@.map_values(|x: CellValue| x@)),
            ),
            r matches Ok(b) ==> {
                &&& b@.schema == fields@.map_values(|f: Field| f@)
                &&& b@.columns == columns@.map_values(
                    |c: Vec<CellValue>| c@.map_values(|x: CellValue| x@),
                )
                &&& b@.wf()
            },
            r matches Err(e) ==> e is Process,
    {
        let ghost gschema = fields@.map_values(|f: Field| f@);
        let ghost gcols = columns@.map_values(|c: Vec<CellValue>| c@.map_values(|x: CellValue| x@));
        if columns.len() != fields.len() {
            return Err(Error::Process(String::from_str("column count does not match schema")));
        }
        let rows: usize = if columns.len() > 0 {
            columns[0].len()
        } else {
            0
        };
        proof {
            if columns@.len() > 0 {
                assert(gcols[0] == columns@[0]@.map_values(|x: CellValue| x@));
                assert(spec_rows_of(gcols) == gcols[0].len());
            }
            assert(rows as nat == spec_rows_of(gcols));
        }
        let n = columns.len();
        for i in 0..n
            invariant
                n == columns@.len(),
                n == fields@.len(),
                gschema == fields@.map_values(|f: Field| f@),
                gcols == columns@.map_values(
                    |c: Vec<CellValue>| c@.map_values(|x: CellValue| x@),
                ),
                rows as nat == spec_rows_of(gcols),
                forall|k: int| 0 <= k < i ==> (#[trigger] gcols[k]).len() == rows as nat,
                forall|k: int, j: int|
                    0 <= k < i && 0 <= j < gcols[k].len() ==> cell_matches(
                        #[trigger] gcols[k][j],
                        gschema[k].data_type,
                    ),
        {
            if columns[i].len() != rows {
                proof {
                    assert(gcols[i as int] == columns@[i as int]@.map_values(|x: CellValue| x@));
                    assert(gcols[i as int].len() != spec_rows_of(gcols));
                }
                return Err(Error::Process(String::from_str("columns have unequal lengths")));
            }
            let m = columns[i].len();
            for j in 0..m
                invariant
                    n == columns@.len(),
                    n == fields@.len(),
                    i < n,
                    gschema == fields@.map_values(|f: Field| f@),
                    gcols == columns@.map_values(
                        |c: Vec<CellValue>| c@.map_values(|x: CellValue| x@),
                    ),
                    m == columns@[i as int]@.len(),
                    forall|l: int|
                        0 <= l < j ==> cell_matches(
                            #[trigger] gcols[i as int][l],
                            gschema[i as int].data_type,
                        ),
            {
                if !columns[i][j].matches(fields[i].data_type) {
                    proof {
                        assert(gcols[i as int] == columns@[i as int]@.map_values(
                            |x: CellValue| x@,
                        ));
                        assert(gcols[i as int][j as int] == columns@[i as int]@[j as int]@);
                        assert(gschema[i as int] == fields@[i as int]@);
                        assert(!cell_matches(gcols[i as int][j as int], gschema[i as int].data_type));
                    }
                    return Err(
                        Error::Process(String::from_str("cell does not match the column type")),
                    );
                }
            }
            proof {
                assert(gcols[i as int] == columns@[i as int]@.map_values(|x: CellValue| x@));
                assert(gcols[i as int].len() == m);
            }
        }
        let r = RecordBatch { fields, columns, rows };
        Ok(r)
    }

    /// The number of rows.
    pub fn num_rows(&self) -> (r: usize)
        ensures
            r == self@.rows,
    {
        self.rows
    }

    /// The number of fields (and columns).
    pub fn num_columns(&self) -> (r: usize)
        requires
            self@.wf(),
        ensures
            r == self@.schema.len(),
            r == self@.columns.len(),
    {
        self.fields.len()
    }

    /// The field at the given position.
    pub fn field(&self, i: usize) -> (r: &Field)
        requires
            i < self@.schema.len(),
        ensures
            r@ == self@.schema[i as int],
    {
        &self.fields[i]
    }

    /// The column of cells at the given position.
    pub fn column(&self, i: usize) -> (r: &Vec<CellValue>)
        requires
            self@.wf(),
            i < self@.columns.len(),
        ensures
            r@.map_values(|x: CellValue| x@) == self@.columns[i as int],
    {
        proof {
            assert(self@.columns[i as int] == self.columns@[i as int]@.map_values(
                |x: CellValue| x@,
            ));
        }
        &self.columns[i]
    }

    /// The position of the first field with the given name, if any.
    pub fn column_index_of(&self, name: &String) -> (r: Option<usize>)
        requires
            self@.wf(),
        ensures
            match r {
                Some(i) => {
                    &&& i < self@.schema.len()
                    &&& self@.schema[i as int].name == name@
                    &&& forall|k: int| 0 <= k < i ==> (#[trigger] self@.schema[k]).name != name@
                },
                None => forall|k: int|
                    0 <= k < self@.schema.len() ==> (#[trigger] self@.schema[k]).name != name@,
            },
    {
        let n = self.fields.len();
        for i in 0..n
            invariant
                n == self@.schema.len(),
                n == self.fields@.len(),
                forall|k: int| 0 <= k < i ==> (#[trigger] self@.schema[k]).name != name@,
        {
            proof {
                assert(self@.schema[i as int] == self.fields@[i as int]@);
            }
            if self.fields[i].name == *name {
                return Some(i);
            }
        }
        None
    }

    /// Whether two batches have the same schema: same field names, same
    /// types, in the same order.
    pub fn same_schema(&self, other: &RecordBatch) -> (r: bool)
        ensures
            r == (self@.schema == other@.schema),
    {
        if self.fields.len() != other.fields.len() {
            proof {
                assert(self@.schema.len() == self.fields@.len());
                assert(other@.schema.len() == other.fields@.len());
            }
            return false;
        }
        let n = self.fields.len();
        for i in 0..n
            invariant
                n == self.fields@.len(),
                n == other.fields@.len(),
                forall|k: int| 0 <= k < i ==> self@.schema[k] =~= other@.schema[k],
        {
            proof {
                assert(self@.schema[i as int] == self.fields@[i as int]@);
                assert(other@.schema[i as int] == other.fields@[i as int]@);
            }
            let name_eq = self.fields[i].name == other.fields[i].name;
            let type_eq = self.fields[i].data_type == other.fields[i].data_type;
            if !(name_eq && type_eq) {
                proof {
                    assert(!(self@.schema == other@.schema)) by {
                        if self@.schema == other@.schema {
                            assert(self@.schema[i as int] == other@.schema[i as int]);
                        }
                    }
                }
                return false;
            }
        }
        proof {
            assert(self@.schema =~= other@.schema);
            assert(self@.schema == other@.schema);
        }
        true
    }
}

/// The row count a list of columns determines: the length of the first
/// column, or zero when there are no columns.
pub open spec fn spec_rows_of(columns: Seq<Seq<CellV>>) -> nat {
    if columns.len() == 0 {
        0
    } else {
        columns[0].len()
    }
}

/// The total number of rows over a list of record batches.
pub open spec fn sum_rows(s: Seq<RecordBatchV>) -> nat
    decreases s.len(),
{
    if s.len() == 0 {
        0
    } else {
        sum_rows(s.drop_last()) + s.last().rows
    }
}

/// Column `i` of the concatenation of a list of record batches: the cells of
/// each batch's column `i`, in batch order.
pub open spec fn concat_col(s: Seq<RecordBatchV>, i: int) -> Seq<CellV>
    decreases s.len(),
{
    if s.len() == 0 {
        Seq::empty()
    } else {
        concat_col(s.drop_last(), i) + s.last().columns[i]
    }
}

/// Whether every batch in the list shares the schema of the first.
pub open spec fn all_same_schema(s: Seq<RecordBatchV>) -> bool {
    forall|k: int| 0 <= k < s.len() ==> (#[trigger] s[k]).schema == s[0].schema
}

/// Copy a column of cells.
fn clone_cells(v: &Vec<CellValue>) -> (r: Vec<CellValue>)
    ensures
        r@.map_values(|x: CellValue| x@) == v@.map_values(|x: CellValue| x@),
{
    let mut r: Vec<CellValue> = Vec::new();
    let n = v.len();
    for i in 0..n
        invariant
            n == v@.len(),
            r@.len() == i,
            forall|k: int| 0 <= k < i ==> (#[trigger] r@[k])@ == v@[k]@,
    {
        r.push(v[i].clone());
    }
    proof {
        assert(r@.map_values(|x: CellValue| x@) =~= v@.map_values(|x: CellValue| x@));
    }
    r
}

/// Copy a schema.
fn clone_fields(v: &Vec<Field>) -> (r: Vec<Field>)
    ensures
        r@.map_values(|f: Field| f@) == v@.map_values(|f: Field| f@),
{
    let mut r: Vec<Field> = Vec::new();
    let n = v.len();
    for i in 0..n
        invariant
            n == v@.len(),
            r@.len() == i,
            forall|k: int| 0 <= k < i ==> (#[trigger] r@[k])@ == v@[k]@,
    {
        r.push(v[i].clone());
    }
    proof {
        assert(r@.map_values(|f: Field| f@) =~= v@.map_values(|f: Field| f@));
    }
    r
}

/// Concatenate record batches under their common schema, preserving batch
/// order within every column. Batches with inconsistent schemas are rejected
/// with a `Process` error, as is a merge whose row count cannot be
/// represented.
pub fn concat_batches(batches: &Vec<RecordBatch>) -> (r: Result<RecordBatch, Error>)
    requires
        batches@.len() >= 1,
        forall|k: int| 0 <= k < batches@.len() ==> (#[trigger] batches@[k])@.wf(),
    ensures
        r is Ok <==> (all_same_schema(batches@.map_values(|b: RecordBatch| b@)) && sum_rows(
            batches@.map_values(|b: RecordBatch| b@),
        ) <= usize::MAX),
        r matches Ok(m) ==> {
            &&& m@.schema == batches@[0]@.schema
            &&& m@.rows == sum_rows(batches@.map_values(|b: RecordBatch| b@))
            &&& m@.columns.len() == m@.schema.len()
            &&& forall|i: int|
                0 <= i < m@.columns.len() ==> #[trigger] m@.columns[i] == concat_col(
                    batches@.map_values(|b: RecordBatch| b@),
                    i,
                )
            &&& m@.wf()
        },
        r matches Err(e) ==> e is Process,
{
    let ghost views = batches@.map_values(|b: RecordBatch| b@);
    let ncols = batches[0].num_columns();
    proof {
        assert(views[0] == batches@[0]@);
    }
    let mut merged: Vec<Vec<CellValue>> = Vec::new();
    for i in 0..ncols
        invariant
            merged@.len() == i,
            forall|k: int| 0 <= k < i ==> (#[trigger] merged@[k])@.len() == 0,
    {
        merged.push(Vec::new());
    }
    let mut total_rows: usize = 0;
    let nb = batches.len();
    for b in 0..nb
        invariant
            nb == batches@.len(),
            nb >= 1,
            views == batches@.map_values(|bb: RecordBatch| bb@),
            forall|k: int| 0 <= k < nb ==> (#[trigger] views[k]).wf(),
            ncols == views[0].schema.len(),
            merged@.len() == ncols,
            forall|k: int| 0 <= k < b ==> (#[trigger] views[k]).schema == views[0].schema,
            total_rows as nat == sum_rows(views.take(b as int)),
            forall|i: int|
                0 <= i < ncols ==> (#[trigger] merged@[i])@.map_values(|x: CellValue| x@)
                    == concat_col(views.take(b as int), i),
    {
        proof {
            assert(views[b as int] == batches@[b as int]@);
        }
        proof {
            assert(views[0] == batches@[0]@);
        }
        if !batches[0].same_schema(&batches[b]) {
            proof {
                assert(!all_same_schema(views)) by {
                    if all_same_schema(views) {
                        assert(views[b as int].schema == views[0].schema);
                    }
                }
            }
            return Err(Error::Process(String::from_str("batch schemas are inconsistent")));
        }
        proof {
            assert(views[b as int].schema == views[0].schema);
        }
        let added = batches[b].num_rows();
        let Some(new_total) = total_rows.checked_add(added) else {
            proof {
                lemma_sum_rows_take_bound(views, b + 1 as int);
                assert(views.take(b + 1 as int).drop_last() =~= views.take(b as int));
            }
            return Err(Error::Process(String::from_str("merged batch is too large")));
        };
        total_rows = new_total;
        for i in 0..ncols
            invariant
                nb == batches@.len(),
                b < nb,
                views == batches@.map_values(|bb: RecordBatch| bb@),
                forall|k: int| 0 <= k < nb ==> (#[trigger] views[k]).wf(),
                ncols == views[0].schema.len(),
                views[b as int].schema == views[0].schema,
                merged@.len() == ncols,
                forall|i2: int|
                    i <= i2 < ncols ==> (#[trigger] merged@[i2])@.map_values(|x: CellValue| x@)
                        == concat_col(views.take(b as int), i2),
                forall|i2: int|
                    0 <= i2 < i ==> (#[trigger] merged@[i2])@.map_values(|x: CellValue| x@)
                        == concat_col(views.take(b + 1 as int), i2),
        {
            let mut cells = clone_cells(batches[b].column(i));
            let mut target = merged.remove(i);
            target.append(&mut cells);
            merged.insert(i, target);
            proof {
                assert(views.take(b + 1 as int).drop_last() =~= views.take(b as int));
                assert(views.take(b + 1 as int).last() == views[b as int]);
                assert(merged@[i as int]@.map_values(|x: CellValue| x@) =~= concat_col(
                    views.take(b + 1 as int),
                    i as int,
                ));
            }
        }
        proof {
            assert(views.take(b + 1 as int).drop_last() =~= views.take(b as int));
            assert(views.take(b + 1 as int).last() == views[b as int]);
        }
    }
    proof {
        assert(views.take(nb as int) =~= views);
    }
    let fields = clone_fields(&batches[0].fields);
    let r = RecordBatch { fields, columns: merged, rows: total_rows };
    proof {
        assert(r@.schema == views[0].schema);
        assert forall|i: int| 0 <= i < ncols implies #[trigger] r@.columns[i] == concat_col(
            views,
            i,
        ) by {
            assert(r@.columns[i] == merged@[i]@.map_values(|x: CellValue| x@));
        }
        assert forall|k: int|
            0 <= k < views.len() implies (#[trigger] views[k]).wf() && views[k].columns.len()
            == ncols by {
            assert(views[k].schema == views[0].schema);
        }
        assert forall|i: int| 0 <= i < ncols implies (#[trigger] r@.columns[i]).len()
            == total_rows as nat by {
            lemma_concat_col_len(views, i);
        }
        assert forall|i: int, j: int|
            0 <= i < ncols && 0 <= j < r@.columns[i].len() implies cell_matches(
            #[trigger] r@.columns[i][j],
            r@.schema[i].data_type,
        ) by {
            lemma_concat_col_matches(views, i, j);
        }
        if ncols == 0 {
            lemma_sum_rows_no_cols(views);
        }
    }
    Ok(r)
}

/// Partial sums of row counts never exceed the total.
proof fn lemma_sum_rows_take_bound(s: Seq<RecordBatchV>, b: int)
    requires
        0 <= b <= s.len(),
    ensures
        sum_rows(s.take(b)) <= sum_rows(s),
    decreases s.len() - b,
{
    if b < s.len() {
        lemma_sum_rows_take_bound(s, b + 1);
        assert(s.take(b + 1).drop_last() =~= s.take(b));
    } else {
        assert(s.take(b) =~= s);
    }
}

/// The concatenated column has one cell per row of the constituents.
proof fn lemma_concat_col_len(s: Seq<RecordBatchV>, i: int)
    requires
        forall|k: int|
            0 <= k < s.len() ==> (#[trigger] s[k]).wf() && 0 <= i < s[k].columns.len(),
    ensures
        concat_col(s, i).len() == sum_rows(s),
    decreases s.len(),
{
    if s.len() > 0 {
        let prefix = s.drop_last();
        assert forall|k: int| 0 <= k < prefix.len() implies (#[trigger] prefix[k]).wf() && 0 <= i
            < prefix[k].columns.len() by {
            assert(prefix[k] == s[k]);
        }
        lemma_concat_col_len(prefix, i);
    }
}

/// Every cell of a concatenated column is admissible in the shared schema.
proof fn lemma_concat_col_matches(s: Seq<RecordBatchV>, i: int, j: int)
    requires
        s.len() >= 1,
        forall|k: int| 0 <= k < s.len() ==> (#[trigger] s[k]).wf(),
        all_same_schema(s),
        0 <= i < s[0].schema.len(),
        0 <= j < concat_col(s, i).len(),
    ensures
        cell_matches(concat_col(s, i)[j], s[0].schema[i].data_type),
    decreases s.len(),
{
    let prefix = s.drop_last();
    let last = s.last();
    if j < concat_col(prefix, i).len() {
        assert(s.len() > 1) by {
            if s.len() == 1 {
                assert(prefix.len() == 0);
            }
        }
        assert(all_same_schema(prefix)) by {
            assert(forall|k: int| 0 <= k < prefix.len() ==> prefix[k] == s[k]);
        }
        lemma_concat_col_matches(prefix, i, j);
        assert(prefix[0] == s[0]);
    } else {
        let jj = j - concat_col(prefix, i).len();
        assert(concat_col(s, i)[j] == last.columns[i][jj]);
        assert(last.schema == s[0].schema);
    }
}

impl Clone for RecordBatch {
    fn clone(&self) -> (r: Self)
        ensures
            r@ == self@,
    {
        let fields = clone_fields(&self.fields);
        let mut columns: Vec<Vec<CellValue>> = Vec::new();
        let n = self.columns.len();
        for i in 0..n
            invariant
                n == self.columns@.len(),
                columns@.len() == i,
                forall|k: int|
                    0 <= k < i ==> (#[trigger] columns@[k])@.map_values(|x: CellValue| x@)
                        == self.columns@[k]@.map_values(|x: CellValue| x@),
        {
            columns.push(clone_cells(&self.columns[i]));
        }
        let r = RecordBatch { fields, columns, rows: self.rows };
        proof {
            assert(r@.schema == self@.schema);
            assert(r@.columns =~= self@.columns) by {
                assert forall|k: int| 0 <= k < n implies #[trigger] r@.columns[k]
                    == self@.columns[k] by {
                    assert(r@.columns[k] == columns@[k]@.map_values(|x: CellValue| x@));
                    assert(self@.columns[k] == self.columns@[k]@.map_values(|x: CellValue| x@));
                }
            }
            assert(r@ =~= self@);
        }
        r
    }
}

/// The content a message batch carries: columnar rows or opaque payloads.
pub enum Content {
    Arrow(RecordBatch),
    Binary(Vec<Vec<u8>>),
}

/// The mathematical value of a message batch's content.
#[verifier::ext_equal]
pub enum ContentV {
    Arrow(RecordBatchV),
    Binary(Seq<Seq<u8>>),
}

impl View for Content {
    type V = ContentV;

    open spec fn view(&self) -> ContentV {
        match self {
            Content::Arrow(b) => ContentV::Arrow(b@),
            Content::Binary(v) => ContentV::Binary(v@.map_values(|p: Vec<u8>| p@)),
        }
    }
}

impl ContentV {
    /// The batch length: the row count of columnar content, the payload count
    /// of binary content.
    pub open spec fn len(self) -> nat {
        match self {
            ContentV::Arrow(b) => b.rows,
            ContentV::Binary(p) => p.len(),
        }
    }

    /// Columnar content must be a well-formed record batch.
    pub open spec fn wf(self) -> bool {
        match self {
            ContentV::Arrow(b) => b.wf(),
            ContentV::Binary(_) => true,
        }
    }
}

/// A message in the stream processing engine.
pub struct MessageBatch {
    /// Message content.
    pub content: Content,
}

impl View for MessageBatch {
    type V = ContentV;

    open spec fn view(&self) -> ContentV {
        self.content@
    }
}

impl Clone for MessageBatch {
    fn clone(&self) -> (r: Self)
        ensures
            r@ == self@,
    {
        let content = match &self.content {
            Content::Arrow(b) => Content::Arrow(b.clone()),
            Content::Binary(v) => {
                let mut payloads: Vec<Vec<u8>> = Vec::new();
                let n = v.len();
                for i in 0..n
                    invariant
                        n == v@.len(),
                        payloads@.len() == i,
                        forall|k: int| 0 <= k < i ==> #[trigger] payloads@[k]@ == v@[k]@,
                {
                    payloads.push(clone_bytes(&v[i]));
                }
                proof {
                    assert(payloads@.map_values(|p: Vec<u8>| p@) =~= v@.map_values(
                        |p: Vec<u8>| p@,
                    ));
                }
                Content::Binary(payloads)
            },
        };
        MessageBatch { content }
    }
}

/// Copy a byte payload.
fn clone_bytes(v: &Vec<u8>) -> (r: Vec<u8>)
    ensures
        r@ == v@,
{
    let mut r: Vec<u8> = Vec::new();
    let n = v.len();
    for i in 0..n
        invariant
            n == v@.len(),
            r@ == v@.take(i as int),
    {
        r.push(v[i]);
    }
    proof {
        assert(v@.take(n as int) =~= v@);
    }
    r
}

/// Copy a list of byte payloads.
pub(crate) fn clone_payloads(v: &Vec<Vec<u8>>) -> (r: Vec<Vec<u8>>)
    ensures
        r@.len() == v@.len(),
        r@.map_values(|p: Vec<u8>| p@) == v@.map_values(|p: Vec<u8>| p@),
        forall|k: int| 0 <= k < v@.len() ==> (#[trigger] r@[k])@ == v@[k]@,
{
    let mut r: Vec<Vec<u8>> = Vec::new();
    let n = v.len();
    for i in 0..n
        invariant
            n == v@.len(),
            r@.len() == i,
            forall|k: int| 0 <= k < i ==> (#[trigger] r@[k])@ == v@[k]@,
    {
        r.push(clone_bytes(&v[i]));
    }
    proof {
        assert(r@.map_values(|p: Vec<u8>| p@) =~= v@.map_values(|p: Vec<u8>| p@));
    }
    r
}

/// Relies on `String::from_utf8`: it succeeds exactly on valid UTF-8 input
/// and returns the string those bytes encode.
#[verifier::external_body]
fn utf8_to_string(bytes: &Vec<u8>) -> (r: Option<String>)
    ensures
        r is Some <==> vstd::utf8::valid_utf8(bytes@),
        r matches Some(s) ==> s@ == vstd::utf8::decode_utf8(bytes@),
{
    String::from_utf8(bytes.clone()).ok()
}

impl MessageBatch {
    /// Create a binary message batch from byte payloads.
    pub fn new_binary(content: Vec<Vec<u8>>) -> (r: Self)
        ensures
            r@ == ContentV::Binary(content@.map_values(|p: Vec<u8>| p@)),
            r@.wf(),
    {
        MessageBatch { content: Content::Binary(content) }
    }

    /// Create a columnar message batch from a record batch.
    pub fn new_arrow(content: RecordBatch) -> (r: Self)
        requires
            content@.wf(),
        ensures
            r@ == ContentV::Arrow(content@),
            r@.wf(),
    {
        MessageBatch { content: Content::Arrow(content) }
    }

    /// Create a message from a string: one payload holding its UTF-8 bytes.
    pub fn from_string(content: &str) -> (r: Self)
        ensures
            r@ == ContentV::Binary(seq![content.spec_bytes()]),
            r@.wf(),
    {
        let bytes = content.as_bytes_vec();
        let mut payloads: Vec<Vec<u8>> = Vec::new();
        payloads.push(bytes);
        let r = MessageBatch { content: Content::Binary(payloads) };
        proof {
            assert(payloads@.map_values(|p: Vec<u8>| p@) =~= seq![content.spec_bytes()]);
        }
        r
    }

    /// Parse the message content into strings, one per payload. Columnar
    /// content and payloads that are not valid UTF-8 are rejected with a
    /// `Process` error.
    pub fn as_string(&self) -> (r: Result<Vec<String>, Error>)
        ensures
            r is Ok <==> (self@ matches ContentV::Binary(p) && forall|i: int|
                0 <= i < p.len() ==> vstd::utf8::valid_utf8(#[trigger] p[i])),
            r matches Ok(ss) ==> self@ matches ContentV::Binary(p) && ss@.len() == p.len()
                && forall|i: int|
                0 <= i < p.len() ==> (#[trigger] ss@[i])@ == vstd::utf8::decode_utf8(p[i]),
            r matches Err(e) ==> e is Process,
    {
        match &self.content {
            Content::Arrow(_) => Err(
                Error::Process(String::from_str("cannot parse columnar content as strings")),
            ),
            Content::Binary(v) => {
                let ghost p = v@.map_values(|x: Vec<u8>| x@);
                let mut out: Vec<String> = Vec::new();
                let n = v.len();
                for i in 0..n
                    invariant
                        n == v@.len(),
                        p == v@.map_values(|x: Vec<u8>| x@),
                        self@ == ContentV::Binary(p),
                        out@.len() == i,
                        forall|k: int| 0 <= k < i ==> vstd::utf8::valid_utf8(#[trigger] p[k]),
                        forall|k: int|
                            0 <= k < i ==> (#[trigger] out@[k])@ == vstd::utf8::decode_utf8(p[k]),
                {
                    proof {
                        assert(p[i as int] == v@[i as int]@);
                    }
                    match utf8_to_string(&v[i]) {
                        Some(s) => out.push(s),
                        None => {
                            proof {
                                assert(self@ == ContentV::Binary(p));
                                assert(self@->Binary_0 == p);
                                assert((i as int) < p.len());
                                assert(!vstd::utf8::valid_utf8(self@->Binary_0[i as int]));
                            }
                            return Err(
                                Error::Process(
                                    String::from_str("payload is not a valid UTF-8 string"),
                                ),
                            );
                        },
                    }
                }
                Ok(out)
            },
        }
    }

    /// The binary content of the message; only binary batches have one.
    pub fn as_binary(&self) -> (r: &Vec<Vec<u8>>)
        requires
            self@ is Binary,
        ensures
            self@ == ContentV::Binary(r@.map_values(|p: Vec<u8>| p@)),
    {
        match &self.content {
            Content::Arrow(_) => {
                proof {
                    assert(false);
                }
                unreached()
            },
            Content::Binary(v) => v,
        }
    }

    /// The batch length: rows for columnar content, payloads for binary.
    pub fn len(&self) -> (r: usize)
        ensures
            r == self@.len(),
    {
        match &self.content {
            Content::Arrow(b) => b.num_rows(),
            Content::Binary(v) => v.len(),
        }
    }

    /// Whether the batch is empty; an empty batch is legal and produces no
    /// downstream work.
    pub fn is_empty(&self) -> (r: bool)
        ensures
            r == (self@.len() == 0),
    {
        self.len() == 0
    }
}

impl MessageBatch {
    /// Whether the batch carries binary content.
    pub fn is_binary(&self) -> (r: bool)
        ensures
            r == (self@ is Binary),
    {
        match &self.content {
            Content::Arrow(_) => false,
            Content::Binary(_) => true,
        }
    }

    /// Whether the batch carries columnar content.
    pub fn is_arrow(&self) -> (r: bool)
        ensures
            r == (self@ is Arrow),
    {
        match &self.content {
            Content::Arrow(_) => true,
            Content::Binary(_) => false,
        }
    }
}

/// The contents of a list of message batches.
pub open spec fn contents_of(s: Seq<MessageBatch>) -> Seq<ContentV> {
    s.map_values(|b: MessageBatch| b@)
}

/// Whether every batch in the list carries binary content.
pub open spec fn all_binary(s: Seq<ContentV>) -> bool {
    forall|k: int| 0 <= k < s.len() ==> (#[trigger] s[k]) is Binary
}

/// Whether every batch in the list carries columnar content.
pub open spec fn all_arrow(s: Seq<ContentV>) -> bool {
    forall|k: int| 0 <= k < s.len() ==> (#[trigger] s[k]) is Arrow
}

/// The payloads of a list of binary batches, concatenated in order.
pub open spec fn concat_payloads(s: Seq<ContentV>) -> Seq<Seq<u8>>
    decreases s.len(),
{
    if s.len() == 0 {
        Seq::empty()
    } else {
        concat_payloads(s.drop_last()) + (if s.last() is Binary {
            s.last()->Binary_0
        } else {
            Seq::empty()
        })
    }
}

/// The record batches of a list of columnar batches.
pub open spec fn arrow_views(s: Seq<ContentV>) -> Seq<RecordBatchV> {
    s.map_values(
        |c: ContentV|
            if c is Arrow {
                c->Arrow_0
            } else {
                RecordBatchV { schema: Seq::empty(), columns: Seq::empty(), rows: 0 }
            },
    )
}

/// Whether a list of batches can merge into one: uniformly binary, or
/// uniformly columnar under one schema with a representable row total.
pub open spec fn mergeable(cs: Seq<ContentV>) -> bool {
    ||| all_binary(cs)
    ||| (all_arrow(cs) && all_same_schema(arrow_views(cs)) && sum_rows(arrow_views(cs))
        <= usize::MAX)
}

/// The merge of a mergeable list of batches: binary payload lists
/// concatenate; columnar batches concatenate column by column under their
/// common schema.
pub open spec fn merged_content(cs: Seq<ContentV>) -> ContentV {
    if all_binary(cs) {
        ContentV::Binary(concat_payloads(cs))
    } else {
        ContentV::Arrow(
            RecordBatchV {
                schema: arrow_views(cs)[0].schema,
                columns: Seq::new(
                    arrow_views(cs)[0].schema.len(),
                    |i: int| concat_col(arrow_views(cs), i),
                ),
                rows: sum_rows(arrow_views(cs)),
            },
        )
    }
}

/// Merge message batches into one: binary batches concatenate their payload
/// lists, columnar batches concatenate under their common schema. A mix of
/// the two, or columnar batches with inconsistent schemas, is rejected with a
/// `Process` error. The merged batch length is the sum of the constituents'
/// lengths.
pub fn concat_message_batches(batches: &Vec<MessageBatch>) -> (r: Result<MessageBatch, Error>)
    requires
        batches@.len() >= 1,
        forall|k: int| 0 <= k < batches@.len() ==> (#[trigger] batches@[k])@.wf(),
    ensures
        r is Ok <==> mergeable(contents_of(batches@)),
        r matches Ok(m) ==> m@ == merged_content(contents_of(batches@)),
        r matches Ok(m) ==> m@.wf(),
        r matches Err(e) ==> e is Process,
{
    let ghost cs = contents_of(batches@);
    let n = batches.len();
    let mut binary_count: usize = 0;
    for b in 0..n
        invariant
            n == batches@.len(),
            cs == contents_of(batches@),
            binary_count <= b,
            (binary_count == b) == (forall|k: int| 0 <= k < b ==> (#[trigger] cs[k]) is Binary),
    {
        proof {
            assert(cs[b as int] == batches@[b as int]@);
        }
        if batches[b].is_binary() {
            if binary_count == b {
                binary_count = binary_count + 1;
            }
        } else {
            proof {
                assert(!((cs[b as int]) is Binary));
            }
        }
    }
    if binary_count == n {
        let mut payloads: Vec<Vec<u8>> = Vec::new();
        for b in 0..n
            invariant
                n == batches@.len(),
                cs == contents_of(batches@),
                all_binary(cs),
                payloads@.map_values(|p: Vec<u8>| p@) == concat_payloads(cs.take(b as int)),
        {
            proof {
                assert(cs[b as int] == batches@[b as int]@);
            }
            let src = batches[b].as_binary();
            let mut chunk = clone_payloads(src);
            payloads.append(&mut chunk);
            proof {
                assert(cs.take(b + 1 as int).drop_last() =~= cs.take(b as int));
                assert(cs.take(b + 1 as int).last() == cs[b as int]);
                assert(payloads@.map_values(|p: Vec<u8>| p@) =~= concat_payloads(
                    cs.take(b + 1 as int),
                ));
            }
        }
        proof {
            assert(cs.take(n as int) =~= cs);
        }
        return Ok(MessageBatch::new_binary(payloads));
    }
    // Not all binary: merging requires uniformly columnar content.
    proof {
        assert(!all_binary(cs));
    }
    let mut records: Vec<RecordBatch> = Vec::new();
    for b in 0..n
        invariant
            n == batches@.len(),
            cs == contents_of(batches@),
            !all_binary(cs),
            forall|k: int| 0 <= k < n ==> (#[trigger] batches@[k])@.wf(),
            records@.len() == b,
            forall|k: int| 0 <= k < b ==> (#[trigger] cs[k]) is Arrow,
            forall|k: int| 0 <= k < b ==> (#[trigger] records@[k])@ == arrow_views(cs)[k],
    {
        proof {
            assert(cs[b as int] == batches@[b as int]@);
        }
        match &batches[b].content {
            Content::Arrow(rb) => {
                records.push(rb.clone());
                proof {
                    assert(arrow_views(cs)[b as int] == cs[b as int]->Arrow_0);
                }
            },
            Content::Binary(_) => {
                proof {
                    assert(!all_arrow(cs));
                    assert(!all_binary(cs));
                }
                return Err(
                    Error::Process(
                        String::from_str("cannot merge binary and columnar batches together"),
                    ),
                );
            },
        }
    }
    proof {
        assert(all_arrow(cs));
        assert(records@.map_values(|r: RecordBatch| r@) =~= arrow_views(cs));
        assert forall|k: int| 0 <= k < records@.len() implies (#[trigger] records@[k])@.wf() by {
            assert(records@[k]@ == arrow_views(cs)[k]);
            assert(cs[k] == batches@[k]@);
        }
    }
    match concat_batches(&records) {
        Ok(rb) => {
            proof {
                let av = arrow_views(cs);
                assert(records@.map_values(|r: RecordBatch| r@) == av);
                assert(records@[0]@ == av[0]);
                assert(rb@.schema == av[0].schema);
                assert(rb@.columns =~= Seq::new(
                    av[0].schema.len(),
                    |i: int| concat_col(av, i),
                )) by {
                    assert(rb@.columns.len() == rb@.schema.len());
                }
                assert(rb@ =~= RecordBatchV {
                    schema: av[0].schema,
                    columns: Seq::new(av[0].schema.len(), |i: int| concat_col(av, i)),
                    rows: sum_rows(av),
                });
                assert(ContentV::Arrow(rb@) == merged_content(cs));
            }
            Ok(MessageBatch::new_arrow(rb))
        },
        Err(e) => Err(e),
    }
}

/// The total length of a list of batches.
pub open spec fn sum_lens(cs: Seq<ContentV>) -> nat
    decreases cs.len(),
{
    if cs.len() == 0 {
        0
    } else {
        sum_lens(cs.drop_last()) + cs.last().len()
    }
}

/// Merging preserves length: a mergeable list of batches merges into one
/// batch whose length is the sum of the constituents' lengths — the
/// coalescing buffer neither loses nor invents rows or payloads.
pub proof fn lemma_merged_len(cs: Seq<ContentV>)
    requires
        cs.len() >= 1,
        mergeable(cs),
        forall|k: int| 0 <= k < cs.len() ==> (#[trigger] cs[k]).wf(),
    ensures
        merged_content(cs).len() == sum_lens(cs),
{
    if all_binary(cs) {
        lemma_concat_payloads_len(cs);
    } else {
        assert(all_arrow(cs));
        lemma_sum_rows_is_sum_lens(cs);
    }
}

/// For binary batches, the merged payload count is the sum of payload
/// counts.
proof fn lemma_concat_payloads_len(cs: Seq<ContentV>)
    requires
        all_binary(cs),
    ensures
        concat_payloads(cs).len() == sum_lens(cs),
    decreases cs.len(),
{
    if cs.len() > 0 {
        let prefix = cs.drop_last();
        assert(all_binary(prefix)) by {
            assert(forall|k: int| 0 <= k < prefix.len() ==> prefix[k] == cs[k]);
        }
        lemma_concat_payloads_len(prefix);
        assert(cs.last() is Binary);
        assert(cs.last().len() == cs.last()->Binary_0.len());
    }
}

/// For columnar batches, the total row count is the sum of batch lengths.
proof fn lemma_sum_rows_is_sum_lens(cs: Seq<ContentV>)
    requires
        all_arrow(cs),
    ensures
        sum_rows(arrow_views(cs)) == sum_lens(cs),
    decreases cs.len(),
{
    if cs.len() > 0 {
        let prefix = cs.drop_last();
        assert(all_arrow(prefix)) by {
            assert(forall|k: int| 0 <= k < prefix.len() ==> prefix[k] == cs[k]);
        }
        lemma_sum_rows_is_sum_lens(prefix);
        assert(arrow_views(cs).drop_last() =~= arrow_views(prefix));
        assert(arrow_views(cs).last() == arrow_views(cs)[cs.len() - 1]);
        assert(cs[cs.len() - 1] is Arrow);
        assert(arrow_views(cs)[cs.len() - 1] == cs[cs.len() - 1]->Arrow_0);
        assert(cs.last().len() == cs.last()->Arrow_0.rows);
    }
}

/// A batch list without columns carries no rows.
proof fn lemma_sum_rows_no_cols(s: Seq<RecordBatchV>)
    requires
        forall|k: int| 0 <= k < s.len() ==> (#[trigger] s[k]).wf(),
        s.len() >= 1,
        all_same_schema(s),
        s[0].schema.len() == 0,
    ensures
        sum_rows(s) == 0,
    decreases s.len(),
{
    assert(s.last() == s[s.len() - 1]);
    assert(s.last().schema == s[0].schema);
    assert(s.last().rows == 0);
    if s.len() > 1 {
        let prefix = s.drop_last();
        assert(all_same_schema(prefix)) by {
            assert(forall|k: int| 0 <= k < prefix.len() ==> prefix[k] == s[k]);
        }
        assert(prefix[0] == s[0]);
        lemma_sum_rows_no_cols(prefix);
    } else {
        assert(s.drop_last().len() == 0);
        assert(sum_rows(s.drop_last()) == 0);
    }
}

} // verus!
