//! The Modbus input: turning polled register points into a columnar batch.
//!
//! The TCP client and the register reads live in the embedding. Fixed here:
//! how one polling round's results — a list of named points, each a run of
//! coils or of registers — assemble into a single-row record batch with one
//! list-typed column per point.

use crate::batch::{CellValue, DataType, Field, MessageBatch, RecordBatch};
use crate::error::Error;
use crate::registry::Registries;
use vstd::prelude::*;
use vstd::string::StringExecFns;

verus! {

/// What one configured point read in a polling round: a run of coils or
/// discrete inputs (bits), or a run of holding or input registers (words).
pub enum PointData {
    Bits(Vec<bool>),
    Words(Vec<u16>),
}

/// The cell a point's data becomes: a list value of the matching type.
pub open spec fn spec_point_cell(data: PointData) -> crate::batch::CellV {
    match data {
        PointData::Bits(v) => crate::batch::CellV::BooleanList(v@),
        PointData::Words(v) => crate::batch::CellV::UInt16List(v@),
    }
}

/// The column type a point's data selects.
pub open spec fn spec_point_type(data: PointData) -> DataType {
    match data {
        PointData::Bits(_) => DataType::BooleanList,
        PointData::Words(_) => DataType::UInt16List,
    }
}

/// Assemble one polling round into a message batch: one list-typed column
/// per point, named after it, holding the point's run as the single row.
pub fn points_to_batch(points: Vec<(String, PointData)>) -> (r: Result<MessageBatch, Error>)
    requires
        points@.len() >= 1,
    ensures
        r matches Ok(m) ==> {
            &&& m@ is Arrow
            &&& m@->Arrow_0.wf()
            &&& m@->Arrow_0.rows == 1
            &&& m@->Arrow_0.schema.len() == points@.len()
            &&& forall|i: int|
                0 <= i < points@.len() ==> (#[trigger] m@->Arrow_0.schema[i]).name == points@[i].0@
                    && m@->Arrow_0.schema[i].data_type == spec_point_type(points@[i].1)
            &&& forall|i: int|
                0 <= i < points@.len() ==> #[trigger] m@->Arrow_0.columns[i] == seq![
                    spec_point_cell(points@[i].1),
                ]
        },
        r is Ok,
{
    let ghost pv = points@;
    let mut fields: Vec<Field> = Vec::new();
    let mut columns: Vec<Vec<CellValue>> = Vec::new();
    let n = points.len();
    let mut remaining = points;
    for i in 0..n
        invariant
            n == pv.len(),
            remaining@ == pv.skip(i as int),
            fields@.len() == i,
            columns@.len() == i,
            forall|k: int|
                0 <= k < i ==> (#[trigger] fields@[k])@.name == pv[k].0@ && fields@[k]@.data_type
                    == spec_point_type(pv[k].1),
            forall|k: int|
                0 <= k < i ==> (#[trigger] columns@[k])@.map_values(|x: CellValue| x@) == seq![
                    spec_point_cell(pv[k].1),
                ],
    {
        let (name, data) = remaining.remove(0);
        proof {
            assert(pv.skip(i as int)[0] == pv[i as int]);
            assert(remaining@ =~= pv.skip(i + 1 as int)) by {
                assert(pv.skip(i as int).subrange(1, pv.skip(i as int).len() as int) =~= pv.skip(
                    i + 1 as int,
                ));
            }
        }
        let (field, cell) = match data {
            PointData::Bits(v) => (
                Field::new(name, DataType::BooleanList),
                CellValue::BooleanList(v),
            ),
            PointData::Words(v) => (
                Field::new(name, DataType::UInt16List),
                CellValue::UInt16List(v),
            ),
        };
        fields.push(field);
        let mut column: Vec<CellValue> = Vec::new();
        column.push(cell);
        proof {
            assert(column@.map_values(|x: CellValue| x@) =~= seq![spec_point_cell(pv[i as int].1)]);
        }
        columns.push(column);
    }
    proof {
        let gschema = fields@.map_values(|f: Field| f@);
        let gcols = columns@.map_values(|c: Vec<CellValue>| c@.map_values(|x: CellValue| x@));
        assert forall|k: int| 0 <= k < n implies (#[trigger] gcols[k]) == seq![
            spec_point_cell(pv[k].1),
        ] by {
            assert(gcols[k] == columns@[k]@.map_values(|x: CellValue| x@));
        }
        assert(crate::batch::spec_rows_of(gcols) == 1) by {
            assert(gcols[0].len() == 1);
        }
        assert forall|k: int| 0 <= k < n implies (#[trigger] gschema[k]) == fields@[k]@ by {}
        assert(RecordBatch::spec_shape_ok(gschema, gcols)) by {
            assert forall|i: int, j: int|
                0 <= i < gcols.len() && 0 <= j < gcols[i].len() implies crate::batch::cell_matches(
                #[trigger] gcols[i][j],
                gschema[i].data_type,
            ) by {
                assert(gcols[i] == seq![spec_point_cell(pv[i].1)]);
                assert(gschema[i].data_type == spec_point_type(pv[i].1));
            }
        }
    }
    let batch = match RecordBatch::try_new(fields, columns) {
        Ok(batch) => batch,
        Err(e) => {
            proof {
                assert(false);
            }
            return Err(e);
        },
    };
    proof {
        assert(batch@.rows == 1) by {
            assert(batch@.columns[0].len() == 1);
        }
    }
    Ok(MessageBatch::new_arrow(batch))
}

/// Register the Modbus input builder under its `modbus` tag.
pub fn init(registries: &mut Registries, builder: u64) -> (r: Result<(), Error>)
    requires
        old(registries).wf(),
    ensures
        final(registries).wf(),
        r is Ok <==> !old(registries).spec_input().spec_contains("modbus"@),
        r is Ok ==> final(registries).spec_input().spec_lookup("modbus"@) == Some(builder),
        r is Ok ==> final(registries).spec_input().tags() == old(
            registries,
        ).spec_input().tags().push("modbus"@),
        r matches Err(e) ==> e is Config,
{
    registries.register_input_builder(String::from_str("modbus"), builder)
}

} // verus!
