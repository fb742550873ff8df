use crate::bytes::{
    be_i32, be_i64, be_u32, be_u64, read_be_i32, read_be_i64, read_be_u32, read_be_u64, skip_front,
    take_front,
};
use crate::common::DataType;
use crate::errors::IotDBError;
use crate::rpc::TSExecuteStatementResp;
use vstd::prelude::*;

verus! {

/// One decoded cell: a data-type tag plus at most one payload slot, which --
/// when populated -- matches the tag (`wf`). An all-`None` payload is a null
/// cell. `FLOAT` and `DOUBLE` payloads are kept as raw IEEE-754 bit patterns,
/// exactly as they came off the wire.
#[derive(Clone, Debug, PartialEq)]
pub struct Field {
    pub data_type: DataType,
    pub bool_value: Option<bool>,
    pub int_value: Option<i32>,
    pub long_value: Option<i64>,
    pub float_value: Option<u32>,
    pub double_value: Option<u64>,
    pub binary_value: Option<Vec<u8>>,
}

/// Mathematical value of one cell: null, or one scalar payload.
pub enum FieldValueModel {
    Null,
    Bool(bool),
    Int(i32),
    Long(i64),
    Float(u32),
    Double(u64),
    Binary(Seq<u8>),
}

/// Mathematical value of one `Field`: its declared type and its payload.
pub struct FieldModel {
    pub data_type: DataType,
    pub value: FieldValueModel,
}

impl View for Field {
    type V = FieldModel;

    open spec fn view(&self) -> FieldModel {
        FieldModel {
            data_type: self.data_type,
            value: match self.bool_value {
                Some(b) => FieldValueModel::Bool(b),
                None => match self.int_value {
                    Some(v) => FieldValueModel::Int(v),
                    None => match self.long_value {
                        Some(v) => FieldValueModel::Long(v),
                        None => match self.float_value {
                            Some(v) => FieldValueModel::Float(v),
                            None => match self.double_value {
                                Some(v) => FieldValueModel::Double(v),
                                None => match self.binary_value {
                                    Some(v) => FieldValueModel::Binary(v@),
                                    None => FieldValueModel::Null,
                                },
                            },
                        },
                    },
                },
            },
        }
    }
}

impl Field {
    /// At most one payload slot holds a value, and that slot is the one the
    /// declared data type selects.
    pub open spec fn wf(self) -> bool {
        &&& self.bool_value is Some ==> self.data_type == DataType::BOOLEAN
        &&& self.int_value is Some ==> self.data_type == DataType::INT32
        &&& self.long_value is Some ==> self.data_type == DataType::INT64
        &&& self.float_value is Some ==> self.data_type == DataType::FLOAT
        &&& self.double_value is Some ==> self.data_type == DataType::DOUBLE
        &&& self.binary_value is Some ==> self.data_type == DataType::TEXT
    }

    /// A cell of the given type with no payload yet (a null cell).
    pub fn new(data_type: DataType) -> (r: Field)
        ensures
            r == (Field {
                data_type,
                bool_value: None,
                int_value: None,
                long_value: None,
                float_value: None,
                double_value: None,
                binary_value: None,
            }),
            r.wf(),
            r@ == (FieldModel { data_type, value: FieldValueModel::Null }),
    {
        Field {
            data_type,
            bool_value: None,
            int_value: None,
            long_value: None,
            float_value: None,
            double_value: None,
            binary_value: None,
        }
    }
}

impl Default for Field {
    /// A null cell tagged `TEXT`, the conventional placeholder type.
    fn default() -> (r: Field)
        ensures
            r == (Field {
                data_type: DataType::TEXT,
                bool_value: None,
                int_value: None,
                long_value: None,
                float_value: None,
                double_value: None,
                binary_value: None,
            }),
            r.wf(),
    {
        Field::new(DataType::TEXT)
    }
}

/// Mathematical value of one row: its optional timestamp and its cells.
pub struct RowModel {
    pub timestamp: Option<i64>,
    pub cells: Seq<FieldModel>,
}

/// One decoded result row: an optional timestamp (absent for non-timeseries
/// results) plus one cell per result column, in column order.
#[derive(Clone, Debug, PartialEq)]
pub struct ValueRow {
    pub timestamp: Option<i64>,
    pub fields: Vec<Field>,
}

impl View for ValueRow {
    type V = RowModel;

    open spec fn view(&self) -> RowModel {
        RowModel { timestamp: self.timestamp, cells: self.fields@.map_values(|f: Field| f@) }
    }
}

impl ValueRow {
    /// A row with no timestamp and no cells yet.
    pub fn new() -> (r: ValueRow)
        ensures
            r.timestamp is None,
            r.fields@ =~= Seq::<Field>::empty(),
    {
        ValueRow { timestamp: None, fields: Vec::new() }
    }

    /// Record the row's timestamp (milliseconds since the epoch).
    pub fn timestamp(&mut self, timestamp: i64)
        ensures
            final(self).timestamp == Some(timestamp),
            final(self).fields == old(self).fields,
    {
        self.timestamp = Some(timestamp);
    }

    /// Append one cell at the end of the row.
    pub fn add_field(&mut self, field: Field)
        ensures
            final(self).timestamp == old(self).timestamp,
            final(self).fields@ == old(self).fields@.push(field),
    {
        self.fields.push(field);
    }
}

/// The sequence of row models a sequence of decoded rows denotes.
pub open spec fn rows_model(rows: Seq<ValueRow>) -> Seq<RowModel> {
    rows.map_values(|r: ValueRow| r@)
}

/// Every cell of the row is well-formed: its populated payload slot, if any,
/// is the one its declared data type selects.
pub open spec fn row_fields_wf(r: ValueRow) -> bool {
    forall|j: int| 0 <= j < r.fields@.len() ==> (#[trigger] r.fields@[j]).wf()
}

/// The views of a sequence of byte buffers.
pub open spec fn views_of(vs: Seq<Vec<u8>>) -> Seq<Seq<u8>> {
    vs.map_values(|v: Vec<u8>| v@)
}

/// Total number of bytes left across all per-column value buffers. The
/// decoder stops exactly when this reaches zero: the server sends no explicit
/// row count.
pub open spec fn sum_len(vs: Seq<Seq<u8>>) -> nat
    decreases vs.len(),
{
    if vs.len() == 0 {
        0
    } else {
        sum_len(vs.drop_last()) + vs.last().len()
    }
}

/// The total is zero exactly when every buffer is empty.
pub proof fn lemma_sum_len_zero(vs: Seq<Seq<u8>>)
    ensures
        (sum_len(vs) == 0) <==> (forall|i: int| 0 <= i < vs.len() ==> vs[i].len() == 0),
    decreases vs.len(),
{
    if vs.len() > 0 {
        lemma_sum_len_zero(vs.drop_last());
        if sum_len(vs) == 0 {
            assert forall|i: int| 0 <= i < vs.len() implies vs[i].len() == 0 by {
                if i < vs.len() - 1 {
                    assert(vs.drop_last()[i] == vs[i]);
                } else {
                    assert(vs.last() == vs[i]);
                }
            }
        }
        if forall|i: int| 0 <= i < vs.len() ==> vs[i].len() == 0 {
            assert forall|i: int|
                0 <= i < vs.drop_last().len() implies #[trigger] vs.drop_last()[i].len() == 0 by {
                assert(vs.drop_last()[i] == vs[i]);
            }
            assert(vs.last().len() == 0);
        }
    }
}

/// Replacing one buffer changes the total by the difference in that buffer's
/// length.
pub proof fn lemma_sum_len_update(vs: Seq<Seq<u8>>, k: int, w: Seq<u8>)
    requires
        0 <= k < vs.len(),
    ensures
        sum_len(vs.update(k, w)) + vs[k].len() == sum_len(vs) + w.len(),
    decreases vs.len(),
{
    let u = vs.update(k, w);
    if k == vs.len() - 1 {
        assert(u.drop_last() =~= vs.drop_last());
    } else {
        assert(u.drop_last() =~= vs.drop_last().update(k, w));
        lemma_sum_len_update(vs.drop_last(), k, w);
    }
}

/// Whether the cell of logical row `row` is populated, given the column's
/// accumulated bitmap byte. Each bitmap byte packs eight rows' flags,
/// most-significant bit first, so only `row % 8` selects the bit.
pub open spec fn cell_present(bitmap: u8, row: nat) -> bool {
    (0x80u8 >> ((row % 8) as u8)) & bitmap != 0
}

/// Decide presence of a cell from the column's bitmap byte and the row index
/// reduced modulo eight.
pub fn is_cell_present(bitmap: u8, row_mod8: usize) -> (r: bool)
    requires
        row_mod8 < 8,
    ensures
        r == cell_present(bitmap, row_mod8 as nat),
{
    let flag: u8 = 0x80u8 >> (row_mod8 as u8);
    flag & bitmap != 0
}

/// What one cell of type `t` decodes to at the front of value buffer `buf`:
/// the payload and the number of bytes it consumes, or nothing when the
/// buffer is too short for the field (or a `TEXT` length prefix is negative).
pub open spec fn spec_decode_cell(t: DataType, buf: Seq<u8>) -> Option<(FieldValueModel, int)> {
    match t {
        DataType::BOOLEAN => if buf.len() >= 1 {
            Some((FieldValueModel::Bool(buf[0] == 1), 1))
        } else {
            None
        },
        DataType::INT32 => if buf.len() >= 4 {
            Some((FieldValueModel::Int(be_i32(buf) as i32), 4))
        } else {
            None
        },
        DataType::INT64 => if buf.len() >= 8 {
            Some((FieldValueModel::Long(be_i64(buf) as i64), 8))
        } else {
            None
        },
        DataType::FLOAT => if buf.len() >= 4 {
            Some((FieldValueModel::Float(be_u32(buf) as u32), 4))
        } else {
            None
        },
        DataType::DOUBLE => if buf.len() >= 8 {
            Some((FieldValueModel::Double(be_u64(buf) as u64), 8))
        } else {
            None
        },
        DataType::TEXT => if buf.len() >= 4 && be_i32(buf) >= 0 && buf.len() >= 4 + be_i32(buf) {
            Some((FieldValueModel::Binary(buf.subrange(4, 4 + be_i32(buf))), 4 + be_i32(buf)))
        } else {
            None
        },
    }
}

/// Decode one cell of type `data_type` from the front of `buf`, returning the
/// populated `Field` and the exact number of bytes consumed. A buffer
/// exhausted mid-field is a decode error, never a panic.
pub fn decode_cell(data_type: DataType, buf: &Vec<u8>) -> (r: Result<(Field, usize), IotDBError>)
    ensures
        match r {
            Ok((f, n)) => {
                &&& spec_decode_cell(data_type, buf@) == Some((f@.value, n as int))
                &&& f@.data_type == data_type
                &&& f.data_type == data_type
                &&& f.wf()
                &&& 1 <= n <= buf@.len()
            },
            Err(e) => spec_decode_cell(data_type, buf@) is None && e == IotDBError::Decode,
        },
{
    match data_type {
        DataType::BOOLEAN => {
            if buf.len() < 1 {
                return Err(IotDBError::Decode);
            }
            let mut f = Field::new(data_type);
            f.bool_value = Some(buf[0] == 1);
            Ok((f, 1))
        },
        DataType::INT32 => {
            if buf.len() < 4 {
                return Err(IotDBError::Decode);
            }
            let mut f = Field::new(data_type);
            f.int_value = Some(read_be_i32(buf));
            Ok((f, 4))
        },
        DataType::INT64 => {
            if buf.len() < 8 {
                return Err(IotDBError::Decode);
            }
            let mut f = Field::new(data_type);
            f.long_value = Some(read_be_i64(buf));
            Ok((f, 8))
        },
        DataType::FLOAT => {
            if buf.len() < 4 {
                return Err(IotDBError::Decode);
            }
            let mut f = Field::new(data_type);
            f.float_value = Some(read_be_u32(buf));
            Ok((f, 4))
        },
        DataType::DOUBLE => {
            if buf.len() < 8 {
                return Err(IotDBError::Decode);
            }
            let mut f = Field::new(data_type);
            f.double_value = Some(read_be_u64(buf));
            Ok((f, 8))
        },
        DataType::TEXT => {
            if buf.len() < 4 {
                return Err(IotDBError::Decode);
            }
            let len_prefix = read_be_i32(buf);
            if len_prefix < 0 {
                return Err(IotDBError::Decode);
            }
            let n = len_prefix as usize;
            if n > buf.len() - 4 {
                return Err(IotDBError::Decode);
            }
            let tail = skip_front(buf, 4);
            let payload = take_front(&tail, n);
            proof {
                assert(payload@ =~= buf@.subrange(4, 4 + be_i32(buf@)));
            }
            let mut f = Field::new(data_type);
            f.binary_value = Some(payload);
            Ok((f, 4 + n))
        },
    }
}

/// Everything fixed across one decoding run: the ordered column names, their
/// declared data types, the optional name-to-buffer-index remap table, and
/// the per-column bitmap buffers.
pub struct DecodeLayout {
    pub columns: Seq<String>,
    pub types: Seq<DataType>,
    pub remap: Option<Seq<(String, i32)>>,
    pub bitmaps: Seq<Seq<u8>>,
}

/// First buffer index the remap table associates with `name`, scanning from
/// entry `i` on.
pub open spec fn remap_lookup_from(m: Seq<(String, i32)>, name: Seq<char>, i: nat) -> Option<i32>
    decreases m.len() - i,
{
    if i >= m.len() {
        None
    } else if m[i as int].0@ == name {
        Some(m[i as int].1)
    } else {
        remap_lookup_from(m, name, i + 1)
    }
}

/// First buffer index the remap table associates with `name`, if any.
pub open spec fn remap_lookup(m: Seq<(String, i32)>, name: Seq<char>) -> Option<i32> {
    remap_lookup_from(m, name, 0)
}

/// Find the buffer index the remap table associates with a column name.
pub fn lookup_column_index(m: &Vec<(String, i32)>, name: &String) -> (r: Option<i32>)
    ensures
        r == remap_lookup(m@, name@),
{
    let mut i: usize = 0;
    while i < m.len()
        invariant
            i <= m@.len(),
            remap_lookup(m@, name@) == remap_lookup_from(m@, name@, i as nat),
        decreases m@.len() - i,
    {
        if m[i].0 == *name {
            return Some(m[i].1);
        }
        i = i + 1;
    }
    None
}

/// The buffer index column `c` actually reads from: the remap table's entry
/// for the column's name where one is present, the logical position `c`
/// otherwise. Column order in the name list and in the physical buffers may
/// differ.
pub open spec fn effective_index(layout: DecodeLayout, c: int) -> int {
    match layout.remap {
        None => c,
        Some(m) => match remap_lookup(m, layout.columns[c]@) {
            None => c,
            Some(k) => k as int,
        },
    }
}

/// Cells of one row from column `c` on: the decoded cell models and the value
/// buffers as they stand after the row's reads, or nothing when the payload
/// is inconsistent (resolved index out of range, empty bitmap buffer, or a
/// value buffer too short for a populated cell). A null cell consumes no
/// value bytes.
pub open spec fn spec_decode_cells(
    layout: DecodeLayout,
    values: Seq<Seq<u8>>,
    row: nat,
    c: nat,
) -> Option<(Seq<FieldModel>, Seq<Seq<u8>>)>
    decreases layout.columns.len() - c,
{
    if c >= layout.columns.len() {
        Some((Seq::empty(), values))
    } else if c >= layout.types.len() {
        None
    } else {
        let k = effective_index(layout, c as int);
        if !(0 <= k < values.len()) || k >= layout.bitmaps.len() || layout.bitmaps[k].len() == 0 {
            None
        } else if !cell_present(layout.bitmaps[k][0], row) {
            match spec_decode_cells(layout, values, row, (c + 1) as nat) {
                None => None,
                Some(p) => Some(
                    (
                        seq![
                            FieldModel {
                                data_type: layout.types[c as int],
                                value: FieldValueModel::Null,
                            },
                        ] + p.0,
                        p.1,
                    ),
                ),
            }
        } else {
            match spec_decode_cell(layout.types[c as int], values[k]) {
                None => None,
                Some((v, n)) => {
                    let values2 = values.update(k, values[k].skip(n));
                    match spec_decode_cells(layout, values2, row, (c + 1) as nat) {
                        None => None,
                        Some(p) => Some(
                            (
                                seq![FieldModel { data_type: layout.types[c as int], value: v }]
                                    + p.0,
                                p.1,
                            ),
                        ),
                    }
                },
            }
        }
    }
}

/// The bitmap byte gates each cell of a row: with `k` the column's resolved
/// buffer index and `b = bitmaps[k][0]` its accumulated bitmap byte, the cell
/// of logical row `row` is populated exactly when bit `0x80 >> (row % 8)` of
/// `b` is set. A clear bit yields a null cell and consumes no bytes -- the
/// rest of the row decodes from the value buffers unchanged; a set bit
/// decodes one value of the column's declared type from the front of buffer
/// `k`, and only that buffer advances, by exactly the consumed count.
pub proof fn lemma_bitmap_gates_cell(layout: DecodeLayout, values: Seq<Seq<u8>>, row: nat, c: nat)
    requires
        c < layout.columns.len(),
        c < layout.types.len(),
        ({
            let k = effective_index(layout, c as int);
            &&& 0 <= k < values.len()
            &&& k < layout.bitmaps.len()
            &&& layout.bitmaps[k].len() > 0
        }),
    ensures
        ({
            let k = effective_index(layout, c as int);
            if !cell_present(layout.bitmaps[k][0], row) {
                spec_decode_cells(layout, values, row, c) == (match spec_decode_cells(
                    layout,
                    values,
                    row,
                    (c + 1) as nat,
                ) {
                    None => None,
                    Some(p) => Some(
                        (
                            seq![
                                FieldModel {
                                    data_type: layout.types[c as int],
                                    value: FieldValueModel::Null,
                                },
                            ] + p.0,
                            p.1,
                        ),
                    ),
                })
            } else {
                spec_decode_cells(layout, values, row, c) == (match spec_decode_cell(
                    layout.types[c as int],
                    values[k],
                ) {
                    None => None,
                    Some((v, n)) => match spec_decode_cells(
                        layout,
                        values.update(k, values[k].skip(n)),
                        row,
                        (c + 1) as nat,
                    ) {
                        None => None,
                        Some(p) => Some(
                            (
                                seq![FieldModel { data_type: layout.types[c as int], value: v }]
                                    + p.0,
                                p.1,
                            ),
                        ),
                    },
                })
            }
        }),
{
}

/// What the shared timestamp buffer yields for one row: no timestamp when the
/// buffer is absent (empty), eight big-endian bytes otherwise; a non-empty
/// buffer shorter than eight bytes is inconsistent.
pub open spec fn spec_read_timestamp(time: Seq<u8>) -> Option<(Option<i64>, Seq<u8>)> {
    if time.len() == 0 {
        Some((None, time))
    } else if time.len() >= 8 {
        Some((Some(be_i64(time) as i64), time.skip(8)))
    } else {
        None
    }
}

/// The rows the decoder yields from row index `row` on, or nothing when the
/// payload is inconsistent. Decoding ends exactly when all value buffers are
/// exhausted. A row whose cells are all null consumes no value bytes and is
/// legitimate; but after eight such rows in a row (`streak`), the fixed
/// per-column bitmap bytes have cycled once without consuming anything, every
/// later row repeats them, and the remaining bytes are unreachable: the
/// payload is treated as inconsistent.
pub open spec fn spec_decode_rows(
    layout: DecodeLayout,
    values: Seq<Seq<u8>>,
    time: Seq<u8>,
    row: nat,
    streak: nat,
) -> Option<Seq<RowModel>>
    decreases sum_len(values), 8 - streak,
{
    if sum_len(values) == 0 {
        Some(Seq::empty())
    } else if streak >= 8 {
        None
    } else {
        match spec_read_timestamp(time) {
            None => None,
            Some((ts, time2)) => match spec_decode_cells(layout, values, row, 0) {
                None => None,
                Some((cells, values2)) => if sum_len(values2) < sum_len(values) {
                    match spec_decode_rows(layout, values2, time2, row + 1, 0) {
                        None => None,
                        Some(rest) => Some(seq![RowModel { timestamp: ts, cells }] + rest),
                    }
                } else {
                    // Nothing was consumed, so no cell was populated and the
                    // buffers stand as they were.
                    match spec_decode_rows(layout, values, time2, row + 1, streak + 1) {
                        None => None,
                        Some(rest) => Some(seq![RowModel { timestamp: ts, cells }] + rest),
                    }
                },
            },
        }
    }
}

/// Rows already decoded, prefixed to whatever the rest decodes to.
pub open spec fn prepend_rows(done: Seq<RowModel>, rest: Option<Seq<RowModel>>) -> Option<
    Seq<RowModel>,
> {
    match rest {
        Some(r) => Some(done + r),
        None => None,
    }
}

/// Cells already decoded, prefixed to whatever the rest of the row decodes to.
pub open spec fn prepend_cells(
    done: Seq<FieldModel>,
    rest: Option<(Seq<FieldModel>, Seq<Seq<u8>>)>,
) -> Option<(Seq<FieldModel>, Seq<Seq<u8>>)> {
    match rest {
        Some(p) => Some((done + p.0, p.1)),
        None => None,
    }
}

/// Whether every per-column value buffer is empty (the decoder's stopping
/// condition).
pub fn buffers_all_empty(vl: &Vec<Vec<u8>>) -> (r: bool)
    ensures
        r == (sum_len(views_of(vl@)) == 0),
{
    let mut i: usize = 0;
    let mut r: bool = true;
    while i < vl.len()
        invariant
            i <= vl@.len(),
            r == (forall|j: int| 0 <= j < i ==> vl@[j]@.len() == 0),
        decreases vl@.len() - i,
    {
        if vl[i].len() > 0 {
            r = false;
        }
        i = i + 1;
    }
    proof {
        lemma_sum_len_zero(views_of(vl@));
        assert(views_of(vl@).len() == vl@.len());
        if r {
            assert forall|j: int|
                0 <= j < views_of(vl@).len() implies #[trigger] views_of(vl@)[j].len() == 0 by {
                assert(views_of(vl@)[j] == vl@[j]@);
            }
        } else {
            let j = choose|j: int| 0 <= j < vl@.len() && vl@[j]@.len() != 0;
            assert(views_of(vl@)[j] == vl@[j]@);
            assert(views_of(vl@)[j].len() != 0);
        }
    }
    r
}

/// The remap table's contents, when one came with the response.
pub open spec fn opt_remap_view(o: &Option<Vec<(String, i32)>>) -> Option<Seq<(String, i32)>> {
    match o {
        None => None,
        Some(m) => Some(m@),
    }
}

/// Decode one row: the optional eight-byte timestamp from the front of the
/// shared time buffer, then one bitmap-gated cell per declared column from
/// that column's resolved value buffer. Exactly one step of
/// `spec_decode_rows`; the returned flag says whether the row consumed any
/// value bytes (a row of null cells consumes none). A structurally
/// inconsistent payload is a decode error, never a panic.
#[verifier::loop_isolation(false)]
#[verifier::rlimit(100)]
fn decode_one_row(
    columns: &Vec<String>,
    data_types: &Vec<DataType>,
    remap: &Option<Vec<(String, i32)>>,
    bitmap_list: &Vec<Vec<u8>>,
    vl: &mut Vec<Vec<u8>>,
    tm: &mut Vec<u8>,
    row_mod8: usize,
    Ghost(row): Ghost<nat>,
) -> (r: Result<(ValueRow, bool), IotDBError>)
    requires
        row_mod8 == row % 8,
    ensures
        ({
            let layout = DecodeLayout {
                columns: columns@,
                types: data_types@,
                remap: opt_remap_view(remap),
                bitmaps: views_of(bitmap_list@),
            };
            match r {
                Ok((vr, consumed)) => {
                    &&& spec_read_timestamp(old(tm)@) == Some((vr.timestamp, final(tm)@))
                    &&& spec_decode_cells(layout, views_of(old(vl)@), row, 0) == Some(
                        (vr@.cells, views_of(final(vl)@)),
                    )
                    &&& consumed == (sum_len(views_of(final(vl)@)) < sum_len(views_of(old(vl)@)))
                    &&& !consumed ==> *final(vl) == *old(vl)
                    &&& vr.fields@.len() == columns@.len()
                    &&& row_fields_wf(vr)
                },
                Err(e) => {
                    &&& e == IotDBError::Decode
                    &&& {
                        ||| spec_read_timestamp(old(tm)@) is None
                        ||| spec_decode_cells(layout, views_of(old(vl)@), row, 0) is None
                    }
                },
            }
        }),
{
    let ghost layout = DecodeLayout {
        columns: columns@,
        types: data_types@,
        remap: opt_remap_view(remap),
        bitmaps: views_of(bitmap_list@),
    };
    let ghost v_row = views_of(vl@);
    let ghost t_row = tm@;

    // Timestamp: an absent (empty) buffer means a row without one; a
    // non-empty buffer shorter than one timestamp is corrupt.
    let mut value_row = ValueRow::new();
    if tm.len() > 0 {
        if tm.len() < 8 {
            return Err(IotDBError::Decode);
        }
        let t = read_be_i64(tm);
        let t2 = skip_front(tm, 8);
        *tm = t2;
        value_row.timestamp(t);
    }
    let ghost ts = value_row.timestamp;
    proof {
        assert(spec_read_timestamp(t_row) == Some((ts, tm@)));
        assert(value_row@.cells =~= Seq::<FieldModel>::empty());
        match spec_decode_cells(layout, v_row, row, 0) {
            Some(p) => {
                assert(Seq::<FieldModel>::empty() + p.0 =~= p.0);
            },
            None => {},
        }
    }

    // Cells: one per declared column, each through its resolved buffer.
    let mut consumed_any: bool = false;
    let mut c: usize = 0;
    while c < columns.len()
        invariant
            c <= columns@.len(),
            value_row.timestamp == ts,
            value_row.fields@.len() == c,
            row_fields_wf(value_row),
            sum_len(views_of(vl@)) <= sum_len(v_row),
            consumed_any == (sum_len(views_of(vl@)) < sum_len(v_row)),
            !consumed_any ==> *vl == *old(vl),
            prepend_cells(
                value_row@.cells,
                spec_decode_cells(layout, views_of(vl@), row, c as nat),
            ) == spec_decode_cells(layout, v_row, row, 0),
        decreases columns@.len() - c,
    {
        let ghost vcur = views_of(vl@);
        if c >= data_types.len() {
            proof {
                assert(spec_decode_cells(layout, vcur, row, c as nat) is None);
            }
            return Err(IotDBError::Decode);
        }
        let data_type = data_types[c];

        // Resolve the effective buffer index for this column.
        let mut k: usize = c;
        let mut k_valid: bool = true;
        match remap {
            None => {},
            Some(m) => {
                match lookup_column_index(m, &columns[c]) {
                    None => {},
                    Some(ki) => {
                        if ki < 0 {
                            k_valid = false;
                        } else {
                            k = ki as usize;
                        }
                    },
                }
            },
        }
        let ghost keff = effective_index(layout, c as int);
        proof {
            if k_valid {
                assert(keff == k as int);
            } else {
                assert(keff < 0);
            }
            assert(vcur.len() == vl@.len());
            assert(views_of(bitmap_list@).len() == bitmap_list@.len());
        }
        if !k_valid || k >= vl.len() || k >= bitmap_list.len() {
            proof {
                assert(spec_decode_cells(layout, vcur, row, c as nat) is None);
            }
            return Err(IotDBError::Decode);
        }
        proof {
            assert(views_of(bitmap_list@)[k as int] == bitmap_list@[k as int]@);
        }
        if bitmap_list[k].len() == 0 {
            proof {
                assert(spec_decode_cells(layout, vcur, row, c as nat) is None);
            }
            return Err(IotDBError::Decode);
        }

        let present = is_cell_present(bitmap_list[k][0], row_mod8);
        proof {
            assert(row_mod8 as nat % 8 == row % 8);
            assert(present == cell_present(layout.bitmaps[k as int][0], row));
        }
        let ghost cells0 = value_row@.cells;
        if !present {
            // Null cell: no value bytes are consumed.
            let field = Field::new(data_type);
            proof {
                let fm = FieldModel {
                    data_type: data_types@[c as int],
                    value: FieldValueModel::Null,
                };
                assert(field@ == fm);
                let dnext = spec_decode_cells(layout, vcur, row, (c + 1) as nat);
                assert(spec_decode_cells(layout, vcur, row, c as nat) == (match dnext {
                    None => None,
                    Some(p) => Some((seq![fm] + p.0, p.1)),
                }));
                match dnext {
                    None => {},
                    Some(p) => {
                        assert(cells0.push(fm) + p.0 =~= cells0 + (seq![fm] + p.0));
                    },
                }
            }
            value_row.add_field(field);
            proof {
                assert(value_row@.cells =~= cells0.push(
                    FieldModel { data_type: data_types@[c as int], value: FieldValueModel::Null },
                ));
            }
        } else {
            proof {
                assert(vcur[k as int] == vl@[k as int]@);
            }
            match decode_cell(data_type, &vl[k]) {
                Err(_) => {
                    proof {
                        assert(spec_decode_cells(layout, vcur, row, c as nat) is None);
                    }
                    return Err(IotDBError::Decode);
                },
                Ok((field, n)) => {
                    let nv = skip_front(&vl[k], n);
                    vl.set(k, nv);
                    consumed_any = true;
                    let ghost fm = FieldModel {
                        data_type: data_types@[c as int],
                        value: field@.value,
                    };
                    proof {
                        let vnew = views_of(vl@);
                        assert(vnew =~= vcur.update(k as int, vcur[k as int].skip(n as int)));
                        lemma_sum_len_update(vcur, k as int, vcur[k as int].skip(n as int));
                        assert(vcur[k as int].skip(n as int).len() == vcur[k as int].len() - n);
                        assert(sum_len(vnew) + n == sum_len(vcur));
                        assert(field@ == fm);
                        let dnext = spec_decode_cells(layout, vnew, row, (c + 1) as nat);
                        assert(spec_decode_cells(layout, vcur, row, c as nat) == (match dnext {
                            None => None,
                            Some(p) => Some((seq![fm] + p.0, p.1)),
                        }));
                        match dnext {
                            None => {},
                            Some(p) => {
                                assert(cells0.push(fm) + p.0 =~= cells0 + (seq![fm] + p.0));
                            },
                        }
                    }
                    value_row.add_field(field);
                    proof {
                        assert(value_row@.cells =~= cells0.push(fm));
                    }
                },
            }
        }
        c = c + 1;
    }

    proof {
        let vcur = views_of(vl@);
        assert(spec_decode_cells(layout, vcur, row, c as nat) == Some(
            (Seq::<FieldModel>::empty(), vcur),
        ));
        assert(value_row@.cells + Seq::<FieldModel>::empty() =~= value_row@.cells);
        assert(spec_decode_cells(layout, v_row, row, 0) == Some((value_row@.cells, vcur)));
    }
    Ok((value_row, consumed_any))
}

/// Decode a result payload into rows, row by row, until every per-column
/// value buffer is exhausted. Exactly `spec_decode_rows`: each row takes one
/// optional eight-byte timestamp from the shared time buffer and, per column,
/// one bitmap-gated cell from that column's value buffer (resolved through
/// the remap table). Any structural inconsistency is a decode error, never a
/// panic.
#[verifier::loop_isolation(false)]
#[verifier::rlimit(100)]
pub fn resp_to_rows(
    columns: &Vec<String>,
    data_types: &Vec<DataType>,
    remap: &Option<Vec<(String, i32)>>,
    bitmap_list: &Vec<Vec<u8>>,
    value_list: Vec<Vec<u8>>,
    time: Vec<u8>,
) -> (r: Result<Vec<ValueRow>, IotDBError>)
    ensures
        ({
            let layout = DecodeLayout {
                columns: columns@,
                types: data_types@,
                remap: opt_remap_view(remap),
                bitmaps: views_of(bitmap_list@),
            };
            match r {
                Ok(rows) => {
                    &&& spec_decode_rows(layout, views_of(value_list@), time@, 0, 0) == Some(
                        rows_model(rows@),
                    )
                    &&& forall|i: int|
                        0 <= i < rows@.len() ==> (#[trigger] rows@[i]).fields@.len()
                            == columns@.len() && row_fields_wf(rows@[i])
                },
                Err(e) => spec_decode_rows(layout, views_of(value_list@), time@, 0, 0) is None && e
                    == IotDBError::Decode,
            }
        }),
{
    let ghost layout = DecodeLayout {
        columns: columns@,
        types: data_types@,
        remap: opt_remap_view(remap),
        bitmaps: views_of(bitmap_list@),
    };
    let mut vl = value_list;
    let mut tm = time;
    let ghost vl0 = views_of(vl@);
    let ghost t0 = tm@;
    let mut rows: Vec<ValueRow> = Vec::new();
    let mut row_mod8: usize = 0;
    let mut streak: usize = 0;
    let ghost mut row: nat = 0;

    proof {
        assert(rows_model(rows@) =~= Seq::<RowModel>::empty());
        match spec_decode_rows(layout, vl0, t0, 0, 0) {
            Some(rest) => {
                assert(Seq::<RowModel>::empty() + rest =~= rest);
            },
            None => {},
        }
    }

    let mut done = buffers_all_empty(&vl);
    while !done
        invariant
            done == (sum_len(views_of(vl@)) == 0),
            row_mod8 == row % 8,
            streak <= 8,
            forall|i: int|
                0 <= i < rows@.len() ==> (#[trigger] rows@[i]).fields@.len() == columns@.len()
                    && row_fields_wf(rows@[i]),
            prepend_rows(
                rows_model(rows@),
                spec_decode_rows(layout, views_of(vl@), tm@, row, streak as nat),
            ) == spec_decode_rows(layout, vl0, t0, 0, 0),
        decreases sum_len(views_of(vl@)), 8 - streak,
    {
        let ghost v_row = views_of(vl@);
        let ghost t_row = tm@;

        if streak >= 8 {
            // Eight rows in a row consumed nothing: the bitmap cycle has
            // repeated once in full, the remaining bytes are unreachable.
            proof {
                assert(spec_decode_rows(layout, v_row, t_row, row, streak as nat) is None);
            }
            return Err(IotDBError::Decode);
        }

        match decode_one_row(
            columns,
            data_types,
            remap,
            bitmap_list,
            &mut vl,
            &mut tm,
            row_mod8,
            Ghost(row),
        ) {
            Err(e) => {
                proof {
                    assert(spec_decode_rows(layout, v_row, t_row, row, streak as nat) is None);
                }
                return Err(e);
            },
            Ok((value_row, consumed)) => {
                let ghost rows0 = rows@;
                let ghost vr = value_row;
                proof {
                    let rm = RowModel { timestamp: value_row.timestamp, cells: value_row@.cells };
                    assert(vr@ == rm);
                    let drest = if consumed {
                        spec_decode_rows(layout, views_of(vl@), tm@, row + 1, 0)
                    } else {
                        spec_decode_rows(layout, views_of(vl@), tm@, row + 1, (streak + 1) as nat)
                    };
                    assert(spec_decode_rows(layout, v_row, t_row, row, streak as nat) == (
                    match drest {
                        None => None,
                        Some(rest) => Some(seq![rm] + rest),
                    }));
                    match drest {
                        None => {},
                        Some(rest) => {
                            assert(rows_model(rows0).push(rm) + rest =~= rows_model(rows0) + (
                            seq![rm] + rest));
                        },
                    }
                }
                rows.push(value_row);
                row_mod8 = if row_mod8 == 7 {
                    0
                } else {
                    row_mod8 + 1
                };
                streak = if consumed {
                    0
                } else {
                    streak + 1
                };
                proof {
                    assert(rows_model(rows@) =~= rows_model(rows0).push(vr@));
                    row = row + 1;
                }
                done = buffers_all_empty(&vl);
            },
        }
    }

    proof {
        assert(spec_decode_rows(layout, views_of(vl@), tm@, row, streak as nat) == Some(
            Seq::<RowModel>::empty(),
        ));
        assert(rows_model(rows@) + Seq::<RowModel>::empty() =~= rows_model(rows@));
    }
    Ok(rows)
}

/// Value buffers that are all empty from the start decode to zero rows,
/// whatever the layout, the timestamp buffer and the row index: the sum of
/// remaining value bytes is the decoder's only termination signal.
pub proof fn lemma_exhausted_buffers_decode_to_no_rows(
    layout: DecodeLayout,
    values: Seq<Seq<u8>>,
    time: Seq<u8>,
    row: nat,
    streak: nat,
)
    requires
        sum_len(values) == 0,
    ensures
        spec_decode_rows(layout, values, time, row, streak) == Some(Seq::<RowModel>::empty()),
{
}

/// The data types a result header's type-name list denotes from entry `i`
/// on, or nothing when a name is unknown.
pub open spec fn spec_parse_types_from(names: Seq<String>, i: nat) -> Option<Seq<DataType>>
    decreases names.len() - i,
{
    if i >= names.len() {
        Some(Seq::empty())
    } else {
        match DataType::spec_from_name(names[i as int]@) {
            None => None,
            Some(t) => match spec_parse_types_from(names, i + 1) {
                None => None,
                Some(rest) => Some(seq![t] + rest),
            },
        }
    }
}

/// The data types a result header's type-name list denotes, or nothing when
/// a name is unknown.
pub open spec fn spec_parse_types(names: Seq<String>) -> Option<Seq<DataType>> {
    spec_parse_types_from(names, 0)
}

/// Parse the result header's type-name list; an unknown name is a typed
/// error, never a panic.
#[verifier::loop_isolation(false)]
pub fn parse_type_list(names: &Vec<String>) -> (r: Result<Vec<DataType>, IotDBError>)
    ensures
        match r {
            Ok(ts) => spec_parse_types(names@) == Some(ts@),
            Err(e) => spec_parse_types(names@) is None && e matches IotDBError::UnknownTypeName(_),
        },
{
    let mut ts: Vec<DataType> = Vec::new();
    let mut i: usize = 0;
    proof {
        assert(ts@ =~= Seq::<DataType>::empty());
        match spec_parse_types_from(names@, 0) {
            Some(rest) => {
                assert(Seq::<DataType>::empty() + rest =~= rest);
            },
            None => {},
        }
    }
    while i < names.len()
        invariant
            i <= names@.len(),
            prepend_types(ts@, spec_parse_types_from(names@, i as nat)) == spec_parse_types(
                names@,
            ),
        decreases names@.len() - i,
    {
        let ghost ts0 = ts@;
        match DataType::from_name(&names[i]) {
            Err(e) => {
                proof {
                    assert(spec_parse_types_from(names@, i as nat) is None);
                }
                return Err(e);
            },
            Ok(t) => {
                proof {
                    match spec_parse_types_from(names@, (i + 1) as nat) {
                        Some(rest) => {
                            assert(ts0.push(t) + rest =~= ts0 + (seq![t] + rest));
                        },
                        None => {},
                    }
                }
                ts.push(t);
            },
        }
        i = i + 1;
    }
    proof {
        assert(ts@ + Seq::<DataType>::empty() =~= ts@);
    }
    Ok(ts)
}

/// Types already parsed, prefixed to whatever the rest of the list parses to.
pub open spec fn prepend_types(done: Seq<DataType>, rest: Option<Seq<DataType>>) -> Option<
    Seq<DataType>,
> {
    match rest {
        Some(r) => Some(done + r),
        None => None,
    }
}

/// One decoded batch: ordered column names and the rows under them.
/// `is_empty` marks the canonical empty batch a response without a result-set
/// payload yields ("nothing to show", not an error).
#[derive(Clone, Debug, PartialEq)]
pub struct RecordBatch {
    pub columns: Vec<String>,
    pub values: Vec<ValueRow>,
    pub is_empty: bool,
}

impl Default for RecordBatch {
    /// The canonical empty batch: no columns, no rows.
    fn default() -> (r: RecordBatch)
        ensures
            r.columns@ =~= Seq::<String>::empty(),
            r.values@ =~= Seq::<ValueRow>::empty(),
            r.is_empty,
    {
        RecordBatch { columns: Vec::new(), values: Vec::new(), is_empty: true }
    }
}

impl RecordBatch {
    /// A batch holding decoded rows under their column names.
    pub fn new(columns: Vec<String>, values: Vec<ValueRow>) -> (r: RecordBatch)
        ensures
            r.columns == columns,
            r.values == values,
            !r.is_empty,
    {
        RecordBatch { columns, values, is_empty: false }
    }
}

/// The data types a statement response declares: none listed means an empty
/// list, a listed unknown name means failure.
pub open spec fn resp_types(resp: TSExecuteStatementResp) -> Option<Seq<DataType>> {
    match resp.data_type_list {
        None => Some(Seq::empty()),
        Some(l) => spec_parse_types(l@),
    }
}

/// The decoded result of one query: the statement that produced it, the ids
/// it ran under, the timestamp-suppression flag, and the decoded batch. An
/// independent value with no reference back to the session.
#[derive(Clone, Debug, PartialEq)]
pub struct DataSet {
    pub statement: String,
    pub session_id: i64,
    pub fetch_size: i32,
    pub query_id: Option<i64>,
    pub record_batch: RecordBatch,
    pub ignore_time_stamp: Option<bool>,
}

impl DataSet {
    /// Materialize a statement response: parse the declared column types,
    /// then decode the columnar payload into rows. A response without a
    /// result-set payload yields the canonical empty batch; a response whose
    /// payload is inconsistent yields a decode error, never a panic.
    pub fn new(statement: String, session_id: i64, fetch_size: i32, resp: TSExecuteStatementResp)
        -> (r: Result<DataSet, IotDBError>)
        ensures
            match r {
                Ok(ds) => {
                    &&& ds.statement == statement
                    &&& ds.session_id == session_id
                    &&& ds.fetch_size == fetch_size
                    &&& ds.query_id == resp.query_id
                    &&& ds.ignore_time_stamp == resp.ignore_time_stamp
                    &&& resp_types(resp) matches Some(types)
                    &&& match resp.query_data_set {
                        None => {
                            &&& ds.record_batch.is_empty
                            &&& ds.record_batch.columns@ == Seq::<String>::empty()
                            &&& ds.record_batch.values@ == Seq::<ValueRow>::empty()
                        },
                        Some(q) => {
                            &&& resp.columns matches Some(cols)
                            &&& ds.record_batch.columns == cols
                            &&& !ds.record_batch.is_empty
                            &&& forall|i: int|
                                0 <= i < ds.record_batch.values@.len() ==> (
                                #[trigger] ds.record_batch.values@[i]).fields@.len()
                                    == ds.record_batch.columns@.len() && row_fields_wf(
                                    ds.record_batch.values@[i],
                                )
                            &&& spec_decode_rows(
                                DecodeLayout {
                                    columns: cols@,
                                    types: types,
                                    remap: opt_remap_view(&resp.column_name_index_map),
                                    bitmaps: views_of(q.bitmap_list@),
                                },
                                views_of(q.value_list@),
                                q.time@,
                                0,
                                0,
                            ) == Some(rows_model(ds.record_batch.values@))
                        },
                    }
                },
                Err(e) => match e {
                    IotDBError::UnknownTypeName(_) => resp_types(resp) is None,
                    IotDBError::Decode => {
                        &&& resp_types(resp) matches Some(types)
                        &&& resp.query_data_set matches Some(q)
                        &&& match resp.columns {
                            None => true,
                            Some(cols) => spec_decode_rows(
                                DecodeLayout {
                                    columns: cols@,
                                    types: types,
                                    remap: opt_remap_view(&resp.column_name_index_map),
                                    bitmaps: views_of(q.bitmap_list@),
                                },
                                views_of(q.value_list@),
                                q.time@,
                                0,
                                0,
                            ) is None,
                        }
                    },
                    _ => false,
                },
            },
    {
        let TSExecuteStatementResp {
            status: _,
            columns,
            data_type_list,
            column_name_index_map,
            ignore_time_stamp,
            query_id,
            query_data_set,
        } = resp;
        let types: Vec<DataType> = match &data_type_list {
            None => {
                let empty_types: Vec<DataType> = Vec::new();
                proof {
                    assert(empty_types@ =~= Seq::<DataType>::empty());
                }
                empty_types
            },
            Some(list) => {
                match parse_type_list(list) {
                    Ok(ts) => ts,
                    Err(e) => {
                        return Err(e);
                    },
                }
            },
        };
        match query_data_set {
            None => Ok(
                DataSet {
                    statement,
                    session_id,
                    fetch_size,
                    query_id,
                    record_batch: RecordBatch::default(),
                    ignore_time_stamp,
                },
            ),
            Some(q) => {
                let cols = match columns {
                    Some(cs) => cs,
                    None => {
                        return Err(IotDBError::Decode);
                    },
                };
                match resp_to_rows(
                    &cols,
                    &types,
                    &column_name_index_map,
                    &q.bitmap_list,
                    q.value_list,
                    q.time,
                ) {
                    Ok(values) => Ok(
                        DataSet {
                            statement,
                            session_id,
                            fetch_size,
                            query_id,
                            record_batch: RecordBatch::new(cols, values),
                            ignore_time_stamp,
                        },
                    ),
                    Err(e) => Err(e),
                }
            },
        }
    }

    /// Column headers for presentation: the `Time` column first, unless the
    /// server marked the result as carrying no timestamps.
    pub fn headers(&self) -> (r: Vec<String>)
        ensures
            self.ignore_time_stamp == Some(true) ==> r@ == self.record_batch.columns@,
            self.ignore_time_stamp != Some(true) ==> {
                &&& r@.len() == self.record_batch.columns@.len() + 1
                &&& r@[0]@ == "Time"@
                &&& r@.skip(1) == self.record_batch.columns@
            },
    {
        let mut r: Vec<String> = Vec::new();
        let with_time = match self.ignore_time_stamp {
            Some(true) => false,
            _ => true,
        };
        if with_time {
            r.push("Time".to_owned());
        }
        let ghost base = r@;
        let mut i: usize = 0;
        while i < self.record_batch.columns.len()
            invariant
                i <= self.record_batch.columns@.len(),
                r@.len() == base.len() + i,
                r@.subrange(0, base.len() as int) == base,
                r@.skip(base.len() as int) == self.record_batch.columns@.subrange(0, i as int),
            decreases self.record_batch.columns@.len() - i,
        {
            let ghost r0 = r@;
            r.push(self.record_batch.columns[i].clone());
            proof {
                assert(r@.subrange(0, base.len() as int) =~= r0.subrange(0, base.len() as int));
                assert(r@.skip(base.len() as int) =~= self.record_batch.columns@.subrange(
                    0,
                    (i + 1) as int,
                ));
            }
            i = i + 1;
        }
        proof {
            assert(self.record_batch.columns@.subrange(
                0,
                self.record_batch.columns@.len() as int,
            ) =~= self.record_batch.columns@);
            if self.ignore_time_stamp == Some(true) {
                assert(r@ =~= r@.skip(0));
            }
            if with_time {
                assert(r@.subrange(0, 1) == base);
                assert(r@[0] == r@.subrange(0, 1)[0]);
            }
        }
        r
    }
}

} // verus!
