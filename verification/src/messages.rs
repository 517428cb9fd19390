//! Wire-exact PostgreSQL protocol frames for synthesized responses.
//!
//! When a policy component answers a statement from the cache instead of a
//! backend, it must hand the client a byte-for-byte correct reply: a row
//! description, the data rows, a command completion tag, and a ready-for-query
//! marker. Each builder's contract states the exact bytes it produces.

use vstd::prelude::*;

use crate::bytebuf::{
    be16, be32, buf_bytes, buf_extend_from_buf, buf_extend_from_vec, buf_len, buf_new,
    buf_put_u16, buf_put_u32, buf_put_u8,
};

verus! {

/// Frame tag of a row-description message.
pub const TAG_ROW_DESCRIPTION: u8 = 84;

/// Frame tag of a data-row message.
pub const TAG_DATA_ROW: u8 = 68;

/// Frame tag of a command-completion message.
pub const TAG_COMMAND_COMPLETE: u8 = 67;

/// Frame tag of a ready-for-query message.
pub const TAG_READY_FOR_QUERY: u8 = 90;

/// Connection status byte: idle, not in a transaction.
pub const STATUS_IDLE: u8 = 73;

/// Object id of the `text` type in the system catalog.
pub const TEXT_TYPE_OID: u32 = 25;

/// Largest value the 16-bit count fields of a frame can carry.
pub const MAX_FIELD_COUNT: usize = 0x7fff;

/// Largest frame length: the 32-bit length field must stay positive.
pub const MAX_FRAME_LEN: usize = 0x7fff_ffff;

/// The column types a synthesized row description can declare.
#[derive(Clone, Copy, PartialEq, Eq, Structural, Debug)]
pub enum DataType {
    Text,
}

/// Catalog object id declared for a column of the given type.
pub open spec fn type_oid(dt: DataType) -> u32 {
    match dt {
        DataType::Text => TEXT_TYPE_OID,
    }
}

/// Declared size of a value of the given type; `0xffff` is the two's
/// complement encoding of -1, the marker for variable-length types.
pub open spec fn type_size(dt: DataType) -> u16 {
    match dt {
        DataType::Text => 0xffff,
    }
}

/// A complete frame: one tag byte, a 32-bit big-endian length that counts
/// itself and the payload, then the payload.
pub open spec fn frame(tag: u8, payload: Seq<u8>) -> Seq<u8> {
    seq![tag] + be32((payload.len() + 4) as u32) + payload
}

/// The bytes describing one column: null-terminated name, table id 0, column
/// id 0, type id, type size, type modifier -1, text format marker 0.
pub open spec fn field_of(c: (Seq<u8>, DataType)) -> Seq<u8> {
    c.0 + seq![0u8] + be32(0) + be16(0) + be32(type_oid(c.1)) + be16(type_size(c.1)) + be32(
        0xffff_ffff,
    ) + be16(0)
}

/// The concatenated column descriptions of a row description.
pub open spec fn fields_bytes(cols: Seq<(Seq<u8>, DataType)>) -> Seq<u8>
    decreases cols.len(),
{
    if cols.len() == 0 {
        Seq::empty()
    } else {
        fields_bytes(cols.drop_last()) + field_of(cols.last())
    }
}

/// The complete row-description frame for the given columns.
pub open spec fn row_description_bytes(cols: Seq<(Seq<u8>, DataType)>) -> Seq<u8> {
    frame(TAG_ROW_DESCRIPTION, be16(cols.len() as u16) + fields_bytes(cols))
}

/// The bytes of one column value inside a data row: a 32-bit length, then the
/// value itself.
pub open spec fn col_of(v: Seq<u8>) -> Seq<u8> {
    be32(v.len() as u32) + v
}

/// The concatenated column values of a data row.
pub open spec fn cols_bytes(row: Seq<Seq<u8>>) -> Seq<u8>
    decreases row.len(),
{
    if row.len() == 0 {
        Seq::empty()
    } else {
        cols_bytes(row.drop_last()) + col_of(row.last())
    }
}

/// The complete data-row frame carrying the given column values.
pub open spec fn data_row_bytes(row: Seq<Seq<u8>>) -> Seq<u8> {
    frame(TAG_DATA_ROW, be16(row.len() as u16) + cols_bytes(row))
}

/// Whether a sequence of column values fits inside one data-row frame: the
/// column count must fit the 16-bit count field and the payload the 32-bit
/// length field.
pub open spec fn row_fits(row: Seq<Seq<u8>>) -> bool {
    row.len() <= MAX_FIELD_COUNT && cols_bytes(row).len() + 6 <= MAX_FRAME_LEN
}

/// The complete command-completion frame for the given tag string.
pub open spec fn command_complete_bytes(tag: Seq<u8>) -> Seq<u8> {
    frame(TAG_COMMAND_COMPLETE, tag + seq![0u8])
}

/// The ready-for-query frame for an idle connection: the tag byte, a length
/// of 5 covering the length field and the status byte, and the idle marker.
pub open spec fn ready_for_query_idle() -> Seq<u8> {
    seq![TAG_READY_FOR_QUERY, 0u8, 0u8, 0u8, 5u8, STATUS_IDLE]
}

/// The spec-level pairs described by a vector of owned column declarations.
pub open spec fn pairs_view(s: Seq<(Vec<u8>, DataType)>) -> Seq<(Seq<u8>, DataType)> {
    s.map_values(|c: (Vec<u8>, DataType)| (c.0@, c.1))
}

/// Appending a column extends the concatenated descriptions by that column's
/// bytes.
proof fn lemma_fields_take_step(cols: Seq<(Seq<u8>, DataType)>, i: int)
    requires
        0 <= i < cols.len(),
    ensures
        fields_bytes(cols.take(i + 1)) == fields_bytes(cols.take(i)) + field_of(cols[i]),
{
    assert(cols.take(i + 1).drop_last() =~= cols.take(i));
    assert(cols.take(i + 1).last() == cols[i]);
}

/// The descriptions of a prefix never outgrow the descriptions of the whole.
proof fn lemma_fields_take_le(cols: Seq<(Seq<u8>, DataType)>, i: int)
    requires
        0 <= i <= cols.len(),
    ensures
        fields_bytes(cols.take(i)).len() <= fields_bytes(cols).len(),
    decreases cols.len() - i,
{
    if i == cols.len() {
        assert(cols.take(i) =~= cols);
    } else {
        lemma_fields_take_le(cols, i + 1);
        lemma_fields_take_step(cols, i);
    }
}

/// The concatenated description of a single column is that column's bytes.
pub proof fn lemma_fields_bytes_single(c: (Seq<u8>, DataType))
    ensures
        fields_bytes(seq![c]) == field_of(c),
{
    assert(seq![c].drop_last() =~= Seq::<(Seq<u8>, DataType)>::empty());
    assert(seq![c].last() == c);
    assert(fields_bytes(Seq::<(Seq<u8>, DataType)>::empty()) =~= Seq::<u8>::empty());
    assert(fields_bytes(seq![c]) =~= field_of(c));
}

/// Appending a column value extends the concatenated values by that value's
/// bytes.
proof fn lemma_cols_take_step(row: Seq<Seq<u8>>, i: int)
    requires
        0 <= i < row.len(),
    ensures
        cols_bytes(row.take(i + 1)) == cols_bytes(row.take(i)) + col_of(row[i]),
{
    assert(row.take(i + 1).drop_last() =~= row.take(i));
    assert(row.take(i + 1).last() == row[i]);
}

/// The values of a prefix never outgrow the values of the whole row.
proof fn lemma_cols_take_le(row: Seq<Seq<u8>>, i: int)
    requires
        0 <= i <= row.len(),
    ensures
        cols_bytes(row.take(i)).len() <= cols_bytes(row).len(),
    decreases row.len() - i,
{
    if i == row.len() {
        assert(row.take(i) =~= row);
    } else {
        lemma_cols_take_le(row, i + 1);
        lemma_cols_take_step(row, i);
    }
}

/// Decides whether the given column values fit inside one data-row frame.
pub fn check_row_fits(row: &Vec<bytes::BytesMut>) -> (r: bool)
    ensures
        r == row_fits(crate::bytebuf::rows_view(row@)),
{
    let ghost rv = crate::bytebuf::rows_view(row@);
    if row.len() > MAX_FIELD_COUNT {
        return false;
    }
    let mut total: u64 = 0;
    for i in 0..row.len()
        invariant
            rv == crate::bytebuf::rows_view(row@),
            rv.len() == row@.len() <= MAX_FIELD_COUNT,
            total == cols_bytes(rv.take(i as int)).len(),
            total + 6 <= MAX_FRAME_LEN,
    {
        proof {
            lemma_cols_take_step(rv, i as int);
            lemma_cols_take_le(rv, i + 1);
        }
        let len = buf_len(&row[i]);
        if len as u64 > MAX_FRAME_LEN as u64 {
            return false;
        }
        let t = total + 4 + len as u64;
        if t + 6 > MAX_FRAME_LEN as u64 {
            return false;
        }
        total = t;
    }
    proof {
        assert(rv.take(rv.len() as int) =~= rv);
    }
    true
}

/// Builds the row-description frame declaring the given columns.
pub fn row_description(columns: &Vec<(Vec<u8>, DataType)>) -> (r: bytes::BytesMut)
    requires
        columns@.len() <= MAX_FIELD_COUNT,
        fields_bytes(pairs_view(columns@)).len() + 6 <= MAX_FRAME_LEN,
    ensures
        buf_bytes(r) == row_description_bytes(pairs_view(columns@)),
{
    let ghost pv = pairs_view(columns@);
    let mut payload = buf_new();
    buf_put_u16(&mut payload, columns.len() as u16);
    for i in 0..columns.len()
        invariant
            pv == pairs_view(columns@),
            pv.len() == columns@.len() <= MAX_FIELD_COUNT,
            fields_bytes(pv).len() + 6 <= MAX_FRAME_LEN,
            buf_bytes(payload) == be16(columns@.len() as u16) + fields_bytes(pv.take(i as int)),
    {
        proof {
            lemma_fields_take_step(pv, i as int);
            lemma_fields_take_le(pv, i + 1);
            assert(pv[i as int] == (columns@[i as int].0@, columns@[i as int].1));
        }
        let name = &columns[i].0;
        let dt = columns[i].1;
        buf_extend_from_vec(&mut payload, name);
        buf_put_u8(&mut payload, 0);
        buf_put_u32(&mut payload, 0);
        buf_put_u16(&mut payload, 0);
        match dt {
            DataType::Text => {
                buf_put_u32(&mut payload, TEXT_TYPE_OID);
                buf_put_u16(&mut payload, 0xffff);
            },
        }
        buf_put_u32(&mut payload, 0xffff_ffff);
        buf_put_u16(&mut payload, 0);
        proof {
            assert(buf_bytes(payload) =~= be16(columns@.len() as u16) + fields_bytes(
                pv.take(i + 1),
            ));
        }
    }
    proof {
        assert(pv.take(pv.len() as int) =~= pv);
    }
    finish_frame(TAG_ROW_DESCRIPTION, payload)
}

/// Builds the data-row frame carrying the given column values.
pub fn data_row(row: &Vec<bytes::BytesMut>) -> (r: bytes::BytesMut)
    requires
        row_fits(crate::bytebuf::rows_view(row@)),
    ensures
        buf_bytes(r) == data_row_bytes(crate::bytebuf::rows_view(row@)),
{
    let ghost rv = crate::bytebuf::rows_view(row@);
    let mut payload = buf_new();
    buf_put_u16(&mut payload, row.len() as u16);
    for i in 0..row.len()
        invariant
            rv == crate::bytebuf::rows_view(row@),
            rv.len() == row@.len() <= MAX_FIELD_COUNT,
            cols_bytes(rv).len() + 6 <= MAX_FRAME_LEN,
            buf_bytes(payload) == be16(row@.len() as u16) + cols_bytes(rv.take(i as int)),
    {
        proof {
            lemma_cols_take_step(rv, i as int);
            lemma_cols_take_le(rv, i + 1);
        }
        let len = buf_len(&row[i]);
        buf_put_u32(&mut payload, len as u32);
        buf_extend_from_buf(&mut payload, &row[i]);
        proof {
            assert(buf_bytes(payload) =~= be16(row@.len() as u16) + cols_bytes(rv.take(i + 1)));
        }
    }
    proof {
        assert(rv.take(rv.len() as int) =~= rv);
    }
    finish_frame(TAG_DATA_ROW, payload)
}

/// Builds the command-completion frame for the given tag string.
pub fn command_complete(tag: &Vec<u8>) -> (r: bytes::BytesMut)
    requires
        tag@.len() + 5 <= MAX_FRAME_LEN,
    ensures
        buf_bytes(r) == command_complete_bytes(tag@),
{
    let mut payload = buf_new();
    buf_extend_from_vec(&mut payload, tag);
    buf_put_u8(&mut payload, 0);
    finish_frame(TAG_COMMAND_COMPLETE, payload)
}

/// Wraps a finished payload in its frame: tag byte, then the 32-bit length
/// counting the length field and the payload, then the payload.
fn finish_frame(tag: u8, payload: bytes::BytesMut) -> (r: bytes::BytesMut)
    requires
        buf_bytes(payload).len() + 4 <= MAX_FRAME_LEN,
    ensures
        buf_bytes(r) == frame(tag, buf_bytes(payload)),
{
    let plen = buf_len(&payload);
    let mut r = buf_new();
    buf_put_u8(&mut r, tag);
    buf_put_u32(&mut r, (plen + 4) as u32);
    buf_extend_from_buf(&mut r, &payload);
    proof {
        assert(buf_bytes(r) =~= frame(tag, buf_bytes(payload)));
    }
    r
}

} // verus!
