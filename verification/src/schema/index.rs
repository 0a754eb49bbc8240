//! References from a row to a heap, to a row of one table, or to a row of
//! one of several tables. Each is two or four bytes wide, as the heap sizes
//! and the row counts of the schema decide.

use crate::bytes::u16_at;
use crate::bytes::u32_at;
use crate::error::IoErrorKind;
use crate::error::ReadImageError;
use crate::error::ReadImageErrorView;
use crate::error::ReadImageResult;
use crate::reader::io;
use crate::reader::ModuleRead;
use crate::schema::parsing::DbMeta;
use crate::schema::parsing::DbRead;
use crate::schema::parsing::Schema;
use crate::schema::parsing::TableIndex;
use crate::schema::parsing::WIDE_BLOBS;
use crate::schema::parsing::WIDE_GUIDS;
use crate::schema::parsing::WIDE_STRINGS;
use vstd::prelude::*;

verus! {

/// The width in bits of the tag of every coded index declared here.
pub const TAG_BITS: u32 = 2;

/// The most rows that an index of two bytes can tell apart.
pub const NARROW_ROWS: u32 = 0xFFFF;

/// An index into the `#Strings` heap.
#[derive(Clone, Copy, Debug, PartialEq, Eq, Hash)]
pub struct StringIndex(pub u32);

/// An index into the `#GUID` heap.
#[derive(Clone, Copy, Debug, PartialEq, Eq, Hash)]
pub struct GuidIndex(pub u32);

/// An index into the `#Blob` heap.
#[derive(Clone, Copy, Debug, PartialEq, Eq, Hash)]
pub struct BlobIndex(pub u32);

/// An index into the rows of the table with identity `TABLE`.
#[derive(Clone, Copy, Debug, PartialEq, Eq, Hash)]
pub struct RowIndex<const TABLE: usize>(pub u32);

/// A reference to a type: a row of `TypeDef`, `TypeRef` or `TypeSpec`.
#[derive(Clone, Copy, Debug, PartialEq, Eq, Hash)]
pub struct TypeDefOrRef(pub TableIndex, pub u32);

/// A reference to what has a constant: a row of `Field`, `Param` or
/// `Property`.
#[derive(Clone, Copy, Debug, PartialEq, Eq, Hash)]
pub struct HasConstant(pub TableIndex, pub u32);

/// A reference to the scope that resolves a type: a row of `Module`,
/// `ModuleRef`, `AssemblyRef` or `TypeRef`.
#[derive(Clone, Copy, Debug, PartialEq, Eq, Hash)]
pub struct ResolutionScope(pub TableIndex, pub u32);

/// The width of an index: four bytes where it is wide, else two.
pub open spec fn index_width(wide: bool) -> nat {
    if wide {
        4
    } else {
        2
    }
}

/// The value of an index that `bytes` hold; a narrow one is widened.
pub open spec fn index_value(wide: bool, bytes: Seq<u8>) -> u32 {
    if wide {
        u32_at(bytes, 0)
    } else {
        u16_at(bytes, 0) as u32
    }
}

/// Whether the heap sizes set `bit`.
pub open spec fn wide_heap(db: Schema, bit: u8) -> bool {
    db.lstreams & bit != 0
}

/// Whether the table with identity `id` has more rows than two bytes tell
/// apart.
pub open spec fn wide_table(db: Schema, id: int) -> bool {
    db.row_count(id) > NARROW_ROWS
}

/// The tables that a `TypeDefOrRef` chooses from, in the order of its tags.
pub open spec fn type_def_or_ref_tables() -> Seq<TableIndex> {
    seq![TableIndex::TypeDef, TableIndex::TypeRef, TableIndex::TypeSpec]
}

/// The tables that a `HasConstant` chooses from, in the order of its tags.
pub open spec fn has_constant_tables() -> Seq<TableIndex> {
    seq![TableIndex::Field, TableIndex::Param, TableIndex::Property]
}

/// The tables that a `ResolutionScope` chooses from, in the order of its tags.
pub open spec fn resolution_scope_tables() -> Seq<TableIndex> {
    seq![TableIndex::Module, TableIndex::ModuleRef, TableIndex::AssemblyRef, TableIndex::TypeRef]
}

/// The largest row count among `tables`.
pub open spec fn max_rows(db: Schema, tables: Seq<TableIndex>) -> u32
    decreases tables.len(),
{
    if tables.len() == 0 {
        0
    } else {
        let rest = max_rows(db, tables.drop_last());
        let last = db.row_count(tables.last().spec_id() as int);
        if last > rest {
            last
        } else {
            rest
        }
    }
}

/// Whether a coded index with a tag of `bits` bits over `tables` is four
/// bytes wide: the largest row count exceeds two to the power of 16 less
/// `bits`.
pub open spec fn wide_coded(db: Schema, bits: u32, tables: Seq<TableIndex>) -> bool {
    max_rows(db, tables) > (1u32 << ((16 - bits) as u32))
}

/// The tag of a coded index: the low `bits` bits of its value.
pub open spec fn coded_tag(value: u32, bits: u32) -> u32 {
    value & (((1u32 << bits) - 1) as u32)
}

/// The row that a coded index refers to: its value without the tag.
pub open spec fn coded_row(value: u32, bits: u32) -> u32 {
    value >> bits
}

/// The table and the row that the value of a coded index stands for. A tag
/// that chooses none of `tables` is refused.
pub open spec fn decode_coded(value: u32, bits: u32, tables: Seq<TableIndex>) -> Result<
    (TableIndex, u32),
    ReadImageErrorView,
> {
    let tag = coded_tag(value, bits);
    if tag < tables.len() {
        Ok((tables[tag as int], coded_row(value, bits)))
    } else {
        Err(ReadImageErrorView::CodedIndex(tag as u8))
    }
}

/// With a tag of two bits, the tag is the value's remainder by four, the
/// row its quotient, and the index is wide from 16385 rows on.
pub proof fn lemma_two_tag_bits(value: u32)
    ensures
        coded_tag(value, 2) == value % 4,
        coded_row(value, 2) == value / 4,
        (1u32 << ((16 - 2) as u32)) == 0x4000,
{
    assert(value & (((1u32 << 2u32) - 1) as u32) == value % 4) by (bit_vector);
    assert(value >> 2u32 == value / 4) by (bit_vector);
    assert((1u32 << 14u32) == 0x4000) by (bit_vector);
}

/// Reads an index of four bytes where it is wide, else of two.
pub fn read_index(wide: bool, data: &mut ModuleRead) -> (r: Result<u32, IoErrorKind>)
    ensures
        final(data).bytes() == old(data).bytes(),
        old(data).has(index_width(wide) as int) ==> r == Ok::<u32, IoErrorKind>(
            index_value(
                wide,
                old(data).bytes().subrange(
                    old(data).position(),
                    old(data).position() + index_width(wide),
                ),
            ),
        ) && final(data).position() == old(data).position() + index_width(wide),
        !old(data).has(index_width(wide) as int) ==> r == Err::<u32, IoErrorKind>(
            IoErrorKind::UnexpectedEof,
        ) && final(data).position() == old(data).position(),
{
    if wide {
        data.u32()
    } else {
        match data.u16() {
            Ok(v) => Ok(v as u32),
            Err(kind) => Err(kind),
        }
    }
}

/// Whether a coded index with a tag of `bits` bits over `tables` is four
/// bytes wide under the schema.
pub fn is_wide_coded(db: DbMeta<'_>, bits: u32, tables: &[TableIndex]) -> (wide: bool)
    requires
        0 < bits <= 8,
    ensures
        wide == wide_coded(db@, bits, tables@),
{
    let mut largest: u32 = 0;
    let mut i: usize = 0;
    while i < tables.len()
        invariant
            i <= tables@.len(),
            largest == max_rows(db@, tables@.take(i as int)),
        decreases tables@.len() - i,
    {
        let rows: u32 = db.row_count(tables[i].id() as usize);
        proof {
            assert(tables@.take(i + 1).drop_last() =~= tables@.take(i as int));
        }
        if rows > largest {
            largest = rows;
        }
        i += 1;
    }
    proof {
        assert(tables@.take(tables@.len() as int) =~= tables@);
    }
    largest > (1u32 << (16 - bits))
}

/// The table and the row that the value of a coded index stands for.
pub fn split_coded(value: u32, bits: u32, tables: &[TableIndex]) -> (r: ReadImageResult<
    (TableIndex, u32),
>)
    requires
        0 < bits <= 8,
    ensures
        crate::error::plain(r) == decode_coded(value, bits, tables@),
{
    assert((1u32 << bits) >= 1) by (bit_vector)
        requires
            0 < bits <= 8,
    ;
    let tag: u32 = value & ((1u32 << bits) - 1);
    assert(value & (((1u32 << bits) - 1) as u32) <= 0xFF) by (bit_vector)
        requires
            0 < bits <= 8,
    ;
    if (tag as usize) < tables.len() {
        Ok((tables[tag as usize], value >> bits))
    } else {
        Err(ReadImageError::CodedIndex(tag as u8))
    }
}

impl DbRead for StringIndex {
    open spec fn width(db: Schema) -> nat {
        index_width(wide_heap(db, WIDE_STRINGS))
    }

    open spec fn decode(db: Schema, bytes: Seq<u8>) -> Result<StringIndex, ReadImageErrorView> {
        Ok(StringIndex(index_value(wide_heap(db, WIDE_STRINGS), bytes)))
    }

    fn size(db: DbMeta<'_>) -> (n: u8) {
        if db.lstreams & WIDE_STRINGS != 0 {
            4
        } else {
            2
        }
    }

    fn read(db: DbMeta<'_>, data: &mut ModuleRead) -> (r: ReadImageResult<StringIndex>) {
        let value: u32 = io(read_index(db.lstreams & WIDE_STRINGS != 0, data))?;
        Ok(StringIndex(value))
    }
}

impl DbRead for GuidIndex {
    open spec fn width(db: Schema) -> nat {
        index_width(wide_heap(db, WIDE_GUIDS))
    }

    open spec fn decode(db: Schema, bytes: Seq<u8>) -> Result<GuidIndex, ReadImageErrorView> {
        Ok(GuidIndex(index_value(wide_heap(db, WIDE_GUIDS), bytes)))
    }

    fn size(db: DbMeta<'_>) -> (n: u8) {
        if db.lstreams & WIDE_GUIDS != 0 {
            4
        } else {
            2
        }
    }

    fn read(db: DbMeta<'_>, data: &mut ModuleRead) -> (r: ReadImageResult<GuidIndex>) {
        let value: u32 = io(read_index(db.lstreams & WIDE_GUIDS != 0, data))?;
        Ok(GuidIndex(value))
    }
}

impl DbRead for BlobIndex {
    open spec fn width(db: Schema) -> nat {
        index_width(wide_heap(db, WIDE_BLOBS))
    }

    open spec fn decode(db: Schema, bytes: Seq<u8>) -> Result<BlobIndex, ReadImageErrorView> {
        Ok(BlobIndex(index_value(wide_heap(db, WIDE_BLOBS), bytes)))
    }

    fn size(db: DbMeta<'_>) -> (n: u8) {
        if db.lstreams & WIDE_BLOBS != 0 {
            4
        } else {
            2
        }
    }

    fn read(db: DbMeta<'_>, data: &mut ModuleRead) -> (r: ReadImageResult<BlobIndex>) {
        let value: u32 = io(read_index(db.lstreams & WIDE_BLOBS != 0, data))?;
        Ok(BlobIndex(value))
    }
}

impl<const TABLE: usize> DbRead for RowIndex<TABLE> {
    open spec fn width(db: Schema) -> nat {
        index_width(wide_table(db, TABLE as int))
    }

    open spec fn decode(db: Schema, bytes: Seq<u8>) -> Result<RowIndex<TABLE>, ReadImageErrorView> {
        Ok(RowIndex(index_value(wide_table(db, TABLE as int), bytes)))
    }

    fn size(db: DbMeta<'_>) -> (n: u8) {
        if db.row_count(TABLE) > NARROW_ROWS {
            4
        } else {
            2
        }
    }

    fn read(db: DbMeta<'_>, data: &mut ModuleRead) -> (r: ReadImageResult<RowIndex<TABLE>>) {
        let value: u32 = io(read_index(db.row_count(TABLE) > NARROW_ROWS, data))?;
        Ok(RowIndex(value))
    }
}

/// The tables that a `TypeDefOrRef` chooses from, in the order of its tags.
pub fn type_def_or_ref() -> (tables: [TableIndex; 3])
    ensures
        tables@ == type_def_or_ref_tables(),
{
    let tables: [TableIndex; 3] = [TableIndex::TypeDef, TableIndex::TypeRef, TableIndex::TypeSpec];
    tables
}

impl DbRead for TypeDefOrRef {
    open spec fn width(db: Schema) -> nat {
        index_width(wide_coded(db, TAG_BITS, type_def_or_ref_tables()))
    }

    open spec fn decode(db: Schema, bytes: Seq<u8>) -> Result<TypeDefOrRef, ReadImageErrorView> {
        match decode_coded(
            index_value(wide_coded(db, TAG_BITS, type_def_or_ref_tables()), bytes),
            TAG_BITS,
            type_def_or_ref_tables(),
        ) {
            Ok((table, row)) => Ok(TypeDefOrRef(table, row)),
            Err(e) => Err(e),
        }
    }

    fn size(db: DbMeta<'_>) -> (n: u8) {
        let tables: [TableIndex; 3] = type_def_or_ref();
        if is_wide_coded(db, TAG_BITS, tables.as_slice()) {
            4
        } else {
            2
        }
    }

    fn read(db: DbMeta<'_>, data: &mut ModuleRead) -> (r: ReadImageResult<TypeDefOrRef>) {
        let tables: [TableIndex; 3] = type_def_or_ref();
        let wide: bool = is_wide_coded(db, TAG_BITS, tables.as_slice());
        let value: u32 = io(read_index(wide, data))?;
        let (table, row): (TableIndex, u32) = split_coded(value, TAG_BITS, tables.as_slice())?;
        Ok(TypeDefOrRef(table, row))
    }
}

/// The tables that a `HasConstant` chooses from, in the order of its tags.
pub fn has_constant() -> (tables: [TableIndex; 3])
    ensures
        tables@ == has_constant_tables(),
{
    let tables: [TableIndex; 3] = [TableIndex::Field, TableIndex::Param, TableIndex::Property];
    tables
}

impl DbRead for HasConstant {
    open spec fn width(db: Schema) -> nat {
        index_width(wide_coded(db, TAG_BITS, has_constant_tables()))
    }

    open spec fn decode(db: Schema, bytes: Seq<u8>) -> Result<HasConstant, ReadImageErrorView> {
        match decode_coded(
            index_value(wide_coded(db, TAG_BITS, has_constant_tables()), bytes),
            TAG_BITS,
            has_constant_tables(),
        ) {
            Ok((table, row)) => Ok(HasConstant(table, row)),
            Err(e) => Err(e),
        }
    }

    fn size(db: DbMeta<'_>) -> (n: u8) {
        let tables: [TableIndex; 3] = has_constant();
        if is_wide_coded(db, TAG_BITS, tables.as_slice()) {
            4
        } else {
            2
        }
    }

    fn read(db: DbMeta<'_>, data: &mut ModuleRead) -> (r: ReadImageResult<HasConstant>) {
        let tables: [TableIndex; 3] = has_constant();
        let wide: bool = is_wide_coded(db, TAG_BITS, tables.as_slice());
        let value: u32 = io(read_index(wide, data))?;
        let (table, row): (TableIndex, u32) = split_coded(value, TAG_BITS, tables.as_slice())?;
        Ok(HasConstant(table, row))
    }
}

/// The tables that a `ResolutionScope` chooses from, in the order of its tags.
pub fn resolution_scope() -> (tables: [TableIndex; 4])
    ensures
        tables@ == resolution_scope_tables(),
{
    let tables: [TableIndex; 4] = [
        TableIndex::Module,
        TableIndex::ModuleRef,
        TableIndex::AssemblyRef,
        TableIndex::TypeRef,
    ];
    tables
}

impl DbRead for ResolutionScope {
    open spec fn width(db: Schema) -> nat {
        index_width(wide_coded(db, TAG_BITS, resolution_scope_tables()))
    }

    open spec fn decode(db: Schema, bytes: Seq<u8>) -> Result<ResolutionScope, ReadImageErrorView> {
        match decode_coded(
            index_value(wide_coded(db, TAG_BITS, resolution_scope_tables()), bytes),
            TAG_BITS,
            resolution_scope_tables(),
        ) {
            Ok((table, row)) => Ok(ResolutionScope(table, row)),
            Err(e) => Err(e),
        }
    }

    fn size(db: DbMeta<'_>) -> (n: u8) {
        let tables: [TableIndex; 4] = resolution_scope();
        if is_wide_coded(db, TAG_BITS, tables.as_slice()) {
            4
        } else {
            2
        }
    }

    fn read(db: DbMeta<'_>, data: &mut ModuleRead) -> (r: ReadImageResult<ResolutionScope>) {
        let tables: [TableIndex; 4] = resolution_scope();
        let wide: bool = is_wide_coded(db, TAG_BITS, tables.as_slice());
        let value: u32 = io(read_index(wide, data))?;
        let (table, row): (TableIndex, u32) = split_coded(value, TAG_BITS, tables.as_slice())?;
        Ok(ResolutionScope(table, row))
    }
}

} // verus!
