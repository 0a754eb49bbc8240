//! What the decoders of the table stream share: the schema as they see it,
//! the identities of the tables, and the two contracts that every field type
//! and every row type meets.

use crate::bytes::u16_at;
use crate::bytes::u32_at;
use crate::bytes::u64_at;
use crate::error::plain;
use crate::error::IoErrorKind;
use crate::error::ReadImageErrorView;
use crate::error::ReadImageResult;
use crate::reader::io;
use crate::reader::ModuleRead;
use vstd::prelude::*;

verus! {

/// The number of table identities: a row count is kept for each.
pub const TABLE_COUNT: usize = 0x2D;

/// The bit of the heap sizes that makes indices into `#Strings` four bytes wide.
pub const WIDE_STRINGS: u8 = 0x1;

/// The bit of the heap sizes that makes indices into `#GUID` four bytes wide.
pub const WIDE_GUIDS: u8 = 0x2;

/// The bit of the heap sizes that makes indices into `#Blob` four bytes wide.
pub const WIDE_BLOBS: u8 = 0x4;

/// What the width of a field depends on: the heap sizes and the row count
/// of every table.
#[derive(Clone, Copy, Debug, PartialEq, Eq, Hash)]
pub struct DbMeta<'a> {
    pub lstreams: u8,
    pub rows: &'a [u32],
}

/// The schema as a plain value.
pub struct Schema {
    pub lstreams: u8,
    pub rows: Seq<u32>,
}

impl<'a> View for DbMeta<'a> {
    type V = Schema;

    open spec fn view(&self) -> Schema {
        Schema { lstreams: self.lstreams, rows: self.rows@ }
    }
}

impl Schema {
    /// Whether there is a row count for every table identity.
    pub open spec fn wf(self) -> bool {
        self.rows.len() == TABLE_COUNT
    }

    /// The row count of the table with identity `id`; a table outside the
    /// identities has no rows.
    pub open spec fn row_count(self, id: int) -> u32 {
        if 0 <= id < self.rows.len() {
            self.rows[id]
        } else {
            0
        }
    }
}

impl<'a> DbMeta<'a> {
    /// Whether there is a row count for every table identity.
    pub open spec fn wf(self) -> bool {
        self@.wf()
    }

    /// The row count of the table with identity `id`; a table outside the
    /// identities has no rows.
    pub fn row_count(self, id: usize) -> (n: u32)
        ensures
            n == self@.row_count(id as int),
    {
        if id < self.rows.len() {
            self.rows[id]
        } else {
            0
        }
    }
}

/// The tables that rows can refer to.
#[derive(Clone, Copy, Debug, PartialEq, Eq, Hash)]
pub enum TableIndex {
    Assembly,
    AssemblyOs,
    AssemblyProcessor,
    AssemblyRef,
    AssemblyRefOs,
    AssemblyRefProcessor,
    ClassLayout,
    Constant,
    CustomAttribute,
    DeclSecurity,
    EventMap,
    Event,
    ExportedType,
    Field,
    FieldLayout,
    FieldMarshal,
    FieldRva,
    File,
    GenericParam,
    GenericParamConstraint,
    ImplMap,
    InterfaceImpl,
    ManifestResource,
    MemberRef,
    MethodDef,
    MethodImpl,
    MethodSemantics,
    MethodSpec,
    Module,
    ModuleRef,
    NestedClass,
    Param,
    Property,
    PropertyMap,
    StandAloneSig,
    TypeDef,
    TypeRef,
    TypeSpec,
}

impl TableIndex {
    /// The identity of the table: its place in the bitmap of valid tables
    /// and among the row counts.
    pub open spec fn spec_id(self) -> u8 {
        match self {
            TableIndex::Module => 0x00,
            TableIndex::TypeRef => 0x01,
            TableIndex::TypeDef => 0x02,
            TableIndex::Field => 0x04,
            TableIndex::MethodDef => 0x06,
            TableIndex::Param => 0x08,
            TableIndex::InterfaceImpl => 0x09,
            TableIndex::MemberRef => 0x0A,
            TableIndex::Constant => 0x0B,
            TableIndex::CustomAttribute => 0x0C,
            TableIndex::FieldMarshal => 0x0D,
            TableIndex::DeclSecurity => 0x0E,
            TableIndex::ClassLayout => 0x0F,
            TableIndex::FieldLayout => 0x10,
            TableIndex::StandAloneSig => 0x11,
            TableIndex::EventMap => 0x12,
            TableIndex::Event => 0x14,
            TableIndex::PropertyMap => 0x15,
            TableIndex::Property => 0x17,
            TableIndex::MethodSemantics => 0x18,
            TableIndex::MethodImpl => 0x19,
            TableIndex::ModuleRef => 0x1A,
            TableIndex::TypeSpec => 0x1B,
            TableIndex::ImplMap => 0x1C,
            TableIndex::FieldRva => 0x1D,
            TableIndex::Assembly => 0x20,
            TableIndex::AssemblyProcessor => 0x21,
            TableIndex::AssemblyOs => 0x22,
            TableIndex::AssemblyRef => 0x23,
            TableIndex::AssemblyRefProcessor => 0x24,
            TableIndex::AssemblyRefOs => 0x25,
            TableIndex::File => 0x26,
            TableIndex::ExportedType => 0x27,
            TableIndex::ManifestResource => 0x28,
            TableIndex::NestedClass => 0x29,
            TableIndex::GenericParam => 0x2A,
            TableIndex::MethodSpec => 0x2B,
            TableIndex::GenericParamConstraint => 0x2C,
        }
    }

    /// The identity of the table, which is below `TABLE_COUNT`.
    #[verifier::when_used_as_spec(spec_id)]
    pub fn id(self) -> (id: u8)
        ensures
            id == self.spec_id(),
            id < TABLE_COUNT,
    {
        match self {
            TableIndex::Module => 0x00,
            TableIndex::TypeRef => 0x01,
            TableIndex::TypeDef => 0x02,
            TableIndex::Field => 0x04,
            TableIndex::MethodDef => 0x06,
            TableIndex::Param => 0x08,
            TableIndex::InterfaceImpl => 0x09,
            TableIndex::MemberRef => 0x0A,
            TableIndex::Constant => 0x0B,
            TableIndex::CustomAttribute => 0x0C,
            TableIndex::FieldMarshal => 0x0D,
            TableIndex::DeclSecurity => 0x0E,
            TableIndex::ClassLayout => 0x0F,
            TableIndex::FieldLayout => 0x10,
            TableIndex::StandAloneSig => 0x11,
            TableIndex::EventMap => 0x12,
            TableIndex::Event => 0x14,
            TableIndex::PropertyMap => 0x15,
            TableIndex::Property => 0x17,
            TableIndex::MethodSemantics => 0x18,
            TableIndex::MethodImpl => 0x19,
            TableIndex::ModuleRef => 0x1A,
            TableIndex::TypeSpec => 0x1B,
            TableIndex::ImplMap => 0x1C,
            TableIndex::FieldRva => 0x1D,
            TableIndex::Assembly => 0x20,
            TableIndex::AssemblyProcessor => 0x21,
            TableIndex::AssemblyOs => 0x22,
            TableIndex::AssemblyRef => 0x23,
            TableIndex::AssemblyRefProcessor => 0x24,
            TableIndex::AssemblyRefOs => 0x25,
            TableIndex::File => 0x26,
            TableIndex::ExportedType => 0x27,
            TableIndex::ManifestResource => 0x28,
            TableIndex::NestedClass => 0x29,
            TableIndex::GenericParam => 0x2A,
            TableIndex::MethodSpec => 0x2B,
            TableIndex::GenericParamConstraint => 0x2C,
        }
    }

    /// The table with identity `id`, for the identities that stand for one.
    pub open spec fn of_id(id: u8) -> Option<TableIndex> {
        match id {
            0x00 => Some(TableIndex::Module),
            0x01 => Some(TableIndex::TypeRef),
            0x02 => Some(TableIndex::TypeDef),
            0x04 => Some(TableIndex::Field),
            0x06 => Some(TableIndex::MethodDef),
            0x08 => Some(TableIndex::Param),
            0x09 => Some(TableIndex::InterfaceImpl),
            0x0A => Some(TableIndex::MemberRef),
            0x0B => Some(TableIndex::Constant),
            0x0C => Some(TableIndex::CustomAttribute),
            0x0D => Some(TableIndex::FieldMarshal),
            0x0E => Some(TableIndex::DeclSecurity),
            0x0F => Some(TableIndex::ClassLayout),
            0x10 => Some(TableIndex::FieldLayout),
            0x11 => Some(TableIndex::StandAloneSig),
            0x12 => Some(TableIndex::EventMap),
            0x14 => Some(TableIndex::Event),
            0x15 => Some(TableIndex::PropertyMap),
            0x17 => Some(TableIndex::Property),
            0x18 => Some(TableIndex::MethodSemantics),
            0x19 => Some(TableIndex::MethodImpl),
            0x1A => Some(TableIndex::ModuleRef),
            0x1B => Some(TableIndex::TypeSpec),
            0x1C => Some(TableIndex::ImplMap),
            0x1D => Some(TableIndex::FieldRva),
            0x20 => Some(TableIndex::Assembly),
            0x21 => Some(TableIndex::AssemblyProcessor),
            0x22 => Some(TableIndex::AssemblyOs),
            0x23 => Some(TableIndex::AssemblyRef),
            0x24 => Some(TableIndex::AssemblyRefProcessor),
            0x25 => Some(TableIndex::AssemblyRefOs),
            0x26 => Some(TableIndex::File),
            0x27 => Some(TableIndex::ExportedType),
            0x28 => Some(TableIndex::ManifestResource),
            0x29 => Some(TableIndex::NestedClass),
            0x2A => Some(TableIndex::GenericParam),
            0x2B => Some(TableIndex::MethodSpec),
            0x2C => Some(TableIndex::GenericParamConstraint),
            _ => None,
        }
    }

    /// The table with identity `id`, for the identities that stand for one.
    pub fn from_id(id: u8) -> (r: Option<TableIndex>)
        ensures
            r == TableIndex::of_id(id),
    {
        match id {
            0x00 => Some(TableIndex::Module),
            0x01 => Some(TableIndex::TypeRef),
            0x02 => Some(TableIndex::TypeDef),
            0x04 => Some(TableIndex::Field),
            0x06 => Some(TableIndex::MethodDef),
            0x08 => Some(TableIndex::Param),
            0x09 => Some(TableIndex::InterfaceImpl),
            0x0A => Some(TableIndex::MemberRef),
            0x0B => Some(TableIndex::Constant),
            0x0C => Some(TableIndex::CustomAttribute),
            0x0D => Some(TableIndex::FieldMarshal),
            0x0E => Some(TableIndex::DeclSecurity),
            0x0F => Some(TableIndex::ClassLayout),
            0x10 => Some(TableIndex::FieldLayout),
            0x11 => Some(TableIndex::StandAloneSig),
            0x12 => Some(TableIndex::EventMap),
            0x14 => Some(TableIndex::Event),
            0x15 => Some(TableIndex::PropertyMap),
            0x17 => Some(TableIndex::Property),
            0x18 => Some(TableIndex::MethodSemantics),
            0x19 => Some(TableIndex::MethodImpl),
            0x1A => Some(TableIndex::ModuleRef),
            0x1B => Some(TableIndex::TypeSpec),
            0x1C => Some(TableIndex::ImplMap),
            0x1D => Some(TableIndex::FieldRva),
            0x20 => Some(TableIndex::Assembly),
            0x21 => Some(TableIndex::AssemblyProcessor),
            0x22 => Some(TableIndex::AssemblyOs),
            0x23 => Some(TableIndex::AssemblyRef),
            0x24 => Some(TableIndex::AssemblyRefProcessor),
            0x25 => Some(TableIndex::AssemblyRefOs),
            0x26 => Some(TableIndex::File),
            0x27 => Some(TableIndex::ExportedType),
            0x28 => Some(TableIndex::ManifestResource),
            0x29 => Some(TableIndex::NestedClass),
            0x2A => Some(TableIndex::GenericParam),
            0x2B => Some(TableIndex::MethodSpec),
            0x2C => Some(TableIndex::GenericParamConstraint),
            _ => None,
        }
    }
}

/// A table is found again from its identity, and from no other: no two
/// tables have the same identity, and every identity is below `TABLE_COUNT`.
pub proof fn lemma_table_of_id(table: TableIndex, id: u8)
    ensures
        TableIndex::of_id(id) == Some(table) <==> table.spec_id() == id,
        table.spec_id() < TABLE_COUNT,
{
}

/// What the `width` bytes at `at` give as a field of type `F`, and a
/// failure of the byte source where they are not all there.
pub open spec fn field_at<F: DbRead>(db: Schema, b: Seq<u8>, at: int) -> Result<
    F,
    ReadImageErrorView,
> {
    if b.len() < at + F::width(db) {
        Err(ReadImageErrorView::IO(IoErrorKind::UnexpectedEof))
    } else {
        F::decode(db, b.subrange(at, at + F::width(db)))
    }
}

/// A type of field in the rows of the tables. Its width on disk follows
/// from the schema alone, and reading it takes exactly that many bytes.
pub trait DbRead: Sized {
    /// The width predicate: how many bytes a field of this type takes.
    spec fn width(db: Schema) -> nat;

    /// The field that `bytes` give, where they are as many as `width` says.
    spec fn decode(db: Schema, bytes: Seq<u8>) -> Result<Self, ReadImageErrorView>;

    /// The width of a field of this type, in bytes.
    fn size(db: DbMeta<'_>) -> (n: u8)
        ensures
            n == Self::width(db@),
    ;

    /// Reads a field at the cursor. The bytes it takes are as many as
    /// `size` says, whether they give a value or are refused; where fewer
    /// are left, none is taken.
    fn read(db: DbMeta<'_>, data: &mut ModuleRead) -> (r: ReadImageResult<Self>)
        ensures
            final(data).bytes() == old(data).bytes(),
            old(data).has(Self::width(db@) as int) ==> plain(r) == Self::decode(
                db@,
                old(data).bytes().subrange(
                    old(data).position(),
                    old(data).position() + Self::width(db@),
                ),
            ) && final(data).position() == old(data).position() + Self::width(db@),
            !old(data).has(Self::width(db@) as int) ==> plain(r) == Err::<
                Self,
                ReadImageErrorView,
            >(ReadImageErrorView::IO(IoErrorKind::UnexpectedEof)) && final(data).position()
                == old(data).position(),
    ;
}

/// Whether reading a row can end in this failure: a failure of the byte
/// source, or a coded index whose tag chooses no table.
pub open spec fn row_failure(e: ReadImageErrorView) -> bool {
    e is IO || e is CodedIndex
}

/// A kind of row in the table stream: the table it belongs to and its
/// fields in their order. The width of a row is the sum of the widths of
/// its fields, and reading a row reads its fields one after the other.
pub trait Table: Sized {
    /// The table that holds rows of this kind.
    spec fn index() -> TableIndex;

    /// The width of a row: the sum of the widths of its fields.
    spec fn row_width(db: Schema) -> nat;

    /// What the bytes from `at` give as a row: its fields in their order.
    /// The first field that is cut short or refused decides the failure.
    spec fn parse_row(db: Schema, b: Seq<u8>, at: int) -> Result<Self, ReadImageErrorView>;

    /// The schema keeps for the table of these rows the width that the
    /// fields of a row add up to, so that a row is as wide where it is
    /// looked for as it is when read; a row that is read lies whole within
    /// the bytes; and a row is refused only for a failure of the byte
    /// source or for a coded index.
    proof fn lemma_row(db: Schema, b: Seq<u8>, at: int)
        requires
            0 <= at,
        ensures
            db.row_width(Self::index().spec_id() as int) == Self::row_width(db),
            Self::parse_row(db, b, at) is Ok ==> at + Self::row_width(db) <= b.len(),
            Self::parse_row(db, b, at) matches Err(e) ==> row_failure(e),
    ;

    /// The table that holds rows of this kind.
    fn table() -> (table: TableIndex)
        ensures
            table == Self::index(),
    ;

    /// The width of a row, in bytes.
    fn row_size(db: DbMeta<'_>) -> (n: u8)
        ensures
            n == Self::row_width(db@),
    ;

    /// Reads a row at the cursor. A row that was read took as many bytes
    /// as `row_size` says.
    fn row(db: DbMeta<'_>, data: &mut ModuleRead) -> (r: ReadImageResult<Self>)
        ensures
            final(data).bytes() == old(data).bytes(),
            plain(r) == Self::parse_row(db@, old(data).bytes(), old(data).position()),
            r is Ok ==> final(data).position() == old(data).position() + Self::row_width(db@),
    ;
}

impl DbRead for u8 {
    open spec fn width(db: Schema) -> nat {
        1
    }

    open spec fn decode(db: Schema, bytes: Seq<u8>) -> Result<u8, ReadImageErrorView> {
        Ok(bytes[0])
    }

    fn size(db: DbMeta<'_>) -> (n: u8) {
        1
    }

    fn read(db: DbMeta<'_>, data: &mut ModuleRead) -> (r: ReadImageResult<u8>) {
        io(data.u8())
    }
}

impl DbRead for u16 {
    open spec fn width(db: Schema) -> nat {
        2
    }

    open spec fn decode(db: Schema, bytes: Seq<u8>) -> Result<u16, ReadImageErrorView> {
        Ok(u16_at(bytes, 0))
    }

    fn size(db: DbMeta<'_>) -> (n: u8) {
        2
    }

    fn read(db: DbMeta<'_>, data: &mut ModuleRead) -> (r: ReadImageResult<u16>) {
        io(data.u16())
    }
}

impl DbRead for u32 {
    open spec fn width(db: Schema) -> nat {
        4
    }

    open spec fn decode(db: Schema, bytes: Seq<u8>) -> Result<u32, ReadImageErrorView> {
        Ok(u32_at(bytes, 0))
    }

    fn size(db: DbMeta<'_>) -> (n: u8) {
        4
    }

    fn read(db: DbMeta<'_>, data: &mut ModuleRead) -> (r: ReadImageResult<u32>) {
        io(data.u32())
    }
}

impl DbRead for u64 {
    open spec fn width(db: Schema) -> nat {
        8
    }

    open spec fn decode(db: Schema, bytes: Seq<u8>) -> Result<u64, ReadImageErrorView> {
        Ok(u64_at(bytes, 0))
    }

    fn size(db: DbMeta<'_>) -> (n: u8) {
        8
    }

    fn read(db: DbMeta<'_>, data: &mut ModuleRead) -> (r: ReadImageResult<u64>) {
        io(data.u64())
    }
}

} // verus!
