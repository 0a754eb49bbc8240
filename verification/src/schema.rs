//! The schema of the metadata table stream: which tables are there, how many
//! rows each has, how wide a row of each is and where each begins.
//!
//! The stream describes itself. Its header gives the heap sizes and the row
//! counts; the width of every field follows from those, the width of a row
//! from its fields, and the offset of a table from the rows before it. A
//! row of any table is thus found without a look at the tables before it.

pub mod index;
pub mod parsing;
pub mod structures;
pub mod table;
pub mod values;

use crate::bytes::u32_at;
use crate::bytes::u64_at;
use crate::error::plain;
use crate::error::viewed;
use crate::error::IoErrorKind;
use crate::error::ReadImageError;
use crate::error::ReadImageErrorView;
use crate::error::ReadImageResult;
use crate::reader::beyond;
use crate::reader::io;
use crate::reader::ModuleRead;
use crate::schema::parsing::row_failure;
use crate::schema::parsing::DbMeta;
use crate::schema::parsing::Schema;
use crate::schema::parsing::Table;
use crate::schema::parsing::TableIndex;
use crate::schema::parsing::TABLE_COUNT;
use crate::schema::table::Assembly;
use crate::schema::table::AssemblyOs;
use crate::schema::table::AssemblyProcessor;
use crate::schema::table::Module;
use crate::schema::table::TypeRef;
use vstd::prelude::*;

verus! {

/// How many bytes the header of the table stream takes before the row counts.
pub const DB_HEADER_SIZE: u64 = 24;

/// The most bytes that the rows of one table can take: the most rows, at
/// the greatest width.
pub const MAX_TABLE_BYTES: u64 = 0xFFFF_FFFF * 0xFF;

/// The schema of a table stream: the heap sizes, and for every table
/// identity the row count, the width of a row and the offset of the table
/// from the end of the stream's header.
#[must_use]
#[derive(Clone, Copy, Debug, PartialEq, Eq, Hash)]
pub struct Db {
    lstreams: u8,
    row_count: [u32; TABLE_COUNT],
    row_size: [u8; TABLE_COUNT],
    offsets: [u64; TABLE_COUNT],
}

impl Schema {
    /// The width of a row of the table with identity `id`: the sum of the
    /// widths of its fields. A table whose rows this library does not
    /// decode counts with a width of zero.
    pub open spec fn row_width(self, id: int) -> nat {
        if id == TableIndex::Module.spec_id() {
            Module::fields_width(self)
        } else if id == TableIndex::TypeRef.spec_id() {
            TypeRef::fields_width(self)
        } else if id == TableIndex::Assembly.spec_id() {
            Assembly::fields_width(self)
        } else if id == TableIndex::AssemblyProcessor.spec_id() {
            AssemblyProcessor::fields_width(self)
        } else if id == TableIndex::AssemblyOs.spec_id() {
            AssemblyOs::fields_width(self)
        } else {
            0
        }
    }

    /// The offset of the table with identity `id` from the start of the
    /// rows: what the tables before it take.
    pub open spec fn offset(self, id: int) -> nat
        decreases id,
    {
        if id <= 0 {
            0
        } else {
            (self.offset(id - 1) + self.row_count(id - 1) * self.row_width(id - 1)) as nat
        }
    }

    /// Where row `row_index` of the table with identity `id` begins in the
    /// file, for rows that begin at `table_stream_offset`.
    pub open spec fn row_position(self, table_stream_offset: u64, id: int, row_index: u32) -> int {
        table_stream_offset + self.offset(id) + row_index * self.row_width(id)
    }

    /// Where that row ends: one row width behind its beginning.
    pub open spec fn row_end(self, table_stream_offset: u64, id: int, row_index: u32) -> int {
        self.row_position(table_stream_offset, id, row_index) + self.row_width(id)
    }
}

/// What reading row `row_index` of the table of `T` gives, for rows that
/// begin at `table_stream_offset`: `None` for an index at or beyond the row
/// count, else the row at the place where the schema puts it. A place
/// beyond what a position can hold is refused as a seek is.
pub open spec fn row_at<T: Table>(
    db: Schema,
    b: Seq<u8>,
    table_stream_offset: u64,
    row_index: u32,
) -> Result<Option<T>, ReadImageErrorView> {
    let id = T::index().spec_id() as int;
    let at = db.row_position(table_stream_offset, id, row_index);
    if row_index >= db.row_count(id) {
        Ok(None)
    } else if beyond(at) {
        Err(ReadImageErrorView::IO(IoErrorKind::InvalidInput))
    } else {
        match T::parse_row(db, b, at) {
            Ok(row) => Ok(Some(row)),
            Err(e) => Err(e),
        }
    }
}

/// Whether the bitmap of valid tables holds the table with identity `id`.
pub open spec fn table_valid(valid: u64, id: int) -> bool {
    (valid >> (id as u64)) & 1 != 0
}

/// How many tables with an identity below `id` the bitmap holds.
pub open spec fn valid_below(valid: u64, id: int) -> nat
    decreases id,
{
    if id <= 0 {
        0
    } else {
        valid_below(valid, id - 1) + if table_valid(valid, id - 1) {
            1nat
        } else {
            0nat
        }
    }
}

/// The row counts that begin at `at`: one for each table that the bitmap
/// holds, in the order of the identities, and zero for every other table.
pub open spec fn rows_at(b: Seq<u8>, at: int, valid: u64) -> Seq<u32> {
    Seq::new(
        TABLE_COUNT as nat,
        |id: int|
            if table_valid(valid, id) {
                u32_at(b, at + 4 * valid_below(valid, id))
            } else {
                0u32
            },
    )
}

/// What the bytes from `at` give as the header of a table stream: six
/// bytes that are passed over, the heap sizes, one byte that is passed
/// over, the bitmap of valid tables, which may hold no table beyond the
/// identities, the bitmap of sorted tables, which is passed over, and the
/// row counts of the valid tables. The cursor has to be able to pass over
/// what is passed over; the bitmap of sorted tables need not be there
/// where no table is valid.
pub open spec fn parse_db(b: Seq<u8>, at: int) -> Result<Schema, ReadImageErrorView> {
    let valid = u64_at(b, at + 8);
    let counts = valid_below(valid, TABLE_COUNT as int);
    if beyond(at + 6) {
        Err(ReadImageErrorView::IO(IoErrorKind::InvalidInput))
    } else if b.len() < at + 7 {
        Err(ReadImageErrorView::IO(IoErrorKind::UnexpectedEof))
    } else if beyond(at + 8) {
        Err(ReadImageErrorView::IO(IoErrorKind::InvalidInput))
    } else if b.len() < at + 16 {
        Err(ReadImageErrorView::IO(IoErrorKind::UnexpectedEof))
    } else if valid >> (TABLE_COUNT as u64) != 0 {
        Err(ReadImageErrorView::TableCount(valid))
    } else if beyond(at + DB_HEADER_SIZE) {
        Err(ReadImageErrorView::IO(IoErrorKind::InvalidInput))
    } else if counts > 0 && b.len() < at + DB_HEADER_SIZE + 4 * counts {
        Err(ReadImageErrorView::IO(IoErrorKind::UnexpectedEof))
    } else {
        Ok(Schema { lstreams: b[at + 6], rows: rows_at(b, at + DB_HEADER_SIZE, valid) })
    }
}

/// Where the header of a table stream that begins at `at` ends, and its
/// rows begin.
pub open spec fn db_end(b: Seq<u8>, at: int) -> int {
    at + DB_HEADER_SIZE + 4 * valid_below(u64_at(b, at + 8), TABLE_COUNT as int)
}

/// The count of valid tables grows with the identity, by one at most.
pub proof fn lemma_valid_below(valid: u64, i: int, j: int)
    requires
        0 <= i <= j,
    ensures
        valid_below(valid, i) <= valid_below(valid, j) <= valid_below(valid, i) + (j - i),
    decreases j - i,
{
    if i < j {
        lemma_valid_below(valid, i, j - 1);
    }
}

/// The tables before the one with identity `id` take at most `id` times
/// what one table can take.
pub proof fn lemma_offset_bound(db: Schema, id: int)
    requires
        0 <= id,
    ensures
        db.offset(id) <= id * MAX_TABLE_BYTES,
    decreases id,
{
    if id > 0 {
        lemma_offset_bound(db, id - 1);
        let rows = db.row_count(id - 1) as int;
        let width = db.row_width(id - 1) as int;
        assert(rows * width <= 0xFFFF_FFFF * 0xFF) by (nonlinear_arith)
            requires
                0 <= rows <= 0xFFFF_FFFF,
                0 <= width <= 0xFF,
        ;
    }
}

/// The width of a row of the table with identity `id`.
fn declared_row_size(db: DbMeta<'_>, id: usize) -> (n: u8)
    ensures
        n == db@.row_width(id as int),
{
    if id == 0x00 {
        Module::row_size(db)
    } else if id == 0x01 {
        TypeRef::row_size(db)
    } else if id == 0x20 {
        Assembly::row_size(db)
    } else if id == 0x21 {
        AssemblyProcessor::row_size(db)
    } else if id == 0x22 {
        AssemblyOs::row_size(db)
    } else {
        0
    }
}

/// Whether the row counts of `counts` tables can be read at the cursor.
pub open spec fn counts_fit(data: ModuleRead, counts: nat) -> bool {
    counts == 0 || data.has(4 * (counts as int))
}

/// Reads the row counts of the tables that `valid` holds.
fn read_row_counts(data: &mut ModuleRead, valid: u64) -> (r: Result<
    [u32; TABLE_COUNT],
    IoErrorKind,
>)
    ensures
        final(data).bytes() == old(data).bytes(),
        counts_fit(*old(data), valid_below(valid, TABLE_COUNT as int)) ==> (r matches Ok(rows)
            && rows@ == rows_at(old(data).bytes(), old(data).position(), valid)),
        counts_fit(*old(data), valid_below(valid, TABLE_COUNT as int)) ==> final(data).position()
            == old(data).position() + 4 * valid_below(valid, TABLE_COUNT as int),
        !counts_fit(*old(data), valid_below(valid, TABLE_COUNT as int)) ==> r == Err::<
            [u32; TABLE_COUNT],
            IoErrorKind,
        >(IoErrorKind::UnexpectedEof),
{
    let ghost b = data.bytes();
    let ghost at = data.position();
    let mut row_count: [u32; TABLE_COUNT] = [0u32; TABLE_COUNT];
    let mut i: usize = 0;
    while i < TABLE_COUNT
        invariant
            i <= TABLE_COUNT,
            data.bytes() == b,
            b == old(data).bytes(),
            at == old(data).position(),
            data.position() == at + 4 * valid_below(valid, i as int),
            valid_below(valid, i as int) > 0 ==> data.position() <= b.len(),
            forall|k: int|
                0 <= k < i ==> row_count@[k] == (if table_valid(valid, k) {
                    u32_at(b, at + 4 * valid_below(valid, k))
                } else {
                    0u32
                }),
            forall|k: int| i <= k < TABLE_COUNT ==> row_count@[k] == 0,
        decreases TABLE_COUNT - i,
    {
        proof {
            lemma_valid_below(valid, i + 1, TABLE_COUNT as int);
        }
        if (valid >> (i as u64)) & 1 != 0 {
            let n: u32 = data.u32()?;
            row_count[i] = n;
        }
        i += 1;
    }
    Ok(row_count)
}

/// Works out the width of a row of every table and the offset of every
/// table, from the heap sizes and the row counts alone.
fn lay_out(db: DbMeta<'_>) -> (r: ([u8; TABLE_COUNT], [u64; TABLE_COUNT]))
    requires
        db.wf(),
    ensures
        forall|id: int| 0 <= id < TABLE_COUNT ==> r.0@[id] == db@.row_width(id),
        forall|id: int| 0 <= id < TABLE_COUNT ==> r.1@[id] == db@.offset(id),
{
    let mut row_size: [u8; TABLE_COUNT] = [0u8; TABLE_COUNT];
    let mut offsets: [u64; TABLE_COUNT] = [0u64; TABLE_COUNT];
    let mut i: usize = 0;
    while i < TABLE_COUNT
        invariant
            i <= TABLE_COUNT,
            db.wf(),
            forall|id: int| 0 <= id < i ==> row_size@[id] == db@.row_width(id),
            forall|id: int| 0 <= id <= i && id < TABLE_COUNT ==> offsets@[id] == db@.offset(id),
        decreases TABLE_COUNT - i,
    {
        let width: u8 = declared_row_size(db, i);
        row_size[i] = width;
        if i + 1 < TABLE_COUNT {
            proof {
                lemma_offset_bound(db@, i + 1);
            }
            // the next table begins where the rows of this one end
            let rows: u64 = db.row_count(i) as u64;
            offsets[i + 1] = offsets[i] + rows * (width as u64);
        }
        i += 1;
    }
    (row_size, offsets)
}

impl View for Db {
    type V = Schema;

    closed spec fn view(&self) -> Schema {
        Schema { lstreams: self.lstreams, rows: self.row_count@ }
    }
}

impl Db {
    /// What every schema holds: a row count for each table identity, and
    /// the widths and offsets that follow from the heap sizes and the row
    /// counts.
    #[verifier::type_invariant]
    spec fn laid_out(self) -> bool {
        &&& forall|id: int| 0 <= id < TABLE_COUNT ==> self.row_size@[id] == self@.row_width(id)
        &&& forall|id: int| 0 <= id < TABLE_COUNT ==> self.offsets@[id] == self@.offset(id)
    }

    /// Reads the header of the table stream at the cursor and works out
    /// the schema. The cursor is left where the rows begin.
    pub fn read(data: &mut ModuleRead) -> (r: ReadImageResult<Db>)
        ensures
            final(data).bytes() == old(data).bytes(),
            viewed(r) == parse_db(old(data).bytes(), old(data).position()),
            r is Ok ==> final(data).position() == db_end(old(data).bytes(), old(data).position()),
            r matches Ok(db) ==> db@.wf(),
    {
        io(data.skip(6))?;  // reserve, major version, minor version
        let lstreams: u8 = io(data.u8())?;
        io(data.skip(1))?;  // reserve
        let valid: u64 = io(data.u64())?;
        if valid >> (TABLE_COUNT as u64) != 0 {
            return Err(ReadImageError::TableCount(valid));
        }
        io(data.skip(8))?;  // the bitmap of sorted tables
        let row_count: [u32; TABLE_COUNT] = io(read_row_counts(data, valid))?;
        let (row_size, offsets) = lay_out(DbMeta { lstreams, rows: row_count.as_slice() });
        Ok(Db { lstreams, row_count, row_size, offsets })
    }

    /// The width in bytes of a row of `idx`.
    pub fn row_size(&self, idx: TableIndex) -> (n: u8)
        ensures
            n == self@.row_width(idx.spec_id() as int),
    {
        proof {
            use_type_invariant(self);
        }
        self.row_size[idx.id() as usize]
    }

    /// The number of rows of `idx`.
    pub fn row_count(&self, idx: TableIndex) -> (n: u32)
        ensures
            n == self@.row_count(idx.spec_id() as int),
            self@.wf(),
    {
        self.row_count[idx.id() as usize]
    }

    /// The offset of `idx` from where the rows begin.
    pub fn offset(&self, idx: TableIndex) -> (offset: u64)
        ensures
            offset == self@.offset(idx.spec_id() as int),
    {
        proof {
            use_type_invariant(self);
        }
        self.offsets[idx.id() as usize]
    }

    /// The schema as the decoders of fields and rows take it.
    pub fn meta(&self) -> (db: DbMeta<'_>)
        ensures
            db@ == self@,
            db.wf(),
    {
        DbMeta { lstreams: self.lstreams, rows: self.row_count.as_slice() }
    }

    /// Reads row `row_index` of the table that holds rows of kind `T`,
    /// where the rows of the stream begin at `table_stream_offset`.
    ///
    /// An index at or beyond the row count of the table gives `None`, which
    /// is no failure, and moves nothing. For any other index the cursor
    /// goes to where the schema places the row, and the row is read there;
    /// a place beyond what a position can hold is refused as a seek is.
    pub fn row<T: Table>(
        &self,
        data: &mut ModuleRead,
        table_stream_offset: u64,
        row_index: u32,
    ) -> (r: ReadImageResult<Option<T>>)
        ensures
            final(data).bytes() == old(data).bytes(),
            row_index >= self@.row_count(T::index().spec_id() as int) ==> r == Ok::<
                Option<T>,
                ReadImageError,
            >(None) && *final(data) == *old(data),
            plain(r) == row_at::<T>(self@, old(data).bytes(), table_stream_offset, row_index),
            r matches Ok(Some(_)) ==> final(data).position() == self@.row_end(
                table_stream_offset,
                T::index().spec_id() as int,
                row_index,
            ),
            row_index < self@.row_count(T::index().spec_id() as int) && self@.row_end(
                table_stream_offset,
                T::index().spec_id() as int,
                row_index,
            ) > old(data).bytes().len() ==> r is Err,
            r matches Err(e) ==> row_failure(e@),
    {
        proof {
            lemma_row_at::<T>(self@, data.bytes(), table_stream_offset, row_index);
        }
        let table: TableIndex = T::table();
        if row_index >= self.row_count(table) {
            return Ok(None);
        }
        let offset: u64 = self.offset(table);
        let width: u64 = self.row_size(table) as u64;
        proof {
            lemma_offset_bound(self@, table.spec_id() as int);
            assert((row_index as u64) * width <= 0xFFFF_FFFF * 0xFF) by (nonlinear_arith)
                requires
                    row_index <= 0xFFFF_FFFF,
                    width <= 0xFF,
            ;
        }
        let within: u64 = offset + (row_index as u64) * width;
        let at: u64 = match table_stream_offset.checked_add(within) {
            Some(at) => at,
            None => {
                return Err(ReadImageError::IO(IoErrorKind::InvalidInput));
            },
        };
        io(data.goto(at))?;
        let row: T = T::row(self.meta(), data)?;
        Ok(Some(row))
    }
}

/// The offset of a table is the offset of the table before it plus what
/// the rows of that table take; the first table has offset zero.
pub proof fn lemma_offsets_cumulative(db: Db, id: int)
    requires
        0 <= id < TABLE_COUNT - 1,
    ensures
        db@.offset(0) == 0,
        db@.offset(id + 1) == db@.offset(id) + db@.row_count(id) * db@.row_width(id),
{
}

/// Reading a row by its index, whatever the kind of row, the schema and
/// the bytes: a row that is read ends one row width of the schema behind
/// where the schema puts it, and lies whole within the bytes; a row that is
/// cut short is therefore not read; and a row is refused only for a failure
/// of the byte source or for a coded index.
pub proof fn lemma_row_at<T: Table>(
    db: Schema,
    b: Seq<u8>,
    table_stream_offset: u64,
    row_index: u32,
)
    ensures
        db.row_width(T::index().spec_id() as int) == T::row_width(db),
        row_at::<T>(db, b, table_stream_offset, row_index) matches Ok(Some(_)) ==> db.row_end(
            table_stream_offset,
            T::index().spec_id() as int,
            row_index,
        ) <= b.len(),
        row_index < db.row_count(T::index().spec_id() as int) && db.row_end(
            table_stream_offset,
            T::index().spec_id() as int,
            row_index,
        ) > b.len() ==> row_at::<T>(db, b, table_stream_offset, row_index) is Err,
        row_at::<T>(db, b, table_stream_offset, row_index) matches Err(e) ==> row_failure(e),
{
    let id = T::index().spec_id() as int;
    let at = db.row_position(table_stream_offset, id, row_index);
    assert(0 <= at) by (nonlinear_arith)
        requires
            at == table_stream_offset + db.offset(id) + row_index * db.row_width(id),
    ;
    T::lemma_row(db, b, at);
}

} // verus!
