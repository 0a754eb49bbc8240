//! The schema of the table stream, the widths of fields and the rows.

use clr_image::error::IoErrorKind;
use clr_image::error::ReadImageError;
use clr_image::reader::ModuleRead;
use clr_image::schema::index::has_constant;
use clr_image::schema::index::is_wide_coded;
use clr_image::schema::index::read_index;
use clr_image::schema::index::resolution_scope;
use clr_image::schema::index::split_coded;
use clr_image::schema::index::type_def_or_ref;
use clr_image::schema::parsing::DbMeta;
use clr_image::schema::parsing::DbRead;
use clr_image::schema::parsing::Table;
use clr_image::schema::parsing::TableIndex;
use clr_image::schema::parsing::TABLE_COUNT;
use clr_image::schema::structures::AssemblyFlags;
use clr_image::schema::structures::AssemblyHashAlgorithm;
use clr_image::schema::structures::BlobIndex;
use clr_image::schema::structures::GuidIndex;
use clr_image::schema::structures::HasConstant;
use clr_image::schema::structures::ResolutionScope;
use clr_image::schema::structures::RowIndex;
use clr_image::schema::structures::StringIndex;
use clr_image::schema::structures::TypeDefOrRef;
use clr_image::schema::table::Assembly;
use clr_image::schema::table::AssemblyOs;
use clr_image::schema::table::AssemblyProcessor;
use clr_image::schema::table::Module;
use clr_image::schema::table::TypeRef;
use clr_image::schema::values::ALL_ASSEMBLY_FLAGS;
use clr_image::schema::values::DISABLE_JIT_COMPILE_OPTIMIZER;
use clr_image::schema::values::ENABLE_JIT_COMPILE_TRACKING;
use clr_image::schema::values::PUBLIC_KEY;
use clr_image::schema::values::RETARGETABLE;
use clr_image::schema::Db;

const ALL_TABLES: [TableIndex; 38] = [
    TableIndex::Assembly,
    TableIndex::AssemblyOs,
    TableIndex::AssemblyProcessor,
    TableIndex::AssemblyRef,
    TableIndex::AssemblyRefOs,
    TableIndex::AssemblyRefProcessor,
    TableIndex::ClassLayout,
    TableIndex::Constant,
    TableIndex::CustomAttribute,
    TableIndex::DeclSecurity,
    TableIndex::EventMap,
    TableIndex::Event,
    TableIndex::ExportedType,
    TableIndex::Field,
    TableIndex::FieldLayout,
    TableIndex::FieldMarshal,
    TableIndex::FieldRva,
    TableIndex::File,
    TableIndex::GenericParam,
    TableIndex::GenericParamConstraint,
    TableIndex::ImplMap,
    TableIndex::InterfaceImpl,
    TableIndex::ManifestResource,
    TableIndex::MemberRef,
    TableIndex::MethodDef,
    TableIndex::MethodImpl,
    TableIndex::MethodSemantics,
    TableIndex::MethodSpec,
    TableIndex::Module,
    TableIndex::ModuleRef,
    TableIndex::NestedClass,
    TableIndex::Param,
    TableIndex::Property,
    TableIndex::PropertyMap,
    TableIndex::StandAloneSig,
    TableIndex::TypeDef,
    TableIndex::TypeRef,
    TableIndex::TypeSpec,
];

/// The header of a table stream with the given heap sizes and one row
/// count for each set bit of `valid`, lowest first.
fn stream(lstreams: u8, valid: u64, counts: &[u32]) -> Vec<u8> {
    let mut b = vec![0, 0, 0, 0, 2, 0, lstreams, 1];
    b.extend_from_slice(&valid.to_le_bytes());
    b.extend_from_slice(&0x1234_5678_9ABC_DEF0u64.to_le_bytes());
    for n in counts {
        b.extend_from_slice(&n.to_le_bytes());
    }
    b
}

fn schema(lstreams: u8, valid: u64, counts: &[u32]) -> Db {
    Db::read(&mut ModuleRead::new(stream(lstreams, valid, counts))).unwrap()
}

fn rows_with(table: TableIndex, n: u32) -> [u32; TABLE_COUNT] {
    let mut rows = [0u32; TABLE_COUNT];
    rows[table.id() as usize] = n;
    rows
}

/// What reading a field from `bytes` gives, and how many bytes it took.
fn field<F: DbRead>(db: DbMeta<'_>, bytes: &[u8]) -> (Result<F, ReadImageError>, u64) {
    let mut data = ModuleRead::new(bytes.to_vec());
    let r = F::read(db, &mut data);
    (r, data.pos().unwrap())
}

#[test]
fn table_identities() {
    assert_eq!(TableIndex::Module.id(), 0);
    assert_eq!(TableIndex::TypeRef.id(), 1);
    assert_eq!(TableIndex::TypeDef.id(), 2);
    assert_eq!(TableIndex::Field.id(), 4);
    assert_eq!(TableIndex::MethodDef.id(), 6);
    assert_eq!(TableIndex::Param.id(), 8);
    assert_eq!(TableIndex::ClassLayout.id(), 0xF);
    assert_eq!(TableIndex::Event.id(), 0x14);
    assert_eq!(TableIndex::Property.id(), 0x17);
    assert_eq!(TableIndex::ModuleRef.id(), 0x1A);
    assert_eq!(TableIndex::TypeSpec.id(), 0x1B);
    assert_eq!(TableIndex::FieldRva.id(), 0x1D);
    assert_eq!(TableIndex::Assembly.id(), 0x20);
    assert_eq!(TableIndex::AssemblyProcessor.id(), 0x21);
    assert_eq!(TableIndex::AssemblyOs.id(), 0x22);
    assert_eq!(TableIndex::AssemblyRef.id(), 0x23);
    assert_eq!(TableIndex::AssemblyRefProcessor.id(), 0x24);
    assert_eq!(TableIndex::AssemblyRefOs.id(), 0x25);
    assert_eq!(TableIndex::GenericParamConstraint.id(), 0x2C);
    let mut seen = [false; TABLE_COUNT];
    for table in ALL_TABLES {
        let id = table.id();
        assert!((id as usize) < TABLE_COUNT);
        assert!(!seen[id as usize]);
        seen[id as usize] = true;
        assert_eq!(TableIndex::from_id(id), Some(table));
    }
    for id in 0..=255u8 {
        let known = (id as usize) < TABLE_COUNT && seen[id as usize];
        assert_eq!(TableIndex::from_id(id).is_some(), known);
    }
    for id in [3u8, 5, 7, 0x13, 0x16, 0x1E, 0x1F, 0x2D, 0xFF] {
        assert_eq!(TableIndex::from_id(id), None);
    }
}

#[test]
fn schema_header() {
    let db = schema(0b101, 0b0100_0111, &[1, 70000, 3, 9]);
    assert_eq!(db.meta().lstreams, 0b101);
    assert_eq!(db.row_count(TableIndex::Module), 1);
    assert_eq!(db.row_count(TableIndex::TypeRef), 70000);
    assert_eq!(db.row_count(TableIndex::TypeDef), 3);
    assert_eq!(db.row_count(TableIndex::Field), 0);
    assert_eq!(db.row_count(TableIndex::MethodDef), 9);
    assert_eq!(db.row_count(TableIndex::Assembly), 0);
    let mut expected = [0u32; TABLE_COUNT];
    expected[0] = 1;
    expected[1] = 70000;
    expected[2] = 3;
    expected[6] = 9;
    assert_eq!(db.meta().rows, &expected[..]);
}

#[test]
fn schema_leaves_the_cursor_at_the_rows() {
    let mut bytes = vec![0xEE; 3];
    bytes.extend_from_slice(&stream(0, 0b11, &[5, 6]));
    bytes.extend_from_slice(&[0xEE; 9]);
    let mut data = ModuleRead::new(bytes);
    data.goto(3).unwrap();
    let db = Db::read(&mut data).unwrap();
    assert_eq!(data.pos(), Ok(3 + 24 + 8));
    assert_eq!(db.row_count(TableIndex::TypeRef), 6);
}

#[test]
fn every_table_may_be_valid() {
    let valid: u64 = (1 << 45) - 1;
    let counts: Vec<u32> = (0..45).map(|i| 100 + i).collect();
    let db = schema(0, valid, &counts);
    for table in ALL_TABLES {
        assert_eq!(db.row_count(table), 100 + table.id() as u32);
    }
    let db = schema(0, 1 << 44, &[7]);
    assert_eq!(db.row_count(TableIndex::GenericParamConstraint), 7);
    assert_eq!(db.row_count(TableIndex::MethodSpec), 0);
}

#[test]
fn tables_beyond_the_identities() {
    for valid in [1u64 << 45, 1 << 46, 1 << 63, u64::MAX, (1 << 45) | 1, 0xFFFF_E000_0000_0000] {
        let r = Db::read(&mut ModuleRead::new(stream(0, valid, &[1; 64])));
        assert_eq!(r, Err(ReadImageError::TableCount(valid)));
        let r = Db::read(&mut ModuleRead::new(stream(0, valid, &[])[..16].to_vec()));
        assert_eq!(r, Err(ReadImageError::TableCount(valid)));
    }
}

#[test]
fn schema_cut_short() {
    let whole = stream(7, 0b1011, &[1, 2, 3]);
    for len in 0..whole.len() {
        let r = Db::read(&mut ModuleRead::new(whole[..len].to_vec()));
        assert_eq!(r, Err(ReadImageError::IO(IoErrorKind::UnexpectedEof)), "at length {}", len);
    }
    // without a valid table nothing is read behind the bitmap of valid tables
    let empty = stream(0, 0, &[]);
    for len in 0..16 {
        assert!(Db::read(&mut ModuleRead::new(empty[..len].to_vec())).is_err());
    }
    for len in 16..=24 {
        let mut data = ModuleRead::new(empty[..len].to_vec());
        assert!(Db::read(&mut data).is_ok());
        assert_eq!(data.pos(), Ok(24));
    }
}

#[test]
fn schema_at_the_end_of_all_positions() {
    let mut data = ModuleRead::new(stream(0, 1, &[1]));
    data.goto(u64::MAX - 3).unwrap();
    assert_eq!(Db::read(&mut data), Err(ReadImageError::IO(IoErrorKind::InvalidInput)));
}

#[test]
fn offsets_add_up() {
    let valid: u64 = (1 << 45) - 1;
    for lstreams in 0..8u8 {
        for base in [0u32, 1, 7, 65535, 65536, u32::MAX] {
            let counts: Vec<u32> = (0..45u32).map(|i| base.wrapping_add(i * 3) | (i & 1)).collect();
            let db = schema(lstreams, valid, &counts);
            let mut by_id: Vec<Option<TableIndex>> = vec![None; TABLE_COUNT];
            for table in ALL_TABLES {
                by_id[table.id() as usize] = Some(table);
            }
            assert_eq!(db.offset(TableIndex::Module), 0);
            // identities without a table here have rows of width zero
            let mut expected: u64 = 0;
            for id in 0..TABLE_COUNT {
                if let Some(table) = by_id[id] {
                    assert_eq!(db.offset(table), expected, "table {:?}", table);
                    expected += db.row_count(table) as u64 * db.row_size(table) as u64;
                }
            }
        }
    }
}

#[test]
fn offsets_of_a_small_schema() {
    // Module 1 row of 10 bytes, TypeRef 2 rows of 6 bytes
    let db = schema(0, 0b111 | (1 << 0x20) | (1 << 0x21) | (1 << 0x22), &[1, 2, 5, 3, 4, 6]);
    assert_eq!(db.row_size(TableIndex::Module), 10);
    assert_eq!(db.row_size(TableIndex::TypeRef), 6);
    assert_eq!(db.row_size(TableIndex::TypeDef), 0);
    assert_eq!(db.row_size(TableIndex::Assembly), 22);
    assert_eq!(db.row_size(TableIndex::AssemblyProcessor), 4);
    assert_eq!(db.row_size(TableIndex::AssemblyOs), 12);
    assert_eq!(db.offset(TableIndex::Module), 0);
    assert_eq!(db.offset(TableIndex::TypeRef), 10);
    assert_eq!(db.offset(TableIndex::TypeDef), 22);
    assert_eq!(db.offset(TableIndex::Field), 22);
    assert_eq!(db.offset(TableIndex::Assembly), 22);
    assert_eq!(db.offset(TableIndex::AssemblyProcessor), 22 + 3 * 22);
    assert_eq!(db.offset(TableIndex::AssemblyOs), 22 + 3 * 22 + 4 * 4);
    assert_eq!(db.offset(TableIndex::AssemblyRef), 22 + 3 * 22 + 4 * 4 + 6 * 12);
    assert_eq!(db.offset(TableIndex::GenericParamConstraint), 22 + 3 * 22 + 4 * 4 + 6 * 12);
}

#[test]
fn offsets_do_not_wrap() {
    let db = schema(7, 0b11 | (1 << 0x20), &[u32::MAX, u32::MAX, u32::MAX]);
    assert_eq!(db.row_size(TableIndex::Module), 18);
    assert_eq!(db.row_size(TableIndex::TypeRef), 12);
    assert_eq!(db.row_size(TableIndex::Assembly), 28);
    assert_eq!(db.offset(TableIndex::TypeRef), 18 * u32::MAX as u64);
    assert_eq!(db.offset(TableIndex::TypeDef), 30 * u32::MAX as u64);
    assert_eq!(db.offset(TableIndex::Assembly), 30 * u32::MAX as u64);
    assert_eq!(db.offset(TableIndex::AssemblyProcessor), 58 * u32::MAX as u64);
    assert!(db.offset(TableIndex::AssemblyProcessor) > u32::MAX as u64);
}

#[test]
fn heap_index_widths() {
    for lstreams in 0..=255u8 {
        let rows = [0u32; TABLE_COUNT];
        let db = DbMeta { lstreams, rows: &rows };
        assert_eq!(StringIndex::size(db), if lstreams & 1 != 0 { 4 } else { 2 });
        assert_eq!(GuidIndex::size(db), if lstreams & 2 != 0 { 4 } else { 2 });
        assert_eq!(BlobIndex::size(db), if lstreams & 4 != 0 { 4 } else { 2 });
    }
}

#[test]
fn heap_indices_take_what_their_width_says() {
    let bytes = [0x11u8, 0x22, 0x33, 0x44, 0x55];
    let rows = [0u32; TABLE_COUNT];
    for lstreams in 0..8u8 {
        let db = DbMeta { lstreams, rows: &rows };
        let (s, taken) = field::<StringIndex>(db, &bytes);
        assert_eq!(taken, StringIndex::size(db) as u64);
        assert_eq!(s, Ok(StringIndex(if lstreams & 1 != 0 { 0x4433_2211 } else { 0x2211 })));
        let (g, taken) = field::<GuidIndex>(db, &bytes);
        assert_eq!(taken, GuidIndex::size(db) as u64);
        assert_eq!(g, Ok(GuidIndex(if lstreams & 2 != 0 { 0x4433_2211 } else { 0x2211 })));
        let (b, taken) = field::<BlobIndex>(db, &bytes);
        assert_eq!(taken, BlobIndex::size(db) as u64);
        assert_eq!(b, Ok(BlobIndex(if lstreams & 4 != 0 { 0x4433_2211 } else { 0x2211 })));
    }
}

#[test]
fn row_index_widths_at_the_boundary() {
    let bytes = [0x11u8, 0x22, 0x33, 0x44, 0x55];
    for (n, wide) in [(0u32, false), (1, false), (65535, false), (65536, true), (u32::MAX, true)] {
        let rows = rows_with(TableIndex::TypeDef, n);
        for lstreams in 0..8u8 {
            let db = DbMeta { lstreams, rows: &rows };
            assert_eq!(RowIndex::<2>::size(db), if wide { 4 } else { 2 });
            let (r, taken) = field::<RowIndex<2>>(db, &bytes);
            assert_eq!(taken, RowIndex::<2>::size(db) as u64);
            assert_eq!(r, Ok(RowIndex(if wide { 0x4433_2211 } else { 0x2211 })));
            // another table does not widen it
            assert_eq!(RowIndex::<1>::size(db), 2);
            assert_eq!(field::<RowIndex<1>>(db, &bytes), (Ok(RowIndex(0x2211)), 2));
        }
    }
}

#[test]
fn a_row_index_into_no_table_is_narrow() {
    let rows = [u32::MAX; TABLE_COUNT];
    let db = DbMeta { lstreams: 0, rows: &rows };
    assert_eq!(RowIndex::<44>::size(db), 4);
    assert_eq!(RowIndex::<45>::size(db), 2);
    assert_eq!(RowIndex::<1000>::size(db), 2);
    let short = [u32::MAX; 3];
    let db = DbMeta { lstreams: 0, rows: &short };
    assert_eq!(RowIndex::<2>::size(db), 4);
    assert_eq!(RowIndex::<3>::size(db), 2);
    assert_eq!(TypeDefOrRef::size(db), 4);
    assert_eq!(HasConstant::size(db), 2);
}

#[test]
fn coded_index_widths_at_the_boundary() {
    let bytes = [0x11u8, 0x22, 0x33, 0x44, 0x55];
    let cases = [(0u32, 2u8), (1, 2), (16383, 2), (16384, 2), (16385, 4), (65535, 4), (65536, 4), (u32::MAX, 4)];
    for (n, width) in cases {
        for table in [TableIndex::TypeDef, TableIndex::TypeRef, TableIndex::TypeSpec] {
            let rows = rows_with(table, n);
            let db = DbMeta { lstreams: 0, rows: &rows };
            assert_eq!(TypeDefOrRef::size(db), width, "{:?} with {} rows", table, n);
            let (_, taken) = field::<TypeDefOrRef>(db, &bytes);
            assert_eq!(taken, width as u64);
            assert_eq!(is_wide_coded(db, 2, &type_def_or_ref()), width == 4);
        }
        for table in [TableIndex::Field, TableIndex::Param, TableIndex::Property] {
            let rows = rows_with(table, n);
            let db = DbMeta { lstreams: 7, rows: &rows };
            assert_eq!(HasConstant::size(db), width);
            assert_eq!(TypeDefOrRef::size(db), 2);
            let (_, taken) = field::<HasConstant>(db, &bytes);
            assert_eq!(taken, width as u64);
            assert_eq!(is_wide_coded(db, 2, &has_constant()), width == 4);
        }
        for table in [TableIndex::Module, TableIndex::ModuleRef, TableIndex::AssemblyRef, TableIndex::TypeRef] {
            let rows = rows_with(table, n);
            let db = DbMeta { lstreams: 0, rows: &rows };
            assert_eq!(ResolutionScope::size(db), width);
            let (_, taken) = field::<ResolutionScope>(db, &bytes);
            assert_eq!(taken, width as u64);
            assert_eq!(is_wide_coded(db, 2, &resolution_scope()), width == 4);
        }
    }
}

#[test]
fn coded_index_width_for_other_tag_widths() {
    let tables = [TableIndex::Field, TableIndex::MethodDef];
    for (bits, limit) in [(1u32, 32768u32), (3, 8192), (5, 2048), (8, 256)] {
        for (n, wide) in [(limit - 1, false), (limit, false), (limit + 1, true)] {
            let rows = rows_with(TableIndex::MethodDef, n);
            let db = DbMeta { lstreams: 0, rows: &rows };
            assert_eq!(is_wide_coded(db, bits, &tables), wide, "{} bits, {} rows", bits, n);
        }
    }
}

#[test]
fn coded_indices_split_into_tag_and_row() {
    let rows = [0u32; TABLE_COUNT];
    let db = DbMeta { lstreams: 0, rows: &rows };
    let read = |v: u16| field::<TypeDefOrRef>(db, &v.to_le_bytes()).0;
    assert_eq!(read(0), Ok(TypeDefOrRef(TableIndex::TypeDef, 0)));
    assert_eq!(read(1), Ok(TypeDefOrRef(TableIndex::TypeRef, 0)));
    assert_eq!(read(2), Ok(TypeDefOrRef(TableIndex::TypeSpec, 0)));
    assert_eq!(read(3), Err(ReadImageError::CodedIndex(3)));
    assert_eq!(read(4), Ok(TypeDefOrRef(TableIndex::TypeDef, 1)));
    assert_eq!(read((0x123 << 2) | 1), Ok(TypeDefOrRef(TableIndex::TypeRef, 0x123)));
    assert_eq!(read(0xFFFE), Ok(TypeDefOrRef(TableIndex::TypeSpec, 0x3FFF)));
    assert_eq!(read(0xFFFF), Err(ReadImageError::CodedIndex(3)));

    let read = |v: u16| field::<HasConstant>(db, &v.to_le_bytes()).0;
    assert_eq!(read(0x10), Ok(HasConstant(TableIndex::Field, 4)));
    assert_eq!(read(0x11), Ok(HasConstant(TableIndex::Param, 4)));
    assert_eq!(read(0x12), Ok(HasConstant(TableIndex::Property, 4)));
    assert_eq!(read(0x13), Err(ReadImageError::CodedIndex(3)));

    let read = |v: u16| field::<ResolutionScope>(db, &v.to_le_bytes()).0;
    assert_eq!(read(0x20), Ok(ResolutionScope(TableIndex::Module, 8)));
    assert_eq!(read(0x21), Ok(ResolutionScope(TableIndex::ModuleRef, 8)));
    assert_eq!(read(0x22), Ok(ResolutionScope(TableIndex::AssemblyRef, 8)));
    assert_eq!(read(0x23), Ok(ResolutionScope(TableIndex::TypeRef, 8)));

    let rows = rows_with(TableIndex::TypeSpec, 16385);
    let db = DbMeta { lstreams: 0, rows: &rows };
    let (r, taken) = field::<TypeDefOrRef>(db, &0xFFFF_FFFEu32.to_le_bytes());
    assert_eq!((r, taken), (Ok(TypeDefOrRef(TableIndex::TypeSpec, 0x3FFF_FFFF)), 4));
    let (r, taken) = field::<TypeDefOrRef>(db, &0x8000_0007u32.to_le_bytes());
    assert_eq!((r, taken), (Err(ReadImageError::CodedIndex(3)), 4));
}

#[test]
fn splitting_with_other_tag_widths() {
    let tables = [TableIndex::Field, TableIndex::MethodDef, TableIndex::Param];
    assert_eq!(split_coded(0b1011_0, 1, &tables[..2]), Ok((TableIndex::Field, 0b1011)));
    assert_eq!(split_coded(0b1011_1, 1, &tables[..2]), Ok((TableIndex::MethodDef, 0b1011)));
    assert_eq!(split_coded(0b1_010, 3, &tables), Ok((TableIndex::Param, 1)));
    assert_eq!(split_coded(0b1_111, 3, &tables), Err(ReadImageError::CodedIndex(7)));
    assert_eq!(split_coded(0xABCD_12FF, 8, &tables), Err(ReadImageError::CodedIndex(0xFF)));
    assert_eq!(split_coded(0xABCD_1201, 8, &tables), Ok((TableIndex::MethodDef, 0xAB_CD12)));
    assert_eq!(split_coded(5, 2, &[]), Err(ReadImageError::CodedIndex(1)));
}

#[test]
fn indices_of_either_width() {
    let mut data = ModuleRead::new(vec![1, 2, 3, 4, 5, 6, 7]);
    assert_eq!(read_index(false, &mut data), Ok(0x0201));
    assert_eq!(read_index(true, &mut data), Ok(0x0605_0403));
    assert_eq!(read_index(true, &mut data), Err(IoErrorKind::UnexpectedEof));
    assert_eq!(data.pos(), Ok(6));
    assert_eq!(read_index(false, &mut data), Err(IoErrorKind::UnexpectedEof));
}

#[test]
fn plain_fields() {
    let rows = [0u32; TABLE_COUNT];
    let db = DbMeta { lstreams: 7, rows: &rows };
    let bytes = [1u8, 2, 3, 4, 5, 6, 7, 8, 9];
    assert_eq!((u8::size(db), u16::size(db), u32::size(db), u64::size(db)), (1, 2, 4, 8));
    assert_eq!(field::<u8>(db, &bytes), (Ok(1), 1));
    assert_eq!(field::<u16>(db, &bytes), (Ok(0x0201), 2));
    assert_eq!(field::<u32>(db, &bytes), (Ok(0x0403_0201), 4));
    assert_eq!(field::<u64>(db, &bytes), (Ok(0x0807_0605_0403_0201), 8));
    let eof = Err(ReadImageError::IO(IoErrorKind::UnexpectedEof));
    assert_eq!(field::<u64>(db, &bytes[..7]), (eof.clone(), 0));
    assert_eq!(field::<u32>(db, &bytes[..3]), (Err(ReadImageError::IO(IoErrorKind::UnexpectedEof)), 0));
    assert_eq!(field::<StringIndex>(db, &bytes[..3]).1, 0);
    assert_eq!(field::<TypeDefOrRef>(db, &bytes[..1]), (Err(ReadImageError::IO(IoErrorKind::UnexpectedEof)), 0));
    assert!(eof.is_err());
}

#[test]
fn assembly_flags() {
    assert_eq!(ALL_ASSEMBLY_FLAGS, PUBLIC_KEY | RETARGETABLE | DISABLE_JIT_COMPILE_OPTIMIZER | ENABLE_JIT_COMPILE_TRACKING);
    assert_eq!((PUBLIC_KEY, RETARGETABLE), (0x1, 0x100));
    assert_eq!((DISABLE_JIT_COMPILE_OPTIMIZER, ENABLE_JIT_COMPILE_TRACKING), (0x4000, 0x8000));
    for bits in [0u32, 1, 0x100, 0x101, 0x4000, 0x8000, 0xC000, 0xC101] {
        let flags = AssemblyFlags::from_bits(bits).unwrap();
        assert_eq!(flags.bits(), bits);
        assert_eq!(flags.contains(PUBLIC_KEY), bits & 1 != 0);
        assert_eq!(flags.contains(RETARGETABLE), bits & 0x100 != 0);
        assert_eq!(flags.contains(PUBLIC_KEY | RETARGETABLE), bits & 0x101 == 0x101);
        assert!(flags.contains(0));
    }
    for bits in [2u32, 0x10, 0x102, 0x1_0000, 0x8000_0000, 0xFFFF_FFFF, 0xC103, 0x2000] {
        assert_eq!(AssemblyFlags::from_bits(bits), None);
    }
    let rows = [0u32; TABLE_COUNT];
    let db = DbMeta { lstreams: 0, rows: &rows };
    assert_eq!(AssemblyFlags::size(db), 4);
    assert_eq!(field::<AssemblyFlags>(db, &[1, 0x81, 0, 0]), (Ok(AssemblyFlags::from_bits(0x8101).unwrap()), 4));
    assert_eq!(field::<AssemblyFlags>(db, &[2, 0, 0, 0]), (Err(ReadImageError::IO(IoErrorKind::InvalidData)), 4));
}

#[test]
fn hash_algorithms() {
    assert_eq!(AssemblyHashAlgorithm::from_value(0), Some(AssemblyHashAlgorithm::NoHash));
    assert_eq!(AssemblyHashAlgorithm::from_value(0x8003), Some(AssemblyHashAlgorithm::MD5));
    assert_eq!(AssemblyHashAlgorithm::from_value(0x8004), Some(AssemblyHashAlgorithm::SHA1));
    for v in [1u32, 0x8002, 0x8005, 0x800C, u32::MAX] {
        assert_eq!(AssemblyHashAlgorithm::from_value(v), None);
    }
    assert_eq!(AssemblyHashAlgorithm::NoHash.value(), 0);
    assert_eq!(AssemblyHashAlgorithm::MD5.value(), 0x8003);
    assert_eq!(AssemblyHashAlgorithm::SHA1.value(), 0x8004);
    let rows = [0u32; TABLE_COUNT];
    let db = DbMeta { lstreams: 0, rows: &rows };
    assert_eq!(AssemblyHashAlgorithm::size(db), 4);
    assert_eq!(field::<AssemblyHashAlgorithm>(db, &[4, 0x80, 0, 0]), (Ok(AssemblyHashAlgorithm::SHA1), 4));
    assert_eq!(
        field::<AssemblyHashAlgorithm>(db, &[5, 0x80, 0, 0]),
        (Err(ReadImageError::IO(IoErrorKind::Other)), 4)
    );
}

#[test]
fn row_widths_are_the_sums_of_their_fields() {
    for lstreams in 0..8u8 {
        for n in [0u32, 16384, 16385, 65535, 65536] {
            let rows = [n; TABLE_COUNT];
            let db = DbMeta { lstreams, rows: &rows };
            let s = StringIndex::size(db);
            let g = GuidIndex::size(db);
            let b = BlobIndex::size(db);
            assert_eq!(Module::row_size(db), 2 + s + 3 * g);
            assert_eq!(TypeRef::row_size(db), ResolutionScope::size(db) + 2 * s);
            assert_eq!(Assembly::row_size(db), 4 + 4 * 2 + 4 + b + 2 * s);
            assert_eq!(AssemblyOs::row_size(db), 12);
            assert_eq!(AssemblyProcessor::row_size(db), 4);
        }
    }
    assert_eq!(Module::table(), TableIndex::Module);
    assert_eq!(TypeRef::table(), TableIndex::TypeRef);
    assert_eq!(Assembly::table(), TableIndex::Assembly);
    assert_eq!(AssemblyOs::table(), TableIndex::AssemblyOs);
    assert_eq!(AssemblyProcessor::table(), TableIndex::AssemblyProcessor);
}

#[test]
fn the_schema_keeps_the_widths_of_the_rows() {
    for lstreams in 0..8u8 {
        for n in [0u32, 16384, 16385, 65535, 65536] {
            let db = schema(lstreams, (1 << 45) - 1, &[n; 45]);
            assert_eq!(db.row_size(TableIndex::Module), Module::row_size(db.meta()));
            assert_eq!(db.row_size(TableIndex::TypeRef), TypeRef::row_size(db.meta()));
            assert_eq!(db.row_size(TableIndex::Assembly), Assembly::row_size(db.meta()));
            assert_eq!(db.row_size(TableIndex::AssemblyOs), AssemblyOs::row_size(db.meta()));
            assert_eq!(db.row_size(TableIndex::AssemblyProcessor), AssemblyProcessor::row_size(db.meta()));
            assert_eq!(db.row_size(TableIndex::TypeDef), 0);
        }
    }
}

#[test]
fn rows_take_what_their_width_says() {
    let bytes: Vec<u8> = (1..=40).collect();
    for lstreams in 0..8u8 {
        for n in [0u32, 65535, 65536] {
            let rows = [n; TABLE_COUNT];
            let db = DbMeta { lstreams, rows: &rows };
            let mut data = ModuleRead::new(bytes.clone());
            let module = Module::row(db, &mut data).unwrap();
            assert_eq!(data.pos(), Ok(Module::row_size(db) as u64));
            assert_eq!(module.generation, 0x0201);
            assert_eq!(module.name, StringIndex(if lstreams & 1 != 0 { 0x0605_0403 } else { 0x0403 }));
            let mut data = ModuleRead::new(bytes.clone());
            TypeRef::row(db, &mut data).unwrap();
            assert_eq!(data.pos(), Ok(TypeRef::row_size(db) as u64));
            let mut data = ModuleRead::new(bytes.clone());
            AssemblyOs::row(db, &mut data).unwrap();
            assert_eq!(data.pos(), Ok(12));
        }
    }
}

#[test]
fn a_whole_assembly_row() {
    let rows = [0u32; TABLE_COUNT];
    let db = DbMeta { lstreams: 0b100, rows: &rows };
    let mut bytes = Vec::new();
    bytes.extend_from_slice(&0x8004u32.to_le_bytes());
    for v in [4u16, 0, 30319, 1] {
        bytes.extend_from_slice(&v.to_le_bytes());
    }
    bytes.extend_from_slice(&0x101u32.to_le_bytes());
    bytes.extend_from_slice(&0x0001_0002u32.to_le_bytes());
    bytes.extend_from_slice(&0x10u16.to_le_bytes());
    bytes.extend_from_slice(&0x20u16.to_le_bytes());
    let mut data = ModuleRead::new(bytes.clone());
    assert_eq!(
        Assembly::row(db, &mut data),
        Ok(Assembly {
            hash_alg_id: AssemblyHashAlgorithm::SHA1,
            major_version: 4,
            minor_version: 0,
            build_number: 30319,
            revision_number: 1,
            flags: AssemblyFlags::from_bits(0x101).unwrap(),
            public_key: BlobIndex(0x0001_0002),
            name: StringIndex(0x10),
            culture: StringIndex(0x20),
        })
    );
    assert_eq!(data.pos(), Ok(24));
    assert_eq!(Assembly::row_size(db), 24);

    // the first field that is refused decides, whatever comes behind it
    bytes[0] = 9;
    bytes[12] = 2;
    assert_eq!(Assembly::row(db, &mut ModuleRead::new(bytes.clone())), Err(ReadImageError::IO(IoErrorKind::Other)));
    assert_eq!(Assembly::row(db, &mut ModuleRead::new(bytes[..3].to_vec())), Err(ReadImageError::IO(IoErrorKind::UnexpectedEof)));
    assert_eq!(Assembly::row(db, &mut ModuleRead::new(bytes[..4].to_vec())), Err(ReadImageError::IO(IoErrorKind::Other)));
    bytes[0] = 4;
    assert_eq!(Assembly::row(db, &mut ModuleRead::new(bytes.clone())), Err(ReadImageError::IO(IoErrorKind::InvalidData)));
    assert_eq!(Assembly::row(db, &mut ModuleRead::new(bytes[..15].to_vec())), Err(ReadImageError::IO(IoErrorKind::UnexpectedEof)));
    bytes[12] = 1;
    for len in 0..24 {
        assert_eq!(
            Assembly::row(db, &mut ModuleRead::new(bytes[..len].to_vec())),
            Err(ReadImageError::IO(IoErrorKind::UnexpectedEof))
        );
    }
}

#[test]
fn small_rows() {
    let rows = [0u32; TABLE_COUNT];
    let db = DbMeta { lstreams: 0, rows: &rows };
    let bytes: Vec<u8> = (1..=12).collect();
    assert_eq!(
        AssemblyOs::row(db, &mut ModuleRead::new(bytes.clone())),
        Ok(AssemblyOs { os_platform_id: 0x0403_0201, os_major_version: 0x0807_0605, os_minor_version: 0x0C0B_0A09 })
    );
    assert_eq!(
        AssemblyProcessor::row(db, &mut ModuleRead::new(bytes)),
        Ok(AssemblyProcessor { processor: 0x0403_0201 })
    );
}

#[test]
fn rows_of_a_table_by_index() {
    let db = schema(0, 0b11, &[2, 3]);
    let mut bytes = vec![0xEE; 5];
    for row in 0..2u16 {
        for field in 0..5u16 {
            bytes.extend_from_slice(&(0x100 * (row + 1) + field).to_le_bytes());
        }
    }
    for row in 0..3u16 {
        bytes.extend_from_slice(&((row + 1) << 2 | 3).to_le_bytes());
        bytes.extend_from_slice(&(0x1000 + row).to_le_bytes());
        bytes.extend_from_slice(&(0x2000 + row).to_le_bytes());
    }
    let mut data = ModuleRead::new(bytes);
    for row in (0..3u32).rev() {
        assert_eq!(
            db.row::<TypeRef>(&mut data, 5, row),
            Ok(Some(TypeRef {
                resolution_scope: ResolutionScope(TableIndex::TypeRef, row + 1),
                name: StringIndex(0x1000 + row),
                type_namespace: StringIndex(0x2000 + row),
            }))
        );
        assert_eq!(data.pos(), Ok(5 + 20 + 6 * (row as u64 + 1)));
    }
    for row in 0..2u32 {
        let module = db.row::<Module>(&mut data, 5, row).unwrap().unwrap();
        assert_eq!(module.generation, 0x100 * (row as u16 + 1));
        assert_eq!(module.enc_base_id, GuidIndex(0x100 * (row + 1) + 4));
    }
}

#[test]
fn an_index_beyond_the_rows_is_no_failure() {
    let db = schema(0, 0b11, &[2, 65536]);
    let mut data = ModuleRead::new(vec![]);
    data.goto(3).unwrap();
    for row in [2u32, 3, 1000, u32::MAX] {
        assert_eq!(db.row::<Module>(&mut data, 0, row), Ok(None));
        assert_eq!(db.row::<Module>(&mut data, u64::MAX, row), Ok(None));
    }
    for row in [65536u32, 65537, u32::MAX] {
        assert_eq!(db.row::<TypeRef>(&mut data, 0, row), Ok(None));
    }
    for row in [0u32, 1, u32::MAX] {
        assert_eq!(db.row::<Assembly>(&mut data, 0, row), Ok(None));
        assert_eq!(db.row::<AssemblyOs>(&mut data, 0, row), Ok(None));
        assert_eq!(db.row::<AssemblyProcessor>(&mut data, 0, row), Ok(None));
    }
    // nothing moved
    assert_eq!(data.pos(), Ok(3));
    // a row that should be there and is not is a failure
    assert_eq!(db.row::<Module>(&mut data, 0, 1), Err(ReadImageError::IO(IoErrorKind::UnexpectedEof)));
    assert_eq!(db.row::<TypeRef>(&mut data, 0, 65535), Err(ReadImageError::IO(IoErrorKind::UnexpectedEof)));
}

#[test]
fn a_row_beyond_all_positions() {
    let db = schema(0, 0b11, &[2, 3]);
    let mut data = ModuleRead::new(vec![0; 64]);
    assert_eq!(db.row::<TypeRef>(&mut data, u64::MAX - 19, 0), Err(ReadImageError::IO(IoErrorKind::InvalidInput)));
    assert_eq!(db.row::<TypeRef>(&mut data, u64::MAX - 20, 0), Err(ReadImageError::IO(IoErrorKind::UnexpectedEof)));
    assert_eq!(db.row::<TypeRef>(&mut data, u64::MAX - 26, 1), Err(ReadImageError::IO(IoErrorKind::UnexpectedEof)));
    assert_eq!(db.row::<TypeRef>(&mut data, u64::MAX - 25, 1), Err(ReadImageError::IO(IoErrorKind::InvalidInput)));
    assert_eq!(db.row::<Module>(&mut data, u64::MAX, 0), Err(ReadImageError::IO(IoErrorKind::UnexpectedEof)));
    assert_eq!(db.row::<Module>(&mut data, u64::MAX, 1), Err(ReadImageError::IO(IoErrorKind::InvalidInput)));
    assert_eq!(db.row::<Module>(&mut data, 54, 0).unwrap().unwrap().generation, 0);
    assert_eq!(db.row::<Module>(&mut data, 55, 0), Err(ReadImageError::IO(IoErrorKind::UnexpectedEof)));
}
