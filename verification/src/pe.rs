//! The PE/COFF container of an image: the COFF header, the optional header
//! in its 32-bit or 64-bit layout, the sixteen data directories and the
//! section table, and the mapping of virtual addresses to file offsets.

use crate::bytes::u16_at;
use crate::bytes::u16_in;
use crate::bytes::u32_at;
use crate::bytes::u32_in;
use crate::bytes::u64_at;
use crate::bytes::u64_in;
use crate::error::plain;
use crate::error::viewed;
use crate::error::IoErrorKind;
use crate::error::ReadImageError;
use crate::error::ReadImageErrorView;
use crate::error::ReadImageResult;
use crate::reader::io;
use crate::reader::ModuleRead;
use crate::text::section_list;
use crate::text::section_name_bytes;
use crate::text::sections_new;
use crate::text::sections_push;
use arrayvec::ArrayString;
use arrayvec::ArrayVec;
use vstd::prelude::*;
use vstd::utf8::valid_utf8;

verus! {

/// The most sections that an image may declare.
pub const MAX_SECTIONS: u16 = 16;

/// The number of data directories that an image must declare.
pub const DATA_DIRECTORIES: u32 = 16;

/// The value of `Magic` that selects the 32-bit layout of the optional header.
pub const MAGIC_PE32: u16 = 0x10B;

/// The value of `Magic` that selects the 64-bit layout of the optional header.
pub const MAGIC_PE32_PLUS: u16 = 0x20B;

/// Where the pointer to the PE header lies in the file.
pub const PE_POINTER_OFFSET: u64 = 0x3C;

/// The four bytes that open a PE header: `PE`, then two zero bytes.
pub const PE_SIGNATURE: [u8; 4] = [0x50, 0x45, 0, 0];

/// The headers of the PE/COFF container.
#[derive(Clone, Debug, PartialEq, Eq, Hash)]
pub struct ImageHeader {
    pub coff: Coff,
    pub opt: Optional,
    pub sections: ArrayVec<Section, 16>,
}

/// The COFF file header.
#[derive(Clone, Copy, Debug, PartialEq, Eq, Hash)]
pub struct Coff {
    pub machine: u16,
    pub number_of_sections: u16,
    pub time_date_stamp: u32,
    pub pointer_to_symbol_table: u32,
    pub number_of_symbols: u32,
    pub size_of_optional_header: u16,
    pub characteristics: u16,
}

/// The optional header, in either layout, with the data directories that
/// are in use.
#[derive(Clone, Copy, Debug, PartialEq, Eq, Hash)]
pub struct Optional {
    // Standard fields
    pub major_linker_version: u8,
    pub minor_linker_version: u8,
    pub size_of_code: u32,
    pub size_of_initialized_data: u32,
    pub size_of_uninitialized_data: u32,
    pub address_of_entry_point: u32,
    pub base_of_code: u32,
    /// Present in the 32-bit layout only.
    pub base_of_data: Option<u32>,
    // Windows-specific fields
    pub image_base: u64,
    pub section_alignment: u32,
    pub file_alignment: u32,
    pub major_operating_system_version: u16,
    pub minor_operating_system_version: u16,
    pub major_image_version: u16,
    pub minor_image_version: u16,
    pub major_subsystem_version: u16,
    pub minor_subsystem_version: u16,
    pub size_of_image: u32,
    pub size_of_headers: u32,
    pub subsystem: u16,
    pub dll_characteristics: u16,
    pub size_of_stack_reserve: u64,
    pub size_of_stack_commit: u64,
    pub size_of_heap_reserve: u64,
    pub size_of_heap_commit: u64,
    pub num_data_dirs: u32,
    // Data directories
    pub export: DataDirectory,
    pub import: DataDirectory,
    pub resource: DataDirectory,
    pub exception: DataDirectory,
    pub certificate: DataDirectory,
    pub base_relocation: DataDirectory,
    pub debug: DataDirectory,
    pub global_ptr: DataDirectory,
    pub tls: DataDirectory,
    pub load_config: DataDirectory,
    pub bound_import: DataDirectory,
    pub iat: DataDirectory,
    pub delay_import_descriptor: DataDirectory,
    pub clr_runtime_header: DataDirectory,
}

/// Where a part of the image lies in memory, and how long it is.
#[derive(Clone, Copy, Debug, PartialEq, Eq, Hash)]
pub struct DataDirectory {
    pub rva: u32,
    pub size: u32,
}

/// One row of the section table.
#[derive(Clone, Copy, Debug, PartialEq, Eq, Hash)]
pub struct Section {
    pub name: ArrayString<8>,
    pub virtual_size: u32,
    pub virtual_addr: u32,
    pub size_of_raw_data: u32,
    pub pointer_to_raw_data: u32,
    pub characteristics: u32,
}

/// A section as a plain value: its name is the eight bytes it holds.
pub struct SectionView {
    pub name: Seq<u8>,
    pub virtual_size: u32,
    pub virtual_addr: u32,
    pub size_of_raw_data: u32,
    pub pointer_to_raw_data: u32,
    pub characteristics: u32,
}

/// An image header as a plain value.
pub struct ImageHeaderView {
    pub coff: Coff,
    pub opt: Optional,
    pub sections: Seq<SectionView>,
}

impl View for Section {
    type V = SectionView;

    open spec fn view(&self) -> SectionView {
        SectionView {
            name: section_name_bytes(self.name),
            virtual_size: self.virtual_size,
            virtual_addr: self.virtual_addr,
            size_of_raw_data: self.size_of_raw_data,
            pointer_to_raw_data: self.pointer_to_raw_data,
            characteristics: self.characteristics,
        }
    }
}

/// The sections of a list, each as a plain value.
pub open spec fn section_views(sections: Seq<Section>) -> Seq<SectionView> {
    Seq::new(sections.len(), |i: int| sections[i]@)
}

impl View for ImageHeader {
    type V = ImageHeaderView;

    open spec fn view(&self) -> ImageHeaderView {
        ImageHeaderView {
            coff: self.coff,
            opt: self.opt,
            sections: section_views(section_list(self.sections)),
        }
    }
}

impl SectionView {
    /// Whether `rva` lies in the range of addresses that the section covers.
    pub open spec fn contains(self, rva: u32) -> bool {
        self.virtual_addr <= rva < self.virtual_addr + self.virtual_size
    }

    /// The file offset of `rva`, for an `rva` that the section contains.
    pub open spec fn offset_of(self, rva: u32) -> int {
        rva - self.virtual_addr + self.pointer_to_raw_data
    }
}

/// The index of the first section at or after `from` that contains `rva`.
pub open spec fn first_section_from(sections: Seq<SectionView>, rva: u32, from: int) -> Option<int>
    decreases sections.len() - from,
{
    if from < 0 || from >= sections.len() {
        None
    } else if sections[from].contains(rva) {
        Some(from)
    } else {
        first_section_from(sections, rva, from + 1)
    }
}

/// The index of the first section, in declared order, that contains `rva`.
pub open spec fn first_section(sections: Seq<SectionView>, rva: u32) -> Option<int> {
    first_section_from(sections, rva, 0)
}

/// The file offset that `rva` maps to: that of the first section that
/// contains it.
pub open spec fn resolve_rva(sections: Seq<SectionView>, rva: u32) -> Option<u64> {
    match first_section(sections, rva) {
        Some(i) => Some(sections[i].offset_of(rva) as u64),
        None => None,
    }
}

/// What `first_section_from` finds is the least index that contains `rva`,
/// and it finds nothing only where no section does.
pub proof fn lemma_first_section(sections: Seq<SectionView>, rva: u32, from: int)
    requires
        0 <= from,
    ensures
        match first_section_from(sections, rva, from) {
            Some(i) => from <= i < sections.len() && sections[i].contains(rva) && forall|j: int|
                from <= j < i ==> !sections[j].contains(rva),
            None => forall|j: int| from <= j < sections.len() ==> !sections[j].contains(rva),
        },
    decreases sections.len() - from,
{
    if from < sections.len() && !sections[from].contains(rva) {
        lemma_first_section(sections, rva, from + 1);
    }
}

/// The first section in declared order whose range of addresses contains
/// `rva`, if there is one.
pub fn section_from(sections: &[Section], rva: u32) -> (r: Option<&Section>)
    ensures
        match first_section(section_views(sections@), rva) {
            Some(i) => r == Some(&sections@[i]),
            None => r is None,
        },
{
    let ghost views = section_views(sections@);
    let mut i: usize = 0;
    while i < sections.len()
        invariant
            i <= sections@.len(),
            views == section_views(sections@),
            first_section(views, rva) == first_section_from(views, rva, i as int),
        decreases sections@.len() - i,
    {
        let s = &sections[i];
        if rva >= s.virtual_addr && rva - s.virtual_addr < s.virtual_size {
            return Some(s);
        }
        i += 1;
    }
    None
}

/// The file offset of `rva`: that of the first section that contains it.
/// `None` says that no section contains it, which is no failure here.
pub fn offset_from(sections: &[Section], rva: u32) -> (r: Option<u64>)
    ensures
        r == resolve_rva(section_views(sections@), rva),
{
    proof {
        lemma_first_section(section_views(sections@), rva, 0);
    }
    match section_from(sections, rva) {
        Some(s) => Some((rva - s.virtual_addr) as u64 + s.pointer_to_raw_data as u64),
        None => None,
    }
}

/// The data directory whose first byte is `b[at]`.
pub open spec fn data_dir_at(b: Seq<u8>, at: int) -> DataDirectory {
    DataDirectory { rva: u32_at(b, at), size: u32_at(b, at + 4) }
}

/// The width in bytes of the fields that the two layouts of the optional
/// header size differently.
pub open spec fn word_size(pe64: bool) -> int {
    if pe64 {
        8
    } else {
        4
    }
}

/// The field of that width whose first byte is `b[at]`.
pub open spec fn word_at(b: Seq<u8>, at: int, pe64: bool) -> u64 {
    if pe64 {
        u64_at(b, at)
    } else {
        u32_at(b, at) as u64
    }
}

/// The COFF header whose first byte is `b[at]`. It takes 20 bytes.
pub open spec fn coff_at(b: Seq<u8>, at: int) -> Coff {
    Coff {
        machine: u16_at(b, at),
        number_of_sections: u16_at(b, at + 2),
        time_date_stamp: u32_at(b, at + 4),
        pointer_to_symbol_table: u32_at(b, at + 8),
        number_of_symbols: u32_at(b, at + 12),
        size_of_optional_header: u16_at(b, at + 16),
        characteristics: u16_at(b, at + 18),
    }
}

/// Where `NumberOfRvaAndSizes` lies in an optional header whose first byte
/// after `Magic` is at `o`.
pub open spec fn directory_count_offset(o: int, pe64: bool) -> int {
    o + 74 + 4 * word_size(pe64)
}

/// Where the first of the data directories lies.
pub open spec fn directories_offset(o: int, pe64: bool) -> int {
    directory_count_offset(o, pe64) + 4
}

/// Where the section table lies: behind the sixteen data directories.
pub open spec fn section_table_offset(o: int, pe64: bool) -> int {
    directories_offset(o, pe64) + 128
}

/// What the bytes from `o` give as an optional header: the header, or why
/// they are refused. The count of data directories is held to sixteen
/// before any directory is read. The header needs the bytes up to the end
/// of the CLR runtime header directory; the reserved directory behind it
/// need not be there.
///
/// Opaque to proofs until it is revealed.
#[verifier::opaque]
pub open spec fn parse_optional(b: Seq<u8>, o: int, pe64: bool) -> Result<
    Optional,
    ReadImageErrorView,
> {
    if b.len() < directories_offset(o, pe64) {
        Err(ReadImageErrorView::IO(IoErrorKind::UnexpectedEof))
    } else if u32_at(b, directory_count_offset(o, pe64)) != DATA_DIRECTORIES {
        Err(ReadImageErrorView::DataDirectories(u32_at(b, directory_count_offset(o, pe64))))
    } else if b.len() < directories_offset(o, pe64) + 120 {
        Err(ReadImageErrorView::IO(IoErrorKind::UnexpectedEof))
    } else {
        Ok(optional_at(b, o, pe64))
    }
}

/// The row of the section table whose first byte is `b[at]`. It takes 40
/// bytes, of which the twelve before the characteristics are passed over.
pub open spec fn section_at(b: Seq<u8>, at: int) -> SectionView {
    SectionView {
        name: b.subrange(at, at + 8),
        virtual_size: u32_at(b, at + 8),
        virtual_addr: u32_at(b, at + 12),
        size_of_raw_data: u32_at(b, at + 16),
        pointer_to_raw_data: u32_at(b, at + 20),
        characteristics: u32_at(b, at + 36),
    }
}

/// What the bytes from `at` give as a row of the section table.
pub open spec fn parse_section(b: Seq<u8>, at: int) -> Result<SectionView, ReadImageErrorView> {
    if b.len() < at + 8 {
        Err(ReadImageErrorView::IO(IoErrorKind::UnexpectedEof))
    } else if !valid_utf8(b.subrange(at, at + 8)) {
        Err(ReadImageErrorView::IO(IoErrorKind::InvalidData))
    } else if b.len() < at + 40 {
        Err(ReadImageErrorView::IO(IoErrorKind::UnexpectedEof))
    } else {
        Ok(section_at(b, at))
    }
}

/// What the bytes from `at` give as a section table of `n` rows: the rows in
/// their order, or the failure of the first row that is refused.
///
/// Opaque to proofs until it is revealed.
#[verifier::opaque]
pub open spec fn parse_sections(b: Seq<u8>, at: int, n: int) -> Result<
    Seq<SectionView>,
    ReadImageErrorView,
>
    decreases n,
{
    if n <= 0 {
        Ok(Seq::empty())
    } else {
        match parse_sections(b, at, n - 1) {
            Err(e) => Err(e),
            Ok(rows) => match parse_section(b, at + 40 * (n - 1)) {
                Err(e) => Err(e),
                Ok(row) => Ok(rows.push(row)),
            },
        }
    }
}

/// What the bytes of a file give as an image header: the header, or the
/// first reason, in the order of the file, for which they are refused.
pub open spec fn parse_image_header(b: Seq<u8>) -> Result<ImageHeaderView, ReadImageErrorView> {
    let p = u32_at(b, PE_POINTER_OFFSET as int) as int;
    let magic = u16_at(b, p + 24);
    let pe64 = magic == MAGIC_PE32_PLUS;
    let coff = coff_at(b, p + 4);
    if b.len() < PE_POINTER_OFFSET + 4 || b.len() < p + 4 {
        Err(ReadImageErrorView::IO(IoErrorKind::UnexpectedEof))
    } else if b.subrange(p, p + 4) != PE_SIGNATURE@ {
        Err(ReadImageErrorView::PeSignature(b.subrange(p, p + 4)))
    } else if b.len() < p + 26 {
        Err(ReadImageErrorView::IO(IoErrorKind::UnexpectedEof))
    } else if magic != MAGIC_PE32 && magic != MAGIC_PE32_PLUS {
        Err(ReadImageErrorView::Magic(magic))
    } else {
        match parse_optional(b, p + 26, pe64) {
            Err(e) => Err(e),
            Ok(opt) => if coff.number_of_sections > MAX_SECTIONS {
                Err(ReadImageErrorView::SectionCount(coff.number_of_sections))
            } else {
                match parse_sections(
                    b,
                    section_table_offset(p + 26, pe64),
                    coff.number_of_sections as int,
                ) {
                    Err(e) => Err(e),
                    Ok(sections) => Ok(ImageHeaderView { coff, opt, sections }),
                }
            },
        }
    }
}

/// Where an image header that was read ends: behind its section table.
pub open spec fn image_header_end(b: Seq<u8>) -> int {
    let p = u32_at(b, PE_POINTER_OFFSET as int) as int;
    section_table_offset(p + 26, u16_at(b, p + 24) == MAGIC_PE32_PLUS) + 40 * (u16_at(
        b,
        p + 6,
    ) as int)
}

/// A section table that is refused at one length is refused, for the same
/// reason, at every greater length.
pub proof fn lemma_sections_refused(b: Seq<u8>, at: int, k: int, n: int)
    requires
        0 <= k <= n,
        parse_sections(b, at, k) is Err,
    ensures
        parse_sections(b, at, n) == parse_sections(b, at, k),
    decreases n - k,
{
    reveal_with_fuel(parse_sections, 2);
    if k < n {
        lemma_sections_refused(b, at, k, n - 1);
    }
}

impl Coff {
    /// Reads the 20 bytes of a COFF header. Where fewer are left, none is
    /// taken.
    pub fn read(data: &mut ModuleRead) -> (r: Result<Coff, IoErrorKind>)
        ensures
            final(data).bytes() == old(data).bytes(),
            old(data).has(20) ==> r == Ok::<Coff, IoErrorKind>(
                coff_at(old(data).bytes(), old(data).position()),
            ) && final(data).position() == old(data).position() + 20,
            !old(data).has(20) ==> r == Err::<Coff, IoErrorKind>(IoErrorKind::UnexpectedEof)
                && final(data).position() == old(data).position(),
    {
        let bytes: [u8; 20] = data.read_bytes::<20>()?;
        let b: &[u8] = bytes.as_slice();
        Ok(
            Coff {
                machine: u16_in(b, 0),
                number_of_sections: u16_in(b, 2),
                time_date_stamp: u32_in(b, 4),
                pointer_to_symbol_table: u32_in(b, 8),
                number_of_symbols: u32_in(b, 12),
                size_of_optional_header: u16_in(b, 16),
                characteristics: u16_in(b, 18),
            },
        )
    }
}

/// The field at `at` in `b` that the 32-bit layout holds in four bytes and
/// the 64-bit layout in eight.
fn word_in(b: &[u8], at: usize, pe64: bool) -> (v: u64)
    requires
        at + word_size(pe64) <= b@.len(),
    ensures
        v == word_at(b@, at as int, pe64),
{
    if pe64 {
        u64_in(b, at)
    } else {
        u32_in(b, at) as u64
    }
}

/// The data directory at `at` in `b`.
fn data_dir_in(b: &[u8], at: usize) -> (dir: DataDirectory)
    requires
        at + 8 <= b@.len(),
    ensures
        dir == data_dir_at(b@, at as int),
{
    assert(b@.len() == b.len());
    let rva: u32 = u32_in(b, at);
    let size: u32 = u32_in(b, at + 4);
    DataDirectory { rva, size }
}

/// Reads the optional header behind its `Magic`, which chose `pe64`: the
/// fields up to the count of data directories in one piece, and, where
/// the count is sixteen, the directories up to that of the CLR runtime
/// header in another.
fn read_optional(data: &mut ModuleRead, pe64: bool) -> (r: ReadImageResult<Optional>)
    requires
        old(data).position() + 256 <= u64::MAX,
    ensures
        final(data).bytes() == old(data).bytes(),
        plain(r) == parse_optional(old(data).bytes(), old(data).position(), pe64),
        r is Ok ==> final(data).position() == section_table_offset(old(data).position(), pe64),
{
    reveal(parse_optional);
    let w: usize = if pe64 {
        8
    } else {
        4
    };
    let fields: Vec<u8> = io(data.read_vec(78 + 4 * w))?;
    let f: &[u8] = fields.as_slice();
    let num_data_dirs: u32 = u32_in(f, 74 + 4 * w);
    if num_data_dirs != DATA_DIRECTORIES {
        return Err(ReadImageError::DataDirectories(num_data_dirs));
    }
    let directories: [u8; 120] = io(data.read_bytes::<120>())?;
    io(data.skip(8))?;  // the reserved directory
    Ok(decode_optional(f, directories.as_slice(), pe64))
}

/// The optional header whose fields up to the count of data directories
/// are `f` and whose first fifteen directories are `d`.
fn decode_optional(f: &[u8], d: &[u8], pe64: bool) -> (opt: Optional)
    requires
        f@.len() == 78 + 4 * word_size(pe64),
        d@.len() == 120,
    ensures
        opt == optional_fields(f@, d@, pe64),
{
    let w: usize = if pe64 {
        8
    } else {
        4
    };
    Optional {
        major_linker_version: f[0],
        minor_linker_version: f[1],
        size_of_code: u32_in(f, 2),
        size_of_initialized_data: u32_in(f, 6),
        size_of_uninitialized_data: u32_in(f, 10),
        address_of_entry_point: u32_in(f, 14),
        base_of_code: u32_in(f, 18),
        base_of_data: if pe64 {
            None
        } else {
            Some(u32_in(f, 22))
        },
        image_base: if pe64 {
            u64_in(f, 22)
        } else {
            u32_in(f, 26) as u64
        },
        section_alignment: u32_in(f, 30),
        file_alignment: u32_in(f, 34),
        major_operating_system_version: u16_in(f, 38),
        minor_operating_system_version: u16_in(f, 40),
        major_image_version: u16_in(f, 42),
        minor_image_version: u16_in(f, 44),
        major_subsystem_version: u16_in(f, 46),
        minor_subsystem_version: u16_in(f, 48),
        size_of_image: u32_in(f, 54),
        size_of_headers: u32_in(f, 58),
        subsystem: u16_in(f, 66),
        dll_characteristics: u16_in(f, 68),
        size_of_stack_reserve: word_in(f, 70, pe64),
        size_of_stack_commit: word_in(f, 70 + w, pe64),
        size_of_heap_reserve: word_in(f, 70 + 2 * w, pe64),
        size_of_heap_commit: word_in(f, 70 + 3 * w, pe64),
        num_data_dirs: u32_in(f, 74 + 4 * w),
        export: data_dir_in(d, 0),
        import: data_dir_in(d, 8),
        resource: data_dir_in(d, 16),
        exception: data_dir_in(d, 24),
        certificate: data_dir_in(d, 32),
        base_relocation: data_dir_in(d, 40),
        debug: data_dir_in(d, 48),
        global_ptr: data_dir_in(d, 64),
        tls: data_dir_in(d, 72),
        load_config: data_dir_in(d, 80),
        bound_import: data_dir_in(d, 88),
        iat: data_dir_in(d, 96),
        delay_import_descriptor: data_dir_in(d, 104),
        clr_runtime_header: data_dir_in(d, 112),
    }
}

/// The data directory with index `k` in the directories `d`.
pub open spec fn directory(d: Seq<u8>, k: int) -> DataDirectory {
    data_dir_at(d, 8 * k)
}

/// The optional header whose fields behind `Magic`, up to the count of
/// data directories, are `f`, and whose directories are `d`.
///
/// The fields `Win32VersionValue` (at 50), `CheckSum` (at 62) and
/// `LoaderFlags`, and the directories `Architecture` (index 7) and the
/// reserved last one (index 15), are passed over.
pub open spec fn optional_fields(f: Seq<u8>, d: Seq<u8>, pe64: bool) -> Optional {
    let w = word_size(pe64);
    Optional {
        major_linker_version: f[0],
        minor_linker_version: f[1],
        size_of_code: u32_at(f, 2),
        size_of_initialized_data: u32_at(f, 6),
        size_of_uninitialized_data: u32_at(f, 10),
        address_of_entry_point: u32_at(f, 14),
        base_of_code: u32_at(f, 18),
        base_of_data: if pe64 {
            None
        } else {
            Some(u32_at(f, 22))
        },
        image_base: if pe64 {
            u64_at(f, 22)
        } else {
            u32_at(f, 26) as u64
        },
        section_alignment: u32_at(f, 30),
        file_alignment: u32_at(f, 34),
        major_operating_system_version: u16_at(f, 38),
        minor_operating_system_version: u16_at(f, 40),
        major_image_version: u16_at(f, 42),
        minor_image_version: u16_at(f, 44),
        major_subsystem_version: u16_at(f, 46),
        minor_subsystem_version: u16_at(f, 48),
        size_of_image: u32_at(f, 54),
        size_of_headers: u32_at(f, 58),
        subsystem: u16_at(f, 66),
        dll_characteristics: u16_at(f, 68),
        size_of_stack_reserve: word_at(f, 70, pe64),
        size_of_stack_commit: word_at(f, 70 + w, pe64),
        size_of_heap_reserve: word_at(f, 70 + 2 * w, pe64),
        size_of_heap_commit: word_at(f, 70 + 3 * w, pe64),
        num_data_dirs: u32_at(f, 74 + 4 * w),
        export: directory(d, 0),
        import: directory(d, 1),
        resource: directory(d, 2),
        exception: directory(d, 3),
        certificate: directory(d, 4),
        base_relocation: directory(d, 5),
        debug: directory(d, 6),
        global_ptr: directory(d, 8),
        tls: directory(d, 9),
        load_config: directory(d, 10),
        bound_import: directory(d, 11),
        iat: directory(d, 12),
        delay_import_descriptor: directory(d, 13),
        clr_runtime_header: directory(d, 14),
    }
}

/// The optional header whose first byte after `Magic` is `b[o]`: its
/// fields lie from `o`, its directories behind their count.
pub open spec fn optional_at(b: Seq<u8>, o: int, pe64: bool) -> Optional {
    optional_fields(
        b.subrange(o, directories_offset(o, pe64)),
        b.subrange(directories_offset(o, pe64), directories_offset(o, pe64) + 120),
        pe64,
    )
}

/// Reads one row of the section table.
fn read_section(data: &mut ModuleRead) -> (r: ReadImageResult<Section>)
    requires
        old(data).position() + 40 <= u64::MAX,
    ensures
        final(data).bytes() == old(data).bytes(),
        viewed(r) == parse_section(old(data).bytes(), old(data).position()),
        r is Ok ==> final(data).position() == old(data).position() + 40,
{
    let name: ArrayString<8> = io(data.section_name())?;
    let virtual_size: u32 = io(data.u32())?;
    let virtual_addr: u32 = io(data.u32())?;
    let size_of_raw_data: u32 = io(data.u32())?;
    let pointer_to_raw_data: u32 = io(data.u32())?;
    io(data.skip(12))?;  // relocations and line numbers
    let characteristics: u32 = io(data.u32())?;
    Ok(
        Section {
            name,
            virtual_size,
            virtual_addr,
            size_of_raw_data,
            pointer_to_raw_data,
            characteristics,
        },
    )
}

/// Reads a section table of `count` rows.
fn read_sections(data: &mut ModuleRead, count: u16) -> (r: ReadImageResult<ArrayVec<Section, 16>>)
    requires
        count <= MAX_SECTIONS,
        old(data).position() + 40 * count <= u64::MAX,
    ensures
        final(data).bytes() == old(data).bytes(),
        match r {
            Ok(sections) => parse_sections(
                old(data).bytes(),
                old(data).position(),
                count as int,
            ) == Ok::<Seq<SectionView>, ReadImageErrorView>(section_views(section_list(sections))),
            Err(e) => parse_sections(old(data).bytes(), old(data).position(), count as int)
                == Err::<Seq<SectionView>, ReadImageErrorView>(e@),
        },
        r is Ok ==> final(data).position() == old(data).position() + 40 * count,
{
    let ghost b = data.bytes();
    let ghost table = data.position();
    let mut sections: ArrayVec<Section, 16> = sections_new();
    let mut i: u16 = 0;
    reveal_with_fuel(parse_sections, 2);
    assert(section_views(section_list(sections)) =~= Seq::<SectionView>::empty());
    while i < count
        invariant
            i <= count <= MAX_SECTIONS,
            data.bytes() == b,
            b == old(data).bytes(),
            table == old(data).position(),
            data.position() == table + 40 * i,
            table + 40 * count <= u64::MAX,
            section_list(sections).len() == i,
            parse_sections(b, table, i as int) == Ok::<Seq<SectionView>, ReadImageErrorView>(
                section_views(section_list(sections)),
            ),
        decreases count - i,
    {
        reveal_with_fuel(parse_sections, 2);
        let section: Section = match read_section(data) {
            Ok(section) => section,
            Err(e) => {
                proof {
                    lemma_sections_refused(b, table, i + 1, count as int);
                }
                return Err(e);
            },
        };
        let ghost before = section_list(sections);
        sections_push(&mut sections, section);
        assert(section_views(before.push(section)) =~= section_views(before).push(section@));
        i += 1;
    }
    Ok(sections)
}

impl ImageHeader {
    /// Reads the image header of a file: the pointer at offset `0x3C`, the
    /// PE signature it leads to, the COFF header, the optional header in
    /// the layout that its `Magic` selects, and the section table.
    ///
    /// The result depends on the bytes alone, not on where the cursor was.
    pub fn read(data: &mut ModuleRead) -> (r: ReadImageResult<ImageHeader>)
        ensures
            final(data).bytes() == old(data).bytes(),
            viewed(r) == parse_image_header(old(data).bytes()),
            r is Ok ==> final(data).position() == image_header_end(old(data).bytes()),
    {
        io(data.goto(PE_POINTER_OFFSET))?;
        let pointer: u32 = io(data.u32())?;
        io(data.goto(pointer as u64))?;
        let signature: [u8; 4] = io(data.read_bytes::<4>())?;
        if !(signature[0] == PE_SIGNATURE[0] && signature[1] == PE_SIGNATURE[1] && signature[2]
            == PE_SIGNATURE[2] && signature[3] == PE_SIGNATURE[3]) {
            return Err(ReadImageError::PeSignature(signature));
        }
        assert(signature@ =~= PE_SIGNATURE@);
        let coff: Coff = io(Coff::read(data))?;
        let magic: u16 = io(data.u16())?;
        let pe64: bool = if magic == MAGIC_PE32 {
            false
        } else if magic == MAGIC_PE32_PLUS {
            true
        } else {
            return Err(ReadImageError::Magic(magic));
        };
        let opt: Optional = read_optional(data, pe64)?;
        if coff.number_of_sections > MAX_SECTIONS {
            return Err(ReadImageError::SectionCount(coff.number_of_sections));
        }
        let sections: ArrayVec<Section, 16> = read_sections(data, coff.number_of_sections)?;
        Ok(ImageHeader { coff, opt, sections })
    }
}

} // verus!
