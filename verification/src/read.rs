//! The whole chain: from the bytes of a file to the schema of its table
//! stream, and from there to any row.

use crate::bytes::u16_at;
use crate::bytes::u32_at;
use crate::error::IoErrorKind;
use crate::error::ReadImageError;
use crate::error::ReadImageErrorView;
use crate::error::ReadImageResult;
use crate::metadata::parse_cli_header;
use crate::metadata::parse_metadata_root;
use crate::metadata::parse_streams;
use crate::metadata::stream_kind;
use crate::metadata::CliHeader;
use crate::metadata::MetadataRoot;
use crate::metadata::MetadataRootView;
use crate::metadata::StreamHeader;
use crate::metadata::StreamSlots;
use crate::metadata::STREAM_COUNT;
use crate::pe::lemma_first_section;
use crate::pe::offset_from;
use crate::pe::parse_image_header;
use crate::pe::parse_optional;
use crate::pe::parse_sections;
use crate::pe::resolve_rva;
use crate::pe::section_table_offset;
use crate::pe::ImageHeader;
use crate::pe::ImageHeaderView;
use crate::pe::SectionView;
use crate::pe::MAGIC_PE32_PLUS;
use crate::pe::PE_POINTER_OFFSET;
use crate::reader::io;
use crate::reader::parse_stream_name;
use crate::reader::parse_version;
use crate::reader::ModuleRead;
use crate::schema::db_end;
use crate::schema::parse_db;
use crate::schema::parsing::row_failure;
use crate::schema::parsing::Schema;
use crate::schema::parsing::Table;
use crate::schema::row_at;
use crate::schema::Db;
use crate::text::sections_slice;
use vstd::prelude::*;

verus! {

/// What the headers of an image hold, and where its metadata lies.
#[derive(Clone, Debug, PartialEq, Eq, Hash)]
pub struct Image {
    pub pe: ImageHeader,
    pub cli: CliHeader,
    pub metadata: MetadataRoot,
    pub db: Db,
    /// The file offset of the metadata root.
    pub metadata_offset: u64,
    /// The file offset of the rows of the table stream.
    pub tables_offset: u64,
}

/// An image as a plain value.
pub struct ImageView {
    pub pe: ImageHeaderView,
    pub cli: CliHeader,
    pub metadata: MetadataRootView,
    pub db: Schema,
    pub metadata_offset: u64,
    pub tables_offset: u64,
}

impl View for Image {
    type V = ImageView;

    open spec fn view(&self) -> ImageView {
        ImageView {
            pe: self.pe@,
            cli: self.cli,
            metadata: self.metadata@,
            db: self.db@,
            metadata_offset: self.metadata_offset,
            tables_offset: self.tables_offset,
        }
    }
}

/// The file offset that `rva` maps to, and a failure where no section
/// contains it.
pub open spec fn locate(sections: Seq<SectionView>, rva: u32) -> Result<u64, ReadImageErrorView> {
    match resolve_rva(sections, rva) {
        Some(offset) => Ok(offset),
        None => Err(ReadImageErrorView::RvaOutOfRange(rva)),
    }
}

/// What the bytes of a file give as an image: the image header; the CLR
/// runtime header, where the address in its data directory maps to; the
/// metadata root, where the address in the CLR runtime header maps to; and
/// the schema of the table stream, at its offset from the metadata root.
/// The first stage that fails decides the failure.
pub open spec fn parse_image(b: Seq<u8>) -> Result<ImageView, ReadImageErrorView> {
    match parse_image_header(b) {
        Err(e) => Err(e),
        Ok(pe) => match locate(pe.sections, pe.opt.clr_runtime_header.rva) {
            Err(e) => Err(e),
            Ok(cli_offset) => match parse_cli_header(b, cli_offset as int) {
                Err(e) => Err(e),
                Ok(cli) => match locate(pe.sections, cli.metadata.rva) {
                    Err(e) => Err(e),
                    Ok(metadata_offset) => match parse_metadata_root(b, metadata_offset as int) {
                        Err(e) => Err(e),
                        Ok(metadata) => match parse_db(
                            b,
                            metadata_offset + metadata.tables.offset,
                        ) {
                            Err(e) => Err(e),
                            Ok(db) => Ok(
                                ImageView {
                                    pe,
                                    cli,
                                    metadata,
                                    db,
                                    metadata_offset,
                                    tables_offset: db_end(
                                        b,
                                        metadata_offset + metadata.tables.offset,
                                    ) as u64,
                                },
                            ),
                        },
                    },
                },
            },
        },
    }
}

/// Whether reading an image can end in this failure: a file that is cut
/// short, text that is not UTF-8 or that is too long, and every structural
/// reason but that of a coded index, which only rows hold.
pub open spec fn image_failure(e: ReadImageErrorView) -> bool {
    match e {
        ReadImageErrorView::IO(kind) => kind == IoErrorKind::UnexpectedEof || kind
            == IoErrorKind::InvalidData,
        ReadImageErrorView::CodedIndex(_) => false,
        _ => true,
    }
}

/// A section table fails only for being cut short or for a name that is
/// not text.
proof fn lemma_section_failures(b: Seq<u8>, at: int, n: int)
    ensures
        parse_sections(b, at, n) matches Err(e) ==> image_failure(e),
    decreases n,
{
    reveal_with_fuel(parse_sections, 2);
    if n > 0 {
        lemma_section_failures(b, at, n - 1);
    }
}

/// The headers of the streams fail only for being cut short, for a name
/// that is not text, that is unknown or that was met before.
proof fn lemma_stream_failures(b: Seq<u8>, at: int, n: int, slots: StreamSlots)
    ensures
        parse_streams(b, at, n, slots) matches Err(e) ==> image_failure(e),
    decreases n,
{
    if n > 0 && b.len() >= at + 8 {
        match parse_stream_name(b, at + 8) {
            Ok(name) => match stream_kind(name) {
                Some(kind) => {
                    if slots.get(kind) is None {
                        lemma_stream_failures(
                            b,
                            at + 8 + name.len(),
                            n - 1,
                            slots.with(
                                kind,
                                StreamHeader { offset: u32_at(b, at), size: u32_at(b, at + 4) },
                            ),
                        );
                    }
                },
                None => {},
            },
            Err(_) => {},
        }
    }
}

/// Whatever the bytes of a file are, reading the image they hold ends in
/// an image or in one of the failures that `image_failure` lists. No file
/// makes a seek fail, and none is refused for a reason outside the list.
pub proof fn lemma_image_failures(b: Seq<u8>)
    ensures
        parse_image(b) matches Err(e) ==> image_failure(e),
{
    reveal(parse_optional);
    match parse_image_header(b) {
        Err(_) => {
            let p = u32_at(b, PE_POINTER_OFFSET as int) as int;
            lemma_section_failures(
                b,
                section_table_offset(p + 26, u16_at(b, p + 24) == MAGIC_PE32_PLUS),
                u16_at(b, p + 6) as int,
            );
        },
        Ok(pe) => {
            lemma_first_section(pe.sections, pe.opt.clr_runtime_header.rva, 0);
            match locate(pe.sections, pe.opt.clr_runtime_header.rva) {
                Err(_) => {},
                Ok(cli_offset) => match parse_cli_header(b, cli_offset as int) {
                    Err(_) => {},
                    Ok(cli) => {
                        lemma_first_section(pe.sections, cli.metadata.rva, 0);
                        match locate(pe.sections, cli.metadata.rva) {
                            Err(_) => {},
                            Ok(at) => match parse_version(b, at + 8) {
                                Err(_) => {},
                                Ok(version) => {
                                    lemma_stream_failures(
                                        b,
                                        at + 16 + version.len(),
                                        STREAM_COUNT as int,
                                        StreamSlots::none(),
                                    );
                                },
                            },
                        }
                    },
                },
            }
        },
    }
}

/// Moves the cursor to where `rva` maps to in the file.
fn seek_rva(data: &mut ModuleRead, pe: &ImageHeader, rva: u32) -> (r: ReadImageResult<u64>)
    ensures
        final(data).bytes() == old(data).bytes(),
        crate::error::plain(r) == locate(pe@.sections, rva),
        r matches Ok(offset) ==> final(data).position() == offset && offset <= 2 * u32::MAX,
{
    proof {
        lemma_first_section(pe@.sections, rva, 0);
    }
    match offset_from(sections_slice(&pe.sections), rva) {
        Some(offset) => io(data.goto(offset)),
        None => Err(ReadImageError::RvaOutOfRange(rva)),
    }
}

impl Image {
    /// Reads the headers of an image and the schema of its table stream,
    /// and leaves the cursor where the rows of the tables begin.
    ///
    /// The result depends on the bytes alone, not on where the cursor was.
    pub fn read(data: &mut ModuleRead) -> (r: ReadImageResult<Image>)
        ensures
            final(data).bytes() == old(data).bytes(),
            match r {
                Ok(image) => parse_image(old(data).bytes()) == Ok::<ImageView, ReadImageErrorView>(
                    image@,
                ),
                Err(e) => parse_image(old(data).bytes()) == Err::<ImageView, ReadImageErrorView>(
                    e@,
                ),
            },
            r matches Ok(image) ==> final(data).position() == image.tables_offset,
    {
        let pe: ImageHeader = ImageHeader::read(data)?;
        seek_rva(data, &pe, pe.opt.clr_runtime_header.rva)?;
        let cli: CliHeader = CliHeader::read(data)?;
        let metadata_offset: u64 = seek_rva(data, &pe, cli.metadata.rva)?;
        let metadata: MetadataRoot = MetadataRoot::read(data)?;
        io(data.goto(metadata_offset + metadata.tables.offset as u64))?;
        let db: Db = Db::read(data)?;
        let tables_offset: u64 = io(data.pos())?;
        Ok(Image { pe, cli, metadata, db, metadata_offset, tables_offset })
    }
}

/// An image that was read, with the bytes it was read from: rows of its
/// tables are read on demand, each from the place where the schema puts it.
#[derive(Clone, Debug)]
pub struct DeferredReader {
    image: Image,
    data: ModuleRead,
}

impl DeferredReader {
    /// The image that was read.
    pub closed spec fn spec_image(&self) -> Image {
        self.image
    }

    /// The byte source that the image was read from, with its cursor.
    pub closed spec fn source(&self) -> ModuleRead {
        self.data
    }

    /// The bytes that the image was read from.
    pub open spec fn bytes(&self) -> Seq<u8> {
        self.source().bytes()
    }

    /// Where the cursor of the byte source stands.
    pub open spec fn position(&self) -> int {
        self.source().position()
    }

    /// Reads the image that `data` holds and keeps both. The cursor of the
    /// source is left where the rows of the tables begin.
    pub fn read(data: ModuleRead) -> (r: ReadImageResult<DeferredReader>)
        ensures
            match r {
                Ok(reader) => {
                    &&& reader.bytes() == data.bytes()
                    &&& parse_image(data.bytes()) == Ok::<ImageView, ReadImageErrorView>(
                        reader.spec_image()@,
                    )
                    &&& reader.position() == reader.spec_image().tables_offset
                },
                Err(e) => parse_image(data.bytes()) == Err::<ImageView, ReadImageErrorView>(e@),
            },
    {
        let mut data = data;
        let image: Image = Image::read(&mut data)?;
        Ok(DeferredReader { image, data })
    }

    /// Reads row `row_index` of the table that holds rows of kind `T`.
    ///
    /// An index at or beyond the row count of the table gives `None`,
    /// which is no failure; the source is then not touched, and its cursor
    /// stays where it was. A row that is read leaves the cursor behind it.
    /// Neither the image nor the bytes change, and no call depends on the
    /// calls before it.
    pub fn row<T: Table>(&mut self, row_index: u32) -> (r: ReadImageResult<Option<T>>)
        ensures
            final(self).spec_image() == old(self).spec_image(),
            final(self).bytes() == old(self).bytes(),
            row_index >= old(self).spec_image().db@.row_count(T::index().spec_id() as int) ==> r
                == Ok::<Option<T>, ReadImageError>(None) && final(self).source() == old(
                self,
            ).source(),
            crate::error::plain(r) == row_at::<T>(
                old(self).spec_image().db@,
                old(self).bytes(),
                old(self).spec_image().tables_offset,
                row_index,
            ),
            r matches Ok(Some(_)) ==> final(self).position() == old(self).spec_image().db@.row_end(
                old(self).spec_image().tables_offset,
                T::index().spec_id() as int,
                row_index,
            ),
            r matches Err(e) ==> row_failure(e@),
    {
        self.image.db.row::<T>(&mut self.data, self.image.tables_offset, row_index)
    }

    /// The image that was read.
    pub fn image(&self) -> (image: &Image)
        ensures
            *image == self.spec_image(),
    {
        &self.image
    }

    /// The image and the byte source, each on its own again, the source
    /// with its cursor where it stood.
    pub fn into_inner(self) -> (r: (Image, ModuleRead))
        ensures
            r.0 == self.spec_image(),
            r.1 == self.source(),
    {
        (self.image, self.data)
    }
}

} // verus!
