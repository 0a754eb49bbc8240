//! The CLR runtime header and the metadata root with its five streams.

use crate::bytes::u16_at;
use crate::bytes::u32_at;
use crate::error::plain;
use crate::error::viewed;
use crate::error::IoErrorKind;
use crate::error::ReadImageError;
use crate::error::ReadImageErrorView;
use crate::error::ReadImageResult;
use crate::pe::data_dir_at;
use crate::pe::DataDirectory;
use crate::reader::beyond;
use crate::reader::io;
use crate::reader::lemma_stream_name_len;
use crate::reader::parse_stream_name;
use crate::reader::stream_name_len;
use crate::reader::parse_version;
use crate::reader::ModuleRead;
use crate::text::stream_name_bytes;
use crate::text::stream_name_str;
use crate::text::version_bytes;
use arrayvec::ArrayString;
use vstd::prelude::*;

verus! {

/// The signature that opens a metadata root: `BSJB`.
pub const METADATA_SIGNATURE: u32 = 0x424A5342;

/// The number of streams that a metadata root must declare.
pub const STREAM_COUNT: u16 = 5;

/// How many bytes a CLR runtime header takes, from its size field to the
/// end of the reserved fields behind the last directory.
pub const CLI_HEADER_SIZE: u64 = 72;

/// A text that a NUL ends in the file.
#[derive(Clone, Debug, PartialEq, Eq)]
pub struct NulString(pub String);

#[derive(Clone, Copy, Debug, PartialEq, Eq, Hash)]
pub struct CliHeader {
    pub major_runtime_version: u16,
    pub minor_runtime_version: u16,
    pub metadata: DataDirectory,
    pub flags: u32,
    pub entry_point_token: u32,
    pub resources: DataDirectory,
    pub strong_name_signature: DataDirectory,
    pub vtable_fixups: DataDirectory,
}

#[derive(Clone, Copy, Debug, PartialEq, Eq, Hash)]
pub struct MetadataRoot {
    pub version: CliVersion,
    pub strings: StreamHeader,
    pub us: StreamHeader,
    pub blob: StreamHeader,
    pub guid: StreamHeader,
    pub tables: StreamHeader,
}

#[derive(Clone, Copy, Debug, PartialEq, Eq, Hash)]
pub struct CliVersion(pub ArrayString<256>);

/// Where a stream lies, counted from the metadata root, and how long it is.
#[derive(Clone, Copy, Debug, PartialEq, Eq, Hash)]
pub struct StreamHeader {
    pub offset: u32,
    pub size: u32,
}

#[derive(Clone, Copy, Debug, PartialEq, Eq, Hash)]
pub struct StreamName(pub ArrayString<32>);

/// The five streams of a metadata root.
#[derive(Clone, Copy, Debug, PartialEq, Eq, Hash)]
pub enum StreamKind {
    /// `#Strings`
    Strings,
    /// `#US`
    UserStrings,
    /// `#Blob`
    Blob,
    /// `#GUID`
    Guid,
    /// `#~`
    Tables,
}

/// The headers of the streams met so far, each in the place of its stream.
#[derive(Clone, Copy, Debug, PartialEq, Eq, Hash)]
pub struct StreamSlots {
    pub strings: Option<StreamHeader>,
    pub us: Option<StreamHeader>,
    pub blob: Option<StreamHeader>,
    pub guid: Option<StreamHeader>,
    pub tables: Option<StreamHeader>,
}

/// A metadata root as a plain value: its version is the bytes of the text.
pub struct MetadataRootView {
    pub version: Seq<u8>,
    pub strings: StreamHeader,
    pub us: StreamHeader,
    pub blob: StreamHeader,
    pub guid: StreamHeader,
    pub tables: StreamHeader,
}

impl View for CliVersion {
    type V = Seq<u8>;

    open spec fn view(&self) -> Seq<u8> {
        version_bytes(self.0)
    }
}

impl View for StreamName {
    type V = Seq<u8>;

    open spec fn view(&self) -> Seq<u8> {
        stream_name_bytes(self.0)
    }
}

impl View for MetadataRoot {
    type V = MetadataRootView;

    open spec fn view(&self) -> MetadataRootView {
        MetadataRootView {
            version: self.version@,
            strings: self.strings,
            us: self.us,
            blob: self.blob,
            guid: self.guid,
            tables: self.tables,
        }
    }
}

/// `#Strings`, padded with NULs to twelve bytes.
pub const STRINGS_NAME: [u8; 12] = [0x23, 0x53, 0x74, 0x72, 0x69, 0x6E, 0x67, 0x73, 0, 0, 0, 0];

/// `#US`, with one NUL.
pub const USER_STRINGS_NAME: [u8; 4] = [0x23, 0x55, 0x53, 0];

/// `#Blob`, padded with NULs to eight bytes.
pub const BLOB_NAME: [u8; 8] = [0x23, 0x42, 0x6C, 0x6F, 0x62, 0, 0, 0];

/// `#GUID`, padded with NULs to eight bytes.
pub const GUID_NAME: [u8; 8] = [0x23, 0x47, 0x55, 0x49, 0x44, 0, 0, 0];

/// `#~`, padded with NULs to four bytes.
pub const TABLES_NAME: [u8; 4] = [0x23, 0x7E, 0, 0];

/// The stream that a name stands for, padding included; `None` for a name
/// that is not one of the five.
pub open spec fn stream_kind(name: Seq<u8>) -> Option<StreamKind> {
    if name == STRINGS_NAME@ {
        Some(StreamKind::Strings)
    } else if name == USER_STRINGS_NAME@ {
        Some(StreamKind::UserStrings)
    } else if name == BLOB_NAME@ {
        Some(StreamKind::Blob)
    } else if name == GUID_NAME@ {
        Some(StreamKind::Guid)
    } else if name == TABLES_NAME@ {
        Some(StreamKind::Tables)
    } else {
        None
    }
}

impl StreamSlots {
    /// No stream met yet.
    pub open spec fn none() -> StreamSlots {
        StreamSlots { strings: None, us: None, blob: None, guid: None, tables: None }
    }

    /// The header met for a stream, if any.
    pub open spec fn get(self, kind: StreamKind) -> Option<StreamHeader> {
        match kind {
            StreamKind::Strings => self.strings,
            StreamKind::UserStrings => self.us,
            StreamKind::Blob => self.blob,
            StreamKind::Guid => self.guid,
            StreamKind::Tables => self.tables,
        }
    }

    /// The slots with `header` in the place of a stream.
    pub open spec fn with(self, kind: StreamKind, header: StreamHeader) -> StreamSlots {
        match kind {
            StreamKind::Strings => StreamSlots { strings: Some(header), ..self },
            StreamKind::UserStrings => StreamSlots { us: Some(header), ..self },
            StreamKind::Blob => StreamSlots { blob: Some(header), ..self },
            StreamKind::Guid => StreamSlots { guid: Some(header), ..self },
            StreamKind::Tables => StreamSlots { tables: Some(header), ..self },
        }
    }

    /// How many streams were met.
    pub open spec fn filled(self) -> int {
        (if self.strings is Some {
            1int
        } else {
            0int
        }) + (if self.us is Some {
            1int
        } else {
            0int
        }) + (if self.blob is Some {
            1int
        } else {
            0int
        }) + (if self.guid is Some {
            1int
        } else {
            0int
        }) + (if self.tables is Some {
            1int
        } else {
            0int
        })
    }
}

/// The CLR runtime header whose size field begins at `b[at]`. The size
/// field, the eight bytes behind the strong-name signature and the sixteen
/// behind the vtable fixups are passed over.
pub open spec fn cli_header_at(b: Seq<u8>, at: int) -> CliHeader {
    CliHeader {
        major_runtime_version: u16_at(b, at + 4),
        minor_runtime_version: u16_at(b, at + 6),
        metadata: data_dir_at(b, at + 8),
        flags: u32_at(b, at + 16),
        entry_point_token: u32_at(b, at + 20),
        resources: data_dir_at(b, at + 24),
        strong_name_signature: data_dir_at(b, at + 32),
        vtable_fixups: data_dir_at(b, at + 48),
    }
}

/// What the bytes from `at` give as a CLR runtime header. It needs the
/// bytes up to the end of the vtable fixups; the reserved bytes behind
/// them need not be there, but the cursor has to be able to pass over
/// them, as over every part that is passed over.
pub open spec fn parse_cli_header(b: Seq<u8>, at: int) -> Result<CliHeader, ReadImageErrorView> {
    if beyond(at + 4) {
        Err(ReadImageErrorView::IO(IoErrorKind::InvalidInput))
    } else if b.len() < at + 40 {
        Err(ReadImageErrorView::IO(IoErrorKind::UnexpectedEof))
    } else if beyond(at + 48) {
        Err(ReadImageErrorView::IO(IoErrorKind::InvalidInput))
    } else if b.len() < at + 56 {
        Err(ReadImageErrorView::IO(IoErrorKind::UnexpectedEof))
    } else if beyond(at + CLI_HEADER_SIZE) {
        Err(ReadImageErrorView::IO(IoErrorKind::InvalidInput))
    } else {
        Ok(cli_header_at(b, at))
    }
}

/// What the bytes from `at` give as the headers of `n` more streams, after
/// those in `slots`: each an offset, a size and a name; a name that is none
/// of the five, or that was met before, is refused.
pub open spec fn parse_streams(b: Seq<u8>, at: int, n: int, slots: StreamSlots) -> Result<
    StreamSlots,
    ReadImageErrorView,
>
    decreases n,
{
    if n <= 0 {
        Ok(slots)
    } else if b.len() < at + 8 {
        Err(ReadImageErrorView::IO(IoErrorKind::UnexpectedEof))
    } else {
        match parse_stream_name(b, at + 8) {
            Err(kind) => Err(ReadImageErrorView::IO(kind)),
            Ok(name) => match stream_kind(name) {
                None => Err(ReadImageErrorView::StreamName(name)),
                Some(kind) => if slots.get(kind) is Some {
                    Err(ReadImageErrorView::StreamDuplicate(name))
                } else {
                    parse_streams(
                        b,
                        at + 8 + name.len(),
                        n - 1,
                        slots.with(
                            kind,
                            StreamHeader { offset: u32_at(b, at), size: u32_at(b, at + 4) },
                        ),
                    )
                },
            },
        }
    }
}

/// What the bytes from `at` give as a metadata root: the signature, four
/// bytes of major and minor version that are passed over, the version string,
/// two bytes of flags that are passed over, the count of streams, which
/// has to be five, and the headers of the streams. The cursor has to be
/// able to pass over what is passed over.
pub open spec fn parse_metadata_root(b: Seq<u8>, at: int) -> Result<
    MetadataRootView,
    ReadImageErrorView,
> {
    if b.len() < at + 4 {
        Err(ReadImageErrorView::IO(IoErrorKind::UnexpectedEof))
    } else if u32_at(b, at) != METADATA_SIGNATURE {
        Err(ReadImageErrorView::MetadataSignature(u32_at(b, at)))
    } else if beyond(at + 8) {
        Err(ReadImageErrorView::IO(IoErrorKind::InvalidInput))
    } else {
        match parse_version(b, at + 8) {
            Err(kind) => Err(ReadImageErrorView::IO(kind)),
            Ok(version) => {
                let behind = at + 12 + version.len();
                if beyond(behind + 2) {
                    Err(ReadImageErrorView::IO(IoErrorKind::InvalidInput))
                } else if b.len() < behind + 4 {
                    Err(ReadImageErrorView::IO(IoErrorKind::UnexpectedEof))
                } else if u16_at(b, behind + 2) != STREAM_COUNT {
                    Err(ReadImageErrorView::StreamCount(u16_at(b, behind + 2)))
                } else {
                    match parse_streams(b, behind + 4, STREAM_COUNT as int, StreamSlots::none()) {
                        Err(e) => Err(e),
                        Ok(slots) => Ok(
                            MetadataRootView {
                                version,
                                strings: slots.strings->0,
                                us: slots.us->0,
                                blob: slots.blob->0,
                                guid: slots.guid->0,
                                tables: slots.tables->0,
                            },
                        ),
                    }
                }
            },
        }
    }
}

/// Where the headers of `n` streams end that begin at `at`.
pub open spec fn streams_end(b: Seq<u8>, at: int, n: int) -> int
    decreases n,
{
    if n <= 0 {
        at
    } else {
        streams_end(b, at + 8 + stream_name_len(b, at + 8), n - 1)
    }
}

/// Where a metadata root that begins at `at` ends: behind the header of
/// its fifth stream.
pub open spec fn metadata_root_end(b: Seq<u8>, at: int) -> int {
    streams_end(b, at + 16 + u32_at(b, at + 8), STREAM_COUNT as int)
}

impl CliHeader {
    /// Reads the CLR runtime header at the cursor.
    pub fn read(data: &mut ModuleRead) -> (r: ReadImageResult<CliHeader>)
        ensures
            final(data).bytes() == old(data).bytes(),
            plain(r) == parse_cli_header(old(data).bytes(), old(data).position()),
            r is Ok ==> final(data).position() == old(data).position() + CLI_HEADER_SIZE,
    {
        io(data.skip(4))?;  // the size of the header
        let major_runtime_version: u16 = io(data.u16())?;
        let minor_runtime_version: u16 = io(data.u16())?;
        let metadata: DataDirectory = io(data.data_dir())?;
        let flags: u32 = io(data.u32())?;
        let entry_point_token: u32 = io(data.u32())?;
        let resources: DataDirectory = io(data.data_dir())?;
        let strong_name_signature: DataDirectory = io(data.data_dir())?;
        io(data.skip(8))?;  // the code manager table, always zero
        let vtable_fixups: DataDirectory = io(data.data_dir())?;
        io(data.skip(16))?;  // export address table jumps and managed native header, always zero
        Ok(
            CliHeader {
                major_runtime_version,
                minor_runtime_version,
                metadata,
                flags,
                entry_point_token,
                resources,
                strong_name_signature,
                vtable_fixups,
            },
        )
    }
}

/// Whether two byte strings are the same.
fn same_bytes(a: &[u8], b: &[u8]) -> (r: bool)
    ensures
        r == (a@ == b@),
{
    if a.len() != b.len() {
        return false;
    }
    let mut i: usize = 0;
    while i < a.len()
        invariant
            i <= a@.len(),
            a@.len() == b@.len(),
            forall|k: int| 0 <= k < i ==> a@[k] == b@[k],
        decreases a@.len() - i,
    {
        if a[i] != b[i] {
            return false;
        }
        i += 1;
    }
    assert(a@ =~= b@);
    true
}

impl StreamName {
    /// The stream that the name stands for, if it is one of the five.
    pub fn kind(&self) -> (r: Option<StreamKind>)
        ensures
            r == stream_kind(self@),
    {
        let name: &[u8] = stream_name_str(&self.0).as_bytes();
        if same_bytes(name, STRINGS_NAME.as_slice()) {
            Some(StreamKind::Strings)
        } else if same_bytes(name, USER_STRINGS_NAME.as_slice()) {
            Some(StreamKind::UserStrings)
        } else if same_bytes(name, BLOB_NAME.as_slice()) {
            Some(StreamKind::Blob)
        } else if same_bytes(name, GUID_NAME.as_slice()) {
            Some(StreamKind::Guid)
        } else if same_bytes(name, TABLES_NAME.as_slice()) {
            Some(StreamKind::Tables)
        } else {
            None
        }
    }
}

impl StreamSlots {
    /// Puts `header` in the place of the stream that `name` stands for.
    /// A name that is none of the five, or whose place is taken, is refused.
    pub fn put(self, name: StreamName, header: StreamHeader) -> (r: ReadImageResult<StreamSlots>)
        ensures
            plain(r) == match stream_kind(name@) {
                None => Err(ReadImageErrorView::StreamName(name@)),
                Some(kind) => if self.get(kind) is Some {
                    Err(ReadImageErrorView::StreamDuplicate(name@))
                } else {
                    Ok(self.with(kind, header))
                },
            },
            r matches Ok(slots) ==> slots.filled() == self.filled() + 1,
    {
        let kind: StreamKind = match name.kind() {
            Some(kind) => kind,
            None => {
                return Err(ReadImageError::StreamName(name.0));
            },
        };
        let taken: bool = match kind {
            StreamKind::Strings => self.strings.is_some(),
            StreamKind::UserStrings => self.us.is_some(),
            StreamKind::Blob => self.blob.is_some(),
            StreamKind::Guid => self.guid.is_some(),
            StreamKind::Tables => self.tables.is_some(),
        };
        if taken {
            return Err(ReadImageError::StreamDuplicate(name.0));
        }
        let mut slots: StreamSlots = self;
        match kind {
            StreamKind::Strings => {
                slots.strings = Some(header);
            },
            StreamKind::UserStrings => {
                slots.us = Some(header);
            },
            StreamKind::Blob => {
                slots.blob = Some(header);
            },
            StreamKind::Guid => {
                slots.guid = Some(header);
            },
            StreamKind::Tables => {
                slots.tables = Some(header);
            },
        }
        Ok(slots)
    }
}

/// Reads the header of one stream and puts it in its place.
fn read_stream(data: &mut ModuleRead, slots: StreamSlots, Ghost(n): Ghost<int>) -> (r:
    ReadImageResult<StreamSlots>)
    requires
        n > 0,
    ensures
        final(data).bytes() == old(data).bytes(),
        match r {
            Ok(next) => {
                &&& next.filled() == slots.filled() + 1
                &&& final(data).position() == old(data).position() + 8 + stream_name_len(
                    old(data).bytes(),
                    old(data).position() + 8,
                )
                &&& parse_streams(old(data).bytes(), old(data).position(), n, slots)
                    == parse_streams(old(data).bytes(), final(data).position(), n - 1, next)
            },
            Err(e) => parse_streams(old(data).bytes(), old(data).position(), n, slots) == Err::<
                StreamSlots,
                ReadImageErrorView,
            >(e@),
        },
{
    proof {
        lemma_stream_name_len(data.bytes(), data.position() + 8, 0);
    }
    let offset: u32 = io(data.u32())?;
    let size: u32 = io(data.u32())?;
    let name: ArrayString<32> = io(data.stream_name())?;
    slots.put(StreamName(name), StreamHeader { offset, size })
}

impl MetadataRoot {
    /// Reads the metadata root at the cursor.
    pub fn read(data: &mut ModuleRead) -> (r: ReadImageResult<MetadataRoot>)
        ensures
            final(data).bytes() == old(data).bytes(),
            viewed(r) == parse_metadata_root(old(data).bytes(), old(data).position()),
            r is Ok ==> final(data).position() == metadata_root_end(
                old(data).bytes(),
                old(data).position(),
            ),
    {
        let signature: u32 = io(data.u32())?;
        if signature != METADATA_SIGNATURE {
            return Err(ReadImageError::MetadataSignature(signature));
        }
        io(data.skip(4))?;  // major version and minor version, always 1 and 1
        let version: CliVersion = CliVersion(io(data.cli_version())?);
        io(data.skip(2))?;  // flags, always zero
        let stream_count: u16 = io(data.u16())?;
        if stream_count != STREAM_COUNT {
            return Err(ReadImageError::StreamCount(stream_count));
        }
        let slots: StreamSlots = read_streams(data)?;
        // Five names, no two the same, out of five: every stream was met.
        Ok(
            MetadataRoot {
                version,
                strings: slots.strings.unwrap(),
                us: slots.us.unwrap(),
                blob: slots.blob.unwrap(),
                guid: slots.guid.unwrap(),
                tables: slots.tables.unwrap(),
            },
        )
    }
}

/// Reads the headers of the five streams.
fn read_streams(data: &mut ModuleRead) -> (r: ReadImageResult<StreamSlots>)
    ensures
        final(data).bytes() == old(data).bytes(),
        match r {
            Ok(slots) => slots.filled() == STREAM_COUNT && parse_streams(
                old(data).bytes(),
                old(data).position(),
                STREAM_COUNT as int,
                StreamSlots::none(),
            ) == Ok::<StreamSlots, ReadImageErrorView>(slots) && final(data).position()
                == streams_end(old(data).bytes(), old(data).position(), STREAM_COUNT as int),
            Err(e) => parse_streams(
                old(data).bytes(),
                old(data).position(),
                STREAM_COUNT as int,
                StreamSlots::none(),
            ) == Err::<StreamSlots, ReadImageErrorView>(e@),
        },
{
    let ghost b = data.bytes();
    let ghost at = data.position();
    let mut slots: StreamSlots = StreamSlots {
        strings: None,
        us: None,
        blob: None,
        guid: None,
        tables: None,
    };
    let mut i: u16 = 0;
    while i < STREAM_COUNT
        invariant
            i <= STREAM_COUNT,
            data.bytes() == b,
            b == old(data).bytes(),
            at == old(data).position(),
            slots.filled() == i,
            streams_end(b, at, STREAM_COUNT as int) == streams_end(
                b,
                data.position(),
                STREAM_COUNT - i,
            ),
            parse_streams(b, at, STREAM_COUNT as int, StreamSlots::none()) == parse_streams(
                b,
                data.position(),
                STREAM_COUNT - i,
                slots,
            ),
        decreases STREAM_COUNT - i,
    {
        slots = read_stream(data, slots, Ghost(STREAM_COUNT - i))?;
        i += 1;
    }
    Ok(slots)
}

} // verus!
