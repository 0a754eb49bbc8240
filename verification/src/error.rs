//! The reasons for which an image is refused.

use crate::text::stream_name_bytes;
use arrayvec::ArrayString;
use vstd::prelude::*;

verus! {

/// What a decoder gives: a value, or the reason for which the image is
/// refused.
pub type ReadImageResult<T> = Result<T, ReadImageError>;

/// Why the byte source could not give what was asked of it.
#[derive(Clone, Copy, Debug, PartialEq, Eq, Hash)]
pub enum IoErrorKind {
    /// Fewer bytes were left than the read needed.
    UnexpectedEof,
    /// A seek to a position before the start or beyond what a position can hold.
    InvalidInput,
    /// The bytes read are not what their place requires: text that is not
    /// UTF-8, a length over its limit, flag bits that are not defined.
    InvalidData,
    /// A number that stands for no value of its enumeration.
    Other,
}

/// Any failure to read an image. Whatever the variant, the image is not usable.
#[derive(Clone, Copy, Debug, PartialEq, Eq, Hash)]
pub enum ReadImageError {
    /// The byte source failed.
    IO(IoErrorKind),
    /// The PE header does not open with `PE\0\0` but with these four bytes.
    PeSignature([u8; 4]),
    /// The optional header has this `Magic`, which selects no layout.
    Magic(u16),
    /// The optional header declares this many data directories, not sixteen.
    DataDirectories(u32),
    /// The image declares this many sections, more than sixteen.
    SectionCount(u16),
    /// The metadata root does not open with `BSJB` but with this number.
    MetadataSignature(u32),
    /// The metadata root declares this many streams, not five.
    StreamCount(u16),
    /// The metadata root holds a stream of this name, which is none of the
    /// five.
    StreamName(ArrayString<32>),
    /// The metadata root holds a second stream of this name.
    StreamDuplicate(ArrayString<32>),
    /// The bitmap of valid tables, which holds a table beyond the
    /// identities.
    TableCount(u64),
    /// A coded index has this tag, which chooses none of its tables.
    CodedIndex(u8),
    /// No section contains this virtual address.
    RvaOutOfRange(u32),
}

/// A failure as a plain value: names are the bytes they hold.
pub enum ReadImageErrorView {
    IO(IoErrorKind),
    PeSignature(Seq<u8>),
    Magic(u16),
    DataDirectories(u32),
    SectionCount(u16),
    MetadataSignature(u32),
    StreamCount(u16),
    StreamName(Seq<u8>),
    StreamDuplicate(Seq<u8>),
    TableCount(u64),
    CodedIndex(u8),
    RvaOutOfRange(u32),
}

impl View for ReadImageError {
    type V = ReadImageErrorView;

    open spec fn view(&self) -> ReadImageErrorView {
        match *self {
            ReadImageError::IO(k) => ReadImageErrorView::IO(k),
            ReadImageError::PeSignature(s) => ReadImageErrorView::PeSignature(s@),
            ReadImageError::Magic(m) => ReadImageErrorView::Magic(m),
            ReadImageError::DataDirectories(n) => ReadImageErrorView::DataDirectories(n),
            ReadImageError::SectionCount(n) => ReadImageErrorView::SectionCount(n),
            ReadImageError::MetadataSignature(s) => ReadImageErrorView::MetadataSignature(s),
            ReadImageError::StreamCount(n) => ReadImageErrorView::StreamCount(n),
            ReadImageError::StreamName(n) => ReadImageErrorView::StreamName(stream_name_bytes(n)),
            ReadImageError::StreamDuplicate(n) => ReadImageErrorView::StreamDuplicate(
                stream_name_bytes(n),
            ),
            ReadImageError::TableCount(v) => ReadImageErrorView::TableCount(v),
            ReadImageError::CodedIndex(t) => ReadImageErrorView::CodedIndex(t),
            ReadImageError::RvaOutOfRange(rva) => ReadImageErrorView::RvaOutOfRange(rva),
        }
    }
}

impl ReadImageErrorView {
    /// Whether the failure is one of the structural reasons, and not one of
    /// the byte source.
    pub open spec fn is_structural(self) -> bool {
        !(self is IO)
    }
}

/// A result whose value is plain, with its failure as a plain value.
pub open spec fn plain<T>(r: ReadImageResult<T>) -> Result<T, ReadImageErrorView> {
    match r {
        Ok(v) => Ok(v),
        Err(e) => Err(e@),
    }
}

/// A result with its value and its failure as plain values.
pub open spec fn viewed<T: View>(r: ReadImageResult<T>) -> Result<T::V, ReadImageErrorView> {
    match r {
        Ok(v) => Ok(v@),
        Err(e) => Err(e@),
    }
}

} // verus!
