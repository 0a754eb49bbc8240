//! The byte source: the bytes of a module and a cursor into them.
//!
//! Reads are sequential from the cursor, seeks are absolute or relative. A
//! read that fails leaves the bytes as they were; the plain reads also leave
//! the cursor where it was.

use crate::bytes::u16_at;
use crate::bytes::u16_from_le;
use crate::bytes::u32_at;
use crate::bytes::u32_from_le;
use crate::bytes::u32_in;
use crate::bytes::u64_at;
use crate::bytes::u64_from_le;
use crate::error::IoErrorKind;
use crate::error::ReadImageError;
use crate::pe::data_dir_at;
use crate::pe::DataDirectory;
use crate::text::name_buffer_bytes;
use crate::text::name_buffer_extend;
use crate::text::name_buffer_new;
use crate::text::name_buffer_slice;
use crate::text::section_name_bytes;
use crate::text::section_name_from_bytes;
use crate::text::str_from_utf8;
use crate::text::stream_name_bytes;
use crate::text::stream_name_from_str;
use crate::text::version_bytes;
use crate::text::version_from_str;
use arrayvec::ArrayString;
use arrayvec::ArrayVec;
use std::str::Utf8Error;
use vstd::prelude::*;
use vstd::utf8::encode_utf8;
use vstd::utf8::valid_utf8;

verus! {

/// The bytes of a module, with the position of the next read.
#[derive(Clone, Debug, PartialEq, Eq, Hash)]
pub struct ModuleRead {
    bytes: Vec<u8>,
    pos: u64,
}

/// The result of a read, with a refusal of the byte source as a failure to
/// read the image.
pub fn io<T>(r: Result<T, IoErrorKind>) -> (out: Result<T, ReadImageError>)
    ensures
        out == match r {
            Ok(v) => Ok::<T, ReadImageError>(v),
            Err(kind) => Err(ReadImageError::IO(kind)),
        },
{
    match r {
        Ok(v) => Ok(v),
        Err(kind) => Err(ReadImageError::IO(kind)),
    }
}

/// What text that is not UTF-8 is refused as.
pub fn utf8_err(e: Utf8Error) -> (kind: IoErrorKind)
    ensures
        kind == IoErrorKind::InvalidData,
{
    IoErrorKind::InvalidData
}

/// How many bytes of `s` a read up to a delimiter takes: those up to and
/// including the first `byte`, or all of them where `s` holds none.
pub open spec fn span_until(s: Seq<u8>, byte: u8) -> nat
    decreases s.len(),
{
    if s.len() == 0 {
        0
    } else if s[0] == byte {
        1
    } else {
        1 + span_until(s.drop_first(), byte)
    }
}

/// Whether `at` is a position that no cursor can hold. A relative seek
/// that would lead there is refused.
pub open spec fn beyond(at: int) -> bool {
    at > u64::MAX
}

/// The most bytes that a version string may take.
pub const MAX_VERSION_LEN: u32 = 256;

/// The most bytes that the name of a stream may take.
pub const MAX_STREAM_NAME_LEN: usize = 32;

/// What the bytes from `at` give as a version string: a length in four
/// bytes, then that many bytes of UTF-8. The result is the text's bytes.
pub open spec fn parse_version(b: Seq<u8>, at: int) -> Result<Seq<u8>, IoErrorKind> {
    let n = u32_at(b, at);
    if b.len() < at + 4 {
        Err(IoErrorKind::UnexpectedEof)
    } else if n > MAX_VERSION_LEN {
        Err(IoErrorKind::InvalidData)
    } else if b.len() < at + 4 + n {
        Err(IoErrorKind::UnexpectedEof)
    } else if !valid_utf8(b.subrange(at + 4, at + 4 + n)) {
        Err(IoErrorKind::InvalidData)
    } else {
        Ok(b.subrange(at + 4, at + 4 + n))
    }
}

/// Whether one of the four bytes from `at` is a NUL.
pub open spec fn chunk_has_nul(b: Seq<u8>, at: int) -> bool {
    b[at] == 0 || b[at + 1] == 0 || b[at + 2] == 0 || b[at + 3] == 0
}

/// How many bytes the name of a stream at `at` takes, where its first
/// `taken` bytes hold no NUL: chunks of four bytes, up to and including the
/// first that holds a NUL, that reaches 32 bytes or that the bytes cut short.
pub open spec fn stream_name_len_from(b: Seq<u8>, at: int, taken: int) -> int
    decreases MAX_STREAM_NAME_LEN - taken,
{
    if taken + 4 >= MAX_STREAM_NAME_LEN || at + taken + 4 > b.len() || chunk_has_nul(
        b,
        at + taken,
    ) {
        taken + 4
    } else {
        stream_name_len_from(b, at, taken + 4)
    }
}

/// How many bytes the name of a stream at `at` takes, padding included.
pub open spec fn stream_name_len(b: Seq<u8>, at: int) -> int {
    stream_name_len_from(b, at, 0)
}

/// What the bytes from `at` give as the name of a stream: the bytes of the
/// name with its padding, which have to be UTF-8.
pub open spec fn parse_stream_name(b: Seq<u8>, at: int) -> Result<Seq<u8>, IoErrorKind> {
    let n = stream_name_len(b, at);
    if b.len() < at + n {
        Err(IoErrorKind::UnexpectedEof)
    } else if !valid_utf8(b.subrange(at, at + n)) {
        Err(IoErrorKind::InvalidData)
    } else {
        Ok(b.subrange(at, at + n))
    }
}

/// The bytes of the text in `rest` that a NUL ends: those before the first
/// NUL, or all of `rest` where it holds none.
pub open spec fn nul_terminated(rest: Seq<u8>) -> Seq<u8> {
    let raw = rest.take(span_until(rest, 0) as int);
    if raw.len() > 0 && raw.last() == 0 {
        raw.drop_last()
    } else {
        raw
    }
}

/// The name of a stream takes between 4 and 32 bytes, a multiple of four.
pub proof fn lemma_stream_name_len(b: Seq<u8>, at: int, taken: int)
    requires
        0 <= taken < MAX_STREAM_NAME_LEN,
        taken % 4 == 0,
    ensures
        taken < stream_name_len_from(b, at, taken) <= MAX_STREAM_NAME_LEN,
        stream_name_len_from(b, at, taken) % 4 == 0,
    decreases MAX_STREAM_NAME_LEN - taken,
{
    if !(taken + 4 >= MAX_STREAM_NAME_LEN || at + taken + 4 > b.len() || chunk_has_nul(
        b,
        at + taken,
    )) {
        lemma_stream_name_len(b, at, taken + 4);
    }
}

impl ModuleRead {
    /// The bytes of the module. No read or seek changes them.
    pub closed spec fn bytes(&self) -> Seq<u8> {
        self.bytes@
    }

    /// The position of the next read, counted from the first byte.
    pub closed spec fn cursor(&self) -> u64 {
        self.pos
    }

    /// The position of the next read, as an integer to compute with.
    pub open spec fn position(&self) -> int {
        self.cursor() as int
    }

    /// Whether `n` more bytes can be read.
    pub open spec fn has(&self, n: int) -> bool {
        self.position() + n <= self.bytes().len()
    }

    /// The bytes from the cursor to the end; none where the cursor is
    /// beyond the end.
    pub open spec fn rest(&self) -> Seq<u8> {
        if self.position() <= self.bytes().len() {
            self.bytes().subrange(self.position(), self.bytes().len() as int)
        } else {
            Seq::empty()
        }
    }

    /// The bytes of a source are no more than a `usize` counts, and so no
    /// more than a position can hold: where `n` bytes can be read, the
    /// cursor can also pass over them.
    pub proof fn lemma_len(&self)
        ensures
            self.bytes().len() <= usize::MAX,
            self.bytes().len() <= u64::MAX,
            forall|n: int| 0 <= n && #[trigger] self.has(n) ==> !beyond(self.position() + n),
    {
        assert(self.bytes@.len() == self.bytes.len());
    }

    /// A source over `bytes`, with the cursor on the first of them.
    pub fn new(bytes: Vec<u8>) -> (data: Self)
        ensures
            data.bytes() == bytes@,
            data.position() == 0,
            data.bytes().len() <= usize::MAX,
    {
        assert(bytes@.len() == bytes.len());
        ModuleRead { bytes, pos: 0 }
    }

    /// Gives the bytes back.
    pub fn into_inner(self) -> (bytes: Vec<u8>)
        ensures
            bytes@ == self.bytes(),
    {
        self.bytes
    }

    /// Moves the cursor to `pos`, which may lie beyond the end.
    pub fn goto(&mut self, pos: u64) -> (r: Result<u64, IoErrorKind>)
        ensures
            r == Ok::<u64, IoErrorKind>(pos),
            final(self).bytes() == old(self).bytes(),
            final(self).position() == pos,
    {
        self.pos = pos;
        Ok(pos)
    }

    /// Moves the cursor by `skip_by`, forwards or backwards, and gives its
    /// new position. A move to before the first byte, or beyond what a
    /// position can hold, is refused and moves nothing.
    pub fn skip(&mut self, skip_by: i64) -> (r: Result<u64, IoErrorKind>)
        ensures
            final(self).bytes() == old(self).bytes(),
            0 <= old(self).position() + skip_by <= u64::MAX ==> r == Ok::<u64, IoErrorKind>(
                (old(self).position() + skip_by) as u64,
            ) && final(self).position() == old(self).position() + skip_by,
            !(0 <= old(self).position() + skip_by <= u64::MAX) ==> r == Err::<u64, IoErrorKind>(
                IoErrorKind::InvalidInput,
            ) && final(self).position() == old(self).position(),
    {
        match self.pos.checked_add_signed(skip_by) {
            Some(pos) => {
                self.pos = pos;
                Ok(pos)
            },
            None => Err(IoErrorKind::InvalidInput),
        }
    }

    /// The position of the cursor.
    pub fn pos(&mut self) -> (r: Result<u64, IoErrorKind>)
        ensures
            r == Ok::<u64, IoErrorKind>(old(self).position() as u64),
            final(self).bytes() == old(self).bytes(),
            final(self).position() == old(self).position(),
    {
        self.skip(0)
    }

    /// Fills `buf` with the next bytes and moves the cursor past them. Where
    /// fewer bytes are left than `buf` takes, nothing is read.
    pub fn read_exact(&mut self, buf: &mut [u8]) -> (r: Result<(), IoErrorKind>)
        ensures
            final(self).bytes() == old(self).bytes(),
            final(buf)@.len() == old(buf)@.len(),
            old(self).has(old(buf)@.len() as int) ==> r is Ok && final(self).position() == old(
                self,
            ).position() + old(buf)@.len() && final(buf)@ == old(self).bytes().subrange(
                old(self).position(),
                old(self).position() + old(buf)@.len(),
            ),
            !old(self).has(old(buf)@.len() as int) ==> r == Err::<(), IoErrorKind>(
                IoErrorKind::UnexpectedEof,
            ) && final(self).position() == old(self).position() && final(buf)@ == old(buf)@,
    {
        let n: usize = buf.len();
        let len: usize = self.bytes.len();
        if self.pos > len as u64 || n > len - self.pos as usize {
            return Err(IoErrorKind::UnexpectedEof);
        }
        let start: usize = self.pos as usize;
        let mut i: usize = 0;
        while i < n
            invariant
                i <= n,
                n == buf@.len(),
                start + n <= len,
                len == self.bytes@.len(),
                start == self.pos,
                self.bytes@ == old(self).bytes@,
                self.pos == old(self).pos,
                buf@.len() == old(buf)@.len(),
                forall|k: int| 0 <= k < i ==> buf@[k] == self.bytes@[start + k],
            decreases n - i,
        {
            buf[i] = self.bytes[start + i];
            i += 1;
        }
        self.pos = self.pos + n as u64;
        Ok(())
    }

    /// Appends to `buf` the bytes from the cursor up to and including the
    /// first `byte`, or up to the end where there is none, moves the cursor
    /// past them and gives their number.
    pub fn read_until(&mut self, byte: u8, buf: &mut Vec<u8>) -> (r: Result<usize, IoErrorKind>)
        ensures
            final(self).bytes() == old(self).bytes(),
            r == Ok::<usize, IoErrorKind>(span_until(old(self).rest(), byte) as usize),
            span_until(old(self).rest(), byte) <= old(self).rest().len(),
            final(buf)@ == old(buf)@ + old(self).rest().take(
                span_until(old(self).rest(), byte) as int,
            ),
            final(self).position() == old(self).position() + span_until(old(self).rest(), byte),
    {
        let len: usize = self.bytes.len();
        if self.pos >= len as u64 {
            return Ok(0);
        }
        let start: usize = self.pos as usize;
        let ghost rest = self.rest();
        let mut i: usize = start;
        let mut found: bool = false;
        assert(rest.skip(0) =~= rest);
        while i < len && !found
            invariant
                start <= i <= len,
                len == self.bytes@.len(),
                start == self.pos,
                *self == *old(self),
                rest == self.bytes@.subrange(start as int, len as int),
                buf@ == old(buf)@ + rest.take(i - start),
                !found ==> span_until(rest, byte) == (i - start) + span_until(
                    rest.skip(i - start),
                    byte,
                ),
                found ==> span_until(rest, byte) == i - start,
            decreases len - i,
        {
            let b: u8 = self.bytes[i];
            buf.push(b);
            assert(rest.skip(i - start).drop_first() =~= rest.skip(i + 1 - start));
            if b == byte {
                found = true;
            }
            i += 1;
        }
        let n: usize = i - start;
        self.pos = self.pos + n as u64;
        Ok(n)
    }

    /// The next `LEN` bytes.
    pub fn read_bytes<const LEN: usize>(&mut self) -> (r: Result<[u8; LEN], IoErrorKind>)
        ensures
            final(self).bytes() == old(self).bytes(),
            old(self).has(LEN as int) ==> final(self).position() == old(self).position() + LEN,
            old(self).has(LEN as int) ==> (r matches Ok(b) && b@ == old(self).bytes().subrange(
                old(self).position(),
                old(self).position() + LEN,
            )),
            !old(self).has(LEN as int) ==> r == Err::<[u8; LEN], IoErrorKind>(
                IoErrorKind::UnexpectedEof,
            ) && final(self).position() == old(self).position(),
    {
        let mut buf = [0u8; LEN];
        match self.read_exact(&mut buf) {
            Ok(()) => Ok(buf),
            Err(kind) => Err(kind),
        }
    }

    /// The next `len` bytes.
    pub fn read_vec(&mut self, len: usize) -> (r: Result<Vec<u8>, IoErrorKind>)
        ensures
            final(self).bytes() == old(self).bytes(),
            old(self).has(len as int) ==> final(self).position() == old(self).position() + len,
            old(self).has(len as int) ==> (r matches Ok(v) && v@ == old(self).bytes().subrange(
                old(self).position(),
                old(self).position() + len,
            )),
            !old(self).has(len as int) ==> r == Err::<Vec<u8>, IoErrorKind>(
                IoErrorKind::UnexpectedEof,
            ) && final(self).position() == old(self).position(),
    {
        let mut buf: Vec<u8> = vec![0u8; len];
        self.read_exact(buf.as_mut_slice())?;
        Ok(buf)
    }

    /// The next byte.
    pub fn u8(&mut self) -> (r: Result<u8, IoErrorKind>)
        ensures
            final(self).bytes() == old(self).bytes(),
            old(self).has(1) ==> r == Ok::<u8, IoErrorKind>(
                old(self).bytes()[old(self).position()],
            ) && final(self).position() == old(self).position() + 1,
            !old(self).has(1) ==> r == Err::<u8, IoErrorKind>(IoErrorKind::UnexpectedEof)
                && final(self).position() == old(self).position(),
    {
        match self.read_bytes::<1>() {
            Ok(b) => Ok(b[0]),
            Err(kind) => Err(kind),
        }
    }

    /// The next two bytes as a little-endian integer.
    pub fn u16(&mut self) -> (r: Result<u16, IoErrorKind>)
        ensures
            final(self).bytes() == old(self).bytes(),
            old(self).has(2) ==> r == Ok::<u16, IoErrorKind>(
                u16_at(old(self).bytes(), old(self).position()),
            ) && final(self).position() == old(self).position() + 2,
            !old(self).has(2) ==> r == Err::<u16, IoErrorKind>(IoErrorKind::UnexpectedEof)
                && final(self).position() == old(self).position(),
    {
        match self.read_bytes::<2>() {
            Ok(b) => Ok(u16_from_le(&b)),
            Err(kind) => Err(kind),
        }
    }

    /// The next four bytes as a little-endian integer.
    pub fn u32(&mut self) -> (r: Result<u32, IoErrorKind>)
        ensures
            final(self).bytes() == old(self).bytes(),
            old(self).has(4) ==> r == Ok::<u32, IoErrorKind>(
                u32_at(old(self).bytes(), old(self).position()),
            ) && final(self).position() == old(self).position() + 4,
            !old(self).has(4) ==> r == Err::<u32, IoErrorKind>(IoErrorKind::UnexpectedEof)
                && final(self).position() == old(self).position(),
    {
        match self.read_bytes::<4>() {
            Ok(b) => Ok(u32_from_le(&b)),
            Err(kind) => Err(kind),
        }
    }

    /// The next eight bytes as a little-endian integer.
    pub fn u64(&mut self) -> (r: Result<u64, IoErrorKind>)
        ensures
            final(self).bytes() == old(self).bytes(),
            old(self).has(8) ==> r == Ok::<u64, IoErrorKind>(
                u64_at(old(self).bytes(), old(self).position()),
            ) && final(self).position() == old(self).position() + 8,
            !old(self).has(8) ==> r == Err::<u64, IoErrorKind>(IoErrorKind::UnexpectedEof)
                && final(self).position() == old(self).position(),
    {
        match self.read_bytes::<8>() {
            Ok(b) => Ok(u64_from_le(&b)),
            Err(kind) => Err(kind),
        }
    }

    /// The next eight bytes as a data directory: its address, then its size.
    pub fn data_dir(&mut self) -> (r: Result<DataDirectory, IoErrorKind>)
        ensures
            final(self).bytes() == old(self).bytes(),
            old(self).has(8) ==> r == Ok::<DataDirectory, IoErrorKind>(
                data_dir_at(old(self).bytes(), old(self).position()),
            ) && final(self).position() == old(self).position() + 8,
            !old(self).has(8) ==> r == Err::<DataDirectory, IoErrorKind>(
                IoErrorKind::UnexpectedEof,
            ) && final(self).position() == old(self).position(),
    {
        let b: [u8; 8] = self.read_bytes::<8>()?;
        Ok(DataDirectory { rva: u32_in(b.as_slice(), 0), size: u32_in(b.as_slice(), 4) })
    }

    /// The next eight bytes as the name of a section. They are taken even
    /// where they are refused for not being UTF-8.
    pub fn section_name(&mut self) -> (r: Result<ArrayString<8>, IoErrorKind>)
        ensures
            final(self).bytes() == old(self).bytes(),
            !old(self).has(8) ==> r == Err::<ArrayString<8>, IoErrorKind>(
                IoErrorKind::UnexpectedEof,
            ) && final(self).position() == old(self).position(),
            old(self).has(8) ==> final(self).position() == old(self).position() + 8,
            old(self).has(8) ==> ({
                let raw = old(self).bytes().subrange(
                    old(self).position(),
                    old(self).position() + 8,
                );
                if valid_utf8(raw) {
                    r matches Ok(name) && section_name_bytes(name) == raw
                } else {
                    r == Err::<ArrayString<8>, IoErrorKind>(IoErrorKind::InvalidData)
                }
            }),
    {
        let b: [u8; 8] = self.read_bytes::<8>()?;
        match section_name_from_bytes(&b) {
            Ok(name) => Ok(name),
            Err(e) => Err(utf8_err(e)),
        }
    }
    /// The version string at the cursor: its length, then its text, of at
    /// most 256 bytes.
    pub fn cli_version(&mut self) -> (r: Result<ArrayString<256>, IoErrorKind>)
        ensures
            final(self).bytes() == old(self).bytes(),
            match r {
                Ok(v) => parse_version(old(self).bytes(), old(self).position()) == Ok::<
                    Seq<u8>,
                    IoErrorKind,
                >(version_bytes(v)) && final(self).position() == old(self).position() + 4
                    + version_bytes(v).len(),
                Err(kind) => parse_version(old(self).bytes(), old(self).position()) == Err::<
                    Seq<u8>,
                    IoErrorKind,
                >(kind),
            },
    {
        let len: u32 = self.u32()?;
        if len > MAX_VERSION_LEN {
            return Err(IoErrorKind::InvalidData);
        }
        let buf: Vec<u8> = self.read_vec(len as usize)?;
        match str_from_utf8(buf.as_slice()) {
            // the text fits: it is no longer than the 256 bytes that were allowed
            Ok(s) => Ok(version_from_str(s).unwrap()),
            Err(e) => Err(utf8_err(e)),
        }
    }

    /// The name of a stream at the cursor: chunks of four bytes, up to and
    /// including the first that holds a NUL, 32 bytes at most.
    pub fn stream_name(&mut self) -> (r: Result<ArrayString<32>, IoErrorKind>)
        ensures
            final(self).bytes() == old(self).bytes(),
            match r {
                Ok(name) => parse_stream_name(old(self).bytes(), old(self).position()) == Ok::<
                    Seq<u8>,
                    IoErrorKind,
                >(stream_name_bytes(name)) && final(self).position() == old(self).position()
                    + stream_name_bytes(name).len(),
                Err(kind) => parse_stream_name(old(self).bytes(), old(self).position()) == Err::<
                    Seq<u8>,
                    IoErrorKind,
                >(kind),
            },
    {
        let ghost b = self.bytes();
        let ghost at = self.position();
        let mut strbuf: ArrayVec<u8, 32> = name_buffer_new();
        let ghost mut taken: int = 0;
        loop
            invariant
                self.bytes() == b,
                b == old(self).bytes(),
                at == old(self).position(),
                0 <= taken < MAX_STREAM_NAME_LEN,
                taken % 4 == 0,
                self.position() == at + taken,
                taken == 0 ==> name_buffer_bytes(strbuf) == Seq::<u8>::empty(),
                taken > 0 ==> at + taken <= b.len() && name_buffer_bytes(strbuf) == b.subrange(
                    at,
                    at + taken,
                ),
                stream_name_len(b, at) == stream_name_len_from(b, at, taken),
            decreases MAX_STREAM_NAME_LEN - taken,
        {
            let buf: [u8; 4] = self.read_bytes::<4>()?;
            // four more bytes fit: fewer than 32 were gathered
            name_buffer_extend(&mut strbuf, buf.as_slice()).unwrap();
            proof {
                assert(name_buffer_bytes(strbuf) =~= b.subrange(at, at + taken + 4));
                assert(buf@[0] == b[at + taken] && buf@[1] == b[at + taken + 1] && buf@[2] == b[at
                    + taken + 2] && buf@[3] == b[at + taken + 3]);
                taken = taken + 4;
            }
            let gathered: &[u8] = name_buffer_slice(&strbuf);
            if gathered.len() == MAX_STREAM_NAME_LEN || buf[0] == 0 || buf[1] == 0 || buf[2] == 0
                || buf[3] == 0 {
                return match str_from_utf8(gathered) {
                    // the name fits: no more than 32 bytes were gathered
                    Ok(s) => Ok(stream_name_from_str(s).unwrap()),
                    Err(e) => Err(utf8_err(e)),
                };
            }
        }
    }

    /// The text at the cursor that a NUL ends, or that runs to the end of
    /// the bytes. The cursor moves past the NUL, also where the text is
    /// refused for not being UTF-8.
    pub fn null_terminated_str(&mut self) -> (r: Result<String, IoErrorKind>)
        ensures
            final(self).bytes() == old(self).bytes(),
            final(self).position() == old(self).position() + span_until(old(self).rest(), 0),
            valid_utf8(nul_terminated(old(self).rest())) ==> (r matches Ok(s) && encode_utf8(s@)
                == nul_terminated(old(self).rest())),
            !valid_utf8(nul_terminated(old(self).rest())) ==> r == Err::<String, IoErrorKind>(
                IoErrorKind::InvalidData,
            ),
    {
        let mut strbuf: Vec<u8> = Vec::new();
        let n: usize = self.read_until(0, &mut strbuf)?;
        let len: usize = strbuf.len();
        if len > 0 && strbuf[len - 1] == 0 {
            strbuf.pop();
        }
        match str_from_utf8(strbuf.as_slice()) {
            Ok(s) => Ok(s.to_owned()),
            Err(e) => Err(utf8_err(e)),
        }
    }
}

} // verus!
