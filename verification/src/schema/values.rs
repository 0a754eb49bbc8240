//! The flags and enumerations that rows hold.

use crate::bytes::u32_at;
use crate::error::IoErrorKind;
use crate::error::ReadImageError;
use crate::error::ReadImageErrorView;
use crate::error::ReadImageResult;
use crate::reader::io;
use crate::reader::ModuleRead;
use crate::schema::parsing::DbMeta;
use crate::schema::parsing::DbRead;
use crate::schema::parsing::Schema;
use vstd::prelude::*;

verus! {

/// The assembly holds the full public key.
pub const PUBLIC_KEY: u32 = 0x1;

/// The runtime may bind to another version of the assembly.
pub const RETARGETABLE: u32 = 0x100;

/// The just-in-time compiler should not optimise the code.
pub const DISABLE_JIT_COMPILE_OPTIMIZER: u32 = 0x4000;

/// The just-in-time compiler should keep what a debugger needs.
pub const ENABLE_JIT_COMPILE_TRACKING: u32 = 0x8000;

/// Every flag of an assembly that is defined.
pub const ALL_ASSEMBLY_FLAGS: u32 = 0xC101;

/// The flags of an assembly. Only defined flags are set.
#[derive(Clone, Copy, Debug, PartialEq, Eq, Hash)]
pub struct AssemblyFlags {
    bits: u32,
}

/// The algorithm that hashed the files of an assembly.
#[derive(Clone, Copy, Debug, PartialEq, Eq, Hash)]
pub enum AssemblyHashAlgorithm {
    /// The files are not hashed.
    NoHash,
    MD5,
    SHA1,
}

/// Whether `bits` sets defined flags of an assembly only.
pub open spec fn assembly_flags_defined(bits: u32) -> bool {
    bits & !ALL_ASSEMBLY_FLAGS == 0
}

/// The algorithm that `value` stands for, if it stands for one.
pub open spec fn hash_algorithm_of(value: u32) -> Option<AssemblyHashAlgorithm> {
    if value == 0 {
        Some(AssemblyHashAlgorithm::NoHash)
    } else if value == 0x8003 {
        Some(AssemblyHashAlgorithm::MD5)
    } else if value == 0x8004 {
        Some(AssemblyHashAlgorithm::SHA1)
    } else {
        None
    }
}

impl AssemblyFlags {
    /// What every set of flags holds: defined flags only.
    #[verifier::type_invariant]
    spec fn defined(self) -> bool {
        assembly_flags_defined(self.bits)
    }

    /// The flags as bits.
    pub closed spec fn spec_bits(self) -> u32 {
        self.bits
    }

    /// The flags as bits, all of which are defined.
    #[verifier::when_used_as_spec(spec_bits)]
    pub fn bits(self) -> (bits: u32)
        ensures
            bits == self.spec_bits(),
            assembly_flags_defined(bits),
    {
        proof {
            use_type_invariant(self);
        }
        self.bits
    }

    /// The flags that `bits` sets, where all of them are defined.
    pub fn from_bits(bits: u32) -> (r: Option<AssemblyFlags>)
        ensures
            r == if assembly_flags_defined(bits) {
                Some(flags_of(bits))
            } else {
                None
            },
    {
        if bits & !ALL_ASSEMBLY_FLAGS == 0 {
            Some(AssemblyFlags { bits })
        } else {
            None
        }
    }

    /// Whether every flag of `mask` is set.
    pub fn contains(self, mask: u32) -> (r: bool)
        ensures
            r == (self.spec_bits() & mask == mask),
    {
        self.bits & mask == mask
    }
}

impl AssemblyHashAlgorithm {
    /// The number that stands for the algorithm in the file.
    pub open spec fn spec_value(self) -> u32 {
        match self {
            AssemblyHashAlgorithm::NoHash => 0,
            AssemblyHashAlgorithm::MD5 => 0x8003,
            AssemblyHashAlgorithm::SHA1 => 0x8004,
        }
    }

    /// The number that stands for the algorithm in the file.
    #[verifier::when_used_as_spec(spec_value)]
    pub fn value(self) -> (value: u32)
        ensures
            value == self.spec_value(),
    {
        match self {
            AssemblyHashAlgorithm::NoHash => 0,
            AssemblyHashAlgorithm::MD5 => 0x8003,
            AssemblyHashAlgorithm::SHA1 => 0x8004,
        }
    }

    /// The algorithm that `value` stands for, if it stands for one.
    pub fn from_value(value: u32) -> (r: Option<AssemblyHashAlgorithm>)
        ensures
            r == hash_algorithm_of(value),
            r matches Some(algorithm) ==> algorithm.spec_value() == value,
    {
        if value == 0 {
            Some(AssemblyHashAlgorithm::NoHash)
        } else if value == 0x8003 {
            Some(AssemblyHashAlgorithm::MD5)
        } else if value == 0x8004 {
            Some(AssemblyHashAlgorithm::SHA1)
        } else {
            None
        }
    }
}

impl DbRead for AssemblyFlags {
    open spec fn width(db: Schema) -> nat {
        4
    }

    open spec fn decode(db: Schema, bytes: Seq<u8>) -> Result<AssemblyFlags, ReadImageErrorView> {
        if assembly_flags_defined(u32_at(bytes, 0)) {
            Ok(flags_of(u32_at(bytes, 0)))
        } else {
            Err(ReadImageErrorView::IO(IoErrorKind::InvalidData))
        }
    }

    fn size(db: DbMeta<'_>) -> (n: u8) {
        4
    }

    fn read(db: DbMeta<'_>, data: &mut ModuleRead) -> (r: ReadImageResult<AssemblyFlags>) {
        let bits: u32 = io(data.u32())?;
        match AssemblyFlags::from_bits(bits) {
            Some(flags) => Ok(flags),
            None => Err(ReadImageError::IO(IoErrorKind::InvalidData)),
        }
    }
}

/// The flags whose bits are `bits`.
pub closed spec fn flags_of(bits: u32) -> AssemblyFlags {
    AssemblyFlags { bits }
}

/// `flags_of` gives the flags with those bits, and no others have them.
pub proof fn lemma_flags_of(bits: u32)
    ensures
        flags_of(bits).spec_bits() == bits,
        forall|flags: AssemblyFlags| flags.spec_bits() == bits ==> flags == flags_of(bits),
{
}

impl DbRead for AssemblyHashAlgorithm {
    open spec fn width(db: Schema) -> nat {
        4
    }

    open spec fn decode(db: Schema, bytes: Seq<u8>) -> Result<
        AssemblyHashAlgorithm,
        ReadImageErrorView,
    > {
        match hash_algorithm_of(u32_at(bytes, 0)) {
            Some(algorithm) => Ok(algorithm),
            None => Err(ReadImageErrorView::IO(IoErrorKind::Other)),
        }
    }

    fn size(db: DbMeta<'_>) -> (n: u8) {
        4
    }

    fn read(db: DbMeta<'_>, data: &mut ModuleRead) -> (r: ReadImageResult<AssemblyHashAlgorithm>) {
        let raw: u32 = io(data.u32())?;
        match AssemblyHashAlgorithm::from_value(raw) {
            Some(algorithm) => Ok(algorithm),
            None => Err(ReadImageError::IO(IoErrorKind::Other)),
        }
    }
}

} // verus!
