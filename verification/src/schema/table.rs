//! The rows of the tables that this library decodes. Each kind of row is a
//! list of fields: the width of the row and the way to read it follow from
//! that list alone, field by field.

use crate::error::ReadImageErrorView;
use crate::error::ReadImageResult;
use crate::reader::ModuleRead;
use crate::schema::index::BlobIndex;
use crate::schema::index::GuidIndex;
use crate::schema::index::ResolutionScope;
use crate::schema::index::StringIndex;
use crate::schema::parsing::field_at;
use crate::schema::parsing::DbMeta;
use crate::schema::parsing::DbRead;
use crate::schema::parsing::Schema;
use crate::schema::parsing::Table;
use crate::schema::parsing::TableIndex;
use crate::schema::values::AssemblyFlags;
use crate::schema::values::AssemblyHashAlgorithm;
use vstd::prelude::*;

verus! {

/// One row of the `Module` table: the module that the image holds.
#[derive(Clone, Copy, Debug, PartialEq, Eq, Hash)]
pub struct Module {
    pub generation: u16,
    pub name: StringIndex,
    pub mvid: GuidIndex,
    pub enc_id: GuidIndex,
    pub enc_base_id: GuidIndex,
}

/// One row of the `TypeRef` table: a type that another scope defines.
#[derive(Clone, Copy, Debug, PartialEq, Eq, Hash)]
pub struct TypeRef {
    pub resolution_scope: ResolutionScope,
    /// The name of the type, without its namespace.
    pub name: StringIndex,
    pub type_namespace: StringIndex,
}

/// One row of the `Assembly` table: the assembly that the image belongs to.
#[derive(Clone, Copy, Debug, PartialEq, Eq, Hash)]
pub struct Assembly {
    pub hash_alg_id: AssemblyHashAlgorithm,
    pub major_version: u16,
    pub minor_version: u16,
    pub build_number: u16,
    pub revision_number: u16,
    pub flags: AssemblyFlags,
    pub public_key: BlobIndex,
    pub name: StringIndex,
    pub culture: StringIndex,
}

/// One row of the `AssemblyOS` table.
#[derive(Clone, Copy, Debug, PartialEq, Eq, Hash)]
pub struct AssemblyOs {
    pub os_platform_id: u32,
    pub os_major_version: u32,
    pub os_minor_version: u32,
}

/// One row of the `AssemblyProcessor` table.
#[derive(Clone, Copy, Debug, PartialEq, Eq, Hash)]
pub struct AssemblyProcessor {
    pub processor: u32,
}

impl Module {
    /// The sum of the widths of the fields of a row.
    pub open spec fn fields_width(db: Schema) -> nat {
        u16::width(db) + StringIndex::width(db) + GuidIndex::width(db) + GuidIndex::width(db)
            + GuidIndex::width(db)
    }
}

impl Table for Module {
    open spec fn index() -> TableIndex {
        TableIndex::Module
    }

    open spec fn row_width(db: Schema) -> nat {
        Module::fields_width(db)
    }

    open spec fn parse_row(db: Schema, b: Seq<u8>, at: int) -> Result<Module, ReadImageErrorView> {
        let generation = field_at::<u16>(db, b, at);
        let at = at + u16::width(db);
        let name = field_at::<StringIndex>(db, b, at);
        let at = at + StringIndex::width(db);
        let mvid = field_at::<GuidIndex>(db, b, at);
        let at = at + GuidIndex::width(db);
        let enc_id = field_at::<GuidIndex>(db, b, at);
        let at = at + GuidIndex::width(db);
        let enc_base_id = field_at::<GuidIndex>(db, b, at);
        if let Err(e) = generation {
            Err(e)
        } else if let Err(e) = name {
            Err(e)
        } else if let Err(e) = mvid {
            Err(e)
        } else if let Err(e) = enc_id {
            Err(e)
        } else if let Err(e) = enc_base_id {
            Err(e)
        } else {
            Ok(
                Module {
                    generation: generation->Ok_0,
                    name: name->Ok_0,
                    mvid: mvid->Ok_0,
                    enc_id: enc_id->Ok_0,
                    enc_base_id: enc_base_id->Ok_0,
                },
            )
        }
    }

    proof fn lemma_row(db: Schema, b: Seq<u8>, at: int) {
    }

    fn table() -> (table: TableIndex) {
        TableIndex::Module
    }

    fn row_size(db: DbMeta<'_>) -> (n: u8) {
        u16::size(db) + StringIndex::size(db) + GuidIndex::size(db) + GuidIndex::size(db)
            + GuidIndex::size(db)
    }

    fn row(db: DbMeta<'_>, data: &mut ModuleRead) -> (r: ReadImageResult<Module>) {
        let generation: u16 = u16::read(db, data)?;
        let name: StringIndex = StringIndex::read(db, data)?;
        let mvid: GuidIndex = GuidIndex::read(db, data)?;
        let enc_id: GuidIndex = GuidIndex::read(db, data)?;
        let enc_base_id: GuidIndex = GuidIndex::read(db, data)?;
        Ok(Module { generation, name, mvid, enc_id, enc_base_id })
    }
}

impl TypeRef {
    /// The sum of the widths of the fields of a row.
    pub open spec fn fields_width(db: Schema) -> nat {
        ResolutionScope::width(db) + StringIndex::width(db) + StringIndex::width(db)
    }
}

impl Table for TypeRef {
    open spec fn index() -> TableIndex {
        TableIndex::TypeRef
    }

    open spec fn row_width(db: Schema) -> nat {
        TypeRef::fields_width(db)
    }

    open spec fn parse_row(db: Schema, b: Seq<u8>, at: int) -> Result<TypeRef, ReadImageErrorView> {
        let resolution_scope = field_at::<ResolutionScope>(db, b, at);
        let at = at + ResolutionScope::width(db);
        let name = field_at::<StringIndex>(db, b, at);
        let at = at + StringIndex::width(db);
        let type_namespace = field_at::<StringIndex>(db, b, at);
        if let Err(e) = resolution_scope {
            Err(e)
        } else if let Err(e) = name {
            Err(e)
        } else if let Err(e) = type_namespace {
            Err(e)
        } else {
            Ok(
                TypeRef {
                    resolution_scope: resolution_scope->Ok_0,
                    name: name->Ok_0,
                    type_namespace: type_namespace->Ok_0,
                },
            )
        }
    }

    proof fn lemma_row(db: Schema, b: Seq<u8>, at: int) {
    }

    fn table() -> (table: TableIndex) {
        TableIndex::TypeRef
    }

    fn row_size(db: DbMeta<'_>) -> (n: u8) {
        ResolutionScope::size(db) + StringIndex::size(db) + StringIndex::size(db)
    }

    fn row(db: DbMeta<'_>, data: &mut ModuleRead) -> (r: ReadImageResult<TypeRef>) {
        let resolution_scope: ResolutionScope = ResolutionScope::read(db, data)?;
        let name: StringIndex = StringIndex::read(db, data)?;
        let type_namespace: StringIndex = StringIndex::read(db, data)?;
        Ok(TypeRef { resolution_scope, name, type_namespace })
    }
}

impl Assembly {
    /// The sum of the widths of the fields of a row.
    pub open spec fn fields_width(db: Schema) -> nat {
        AssemblyHashAlgorithm::width(db) + u16::width(db) + u16::width(db) + u16::width(db)
            + u16::width(db) + AssemblyFlags::width(db) + BlobIndex::width(db)
            + StringIndex::width(db) + StringIndex::width(db)
    }
}

impl Table for Assembly {
    open spec fn index() -> TableIndex {
        TableIndex::Assembly
    }

    open spec fn row_width(db: Schema) -> nat {
        Assembly::fields_width(db)
    }

    open spec fn parse_row(db: Schema, b: Seq<u8>, at: int) -> Result<
        Assembly,
        ReadImageErrorView,
    > {
        let hash_alg_id = field_at::<AssemblyHashAlgorithm>(db, b, at);
        let at = at + AssemblyHashAlgorithm::width(db);
        let major_version = field_at::<u16>(db, b, at);
        let at = at + u16::width(db);
        let minor_version = field_at::<u16>(db, b, at);
        let at = at + u16::width(db);
        let build_number = field_at::<u16>(db, b, at);
        let at = at + u16::width(db);
        let revision_number = field_at::<u16>(db, b, at);
        let at = at + u16::width(db);
        let flags = field_at::<AssemblyFlags>(db, b, at);
        let at = at + AssemblyFlags::width(db);
        let public_key = field_at::<BlobIndex>(db, b, at);
        let at = at + BlobIndex::width(db);
        let name = field_at::<StringIndex>(db, b, at);
        let at = at + StringIndex::width(db);
        let culture = field_at::<StringIndex>(db, b, at);
        if let Err(e) = hash_alg_id {
            Err(e)
        } else if let Err(e) = major_version {
            Err(e)
        } else if let Err(e) = minor_version {
            Err(e)
        } else if let Err(e) = build_number {
            Err(e)
        } else if let Err(e) = revision_number {
            Err(e)
        } else if let Err(e) = flags {
            Err(e)
        } else if let Err(e) = public_key {
            Err(e)
        } else if let Err(e) = name {
            Err(e)
        } else if let Err(e) = culture {
            Err(e)
        } else {
            Ok(
                Assembly {
                    hash_alg_id: hash_alg_id->Ok_0,
                    major_version: major_version->Ok_0,
                    minor_version: minor_version->Ok_0,
                    build_number: build_number->Ok_0,
                    revision_number: revision_number->Ok_0,
                    flags: flags->Ok_0,
                    public_key: public_key->Ok_0,
                    name: name->Ok_0,
                    culture: culture->Ok_0,
                },
            )
        }
    }

    proof fn lemma_row(db: Schema, b: Seq<u8>, at: int) {
    }

    fn table() -> (table: TableIndex) {
        TableIndex::Assembly
    }

    fn row_size(db: DbMeta<'_>) -> (n: u8) {
        AssemblyHashAlgorithm::size(db) + u16::size(db) + u16::size(db) + u16::size(db)
            + u16::size(db) + AssemblyFlags::size(db) + BlobIndex::size(db)
            + StringIndex::size(db) + StringIndex::size(db)
    }

    fn row(db: DbMeta<'_>, data: &mut ModuleRead) -> (r: ReadImageResult<Assembly>) {
        let hash_alg_id: AssemblyHashAlgorithm = AssemblyHashAlgorithm::read(db, data)?;
        let major_version: u16 = u16::read(db, data)?;
        let minor_version: u16 = u16::read(db, data)?;
        let build_number: u16 = u16::read(db, data)?;
        let revision_number: u16 = u16::read(db, data)?;
        let flags: AssemblyFlags = AssemblyFlags::read(db, data)?;
        let public_key: BlobIndex = BlobIndex::read(db, data)?;
        let name: StringIndex = StringIndex::read(db, data)?;
        let culture: StringIndex = StringIndex::read(db, data)?;
        Ok(
            Assembly {
                hash_alg_id,
                major_version,
                minor_version,
                build_number,
                revision_number,
                flags,
                public_key,
                name,
                culture,
            },
        )
    }
}

impl AssemblyOs {
    /// The sum of the widths of the fields of a row.
    pub open spec fn fields_width(db: Schema) -> nat {
        u32::width(db) + u32::width(db) + u32::width(db)
    }
}

impl Table for AssemblyOs {
    open spec fn index() -> TableIndex {
        TableIndex::AssemblyOs
    }

    open spec fn row_width(db: Schema) -> nat {
        AssemblyOs::fields_width(db)
    }

    open spec fn parse_row(db: Schema, b: Seq<u8>, at: int) -> Result<
        AssemblyOs,
        ReadImageErrorView,
    > {
        let os_platform_id = field_at::<u32>(db, b, at);
        let at = at + u32::width(db);
        let os_major_version = field_at::<u32>(db, b, at);
        let at = at + u32::width(db);
        let os_minor_version = field_at::<u32>(db, b, at);
        if let Err(e) = os_platform_id {
            Err(e)
        } else if let Err(e) = os_major_version {
            Err(e)
        } else if let Err(e) = os_minor_version {
            Err(e)
        } else {
            Ok(
                AssemblyOs {
                    os_platform_id: os_platform_id->Ok_0,
                    os_major_version: os_major_version->Ok_0,
                    os_minor_version: os_minor_version->Ok_0,
                },
            )
        }
    }

    proof fn lemma_row(db: Schema, b: Seq<u8>, at: int) {
    }

    fn table() -> (table: TableIndex) {
        TableIndex::AssemblyOs
    }

    fn row_size(db: DbMeta<'_>) -> (n: u8) {
        u32::size(db) + u32::size(db) + u32::size(db)
    }

    fn row(db: DbMeta<'_>, data: &mut ModuleRead) -> (r: ReadImageResult<AssemblyOs>) {
        let os_platform_id: u32 = u32::read(db, data)?;
        let os_major_version: u32 = u32::read(db, data)?;
        let os_minor_version: u32 = u32::read(db, data)?;
        Ok(AssemblyOs { os_platform_id, os_major_version, os_minor_version })
    }
}

impl AssemblyProcessor {
    /// The sum of the widths of the fields of a row.
    pub open spec fn fields_width(db: Schema) -> nat {
        u32::width(db)
    }
}

impl Table for AssemblyProcessor {
    open spec fn index() -> TableIndex {
        TableIndex::AssemblyProcessor
    }

    open spec fn row_width(db: Schema) -> nat {
        AssemblyProcessor::fields_width(db)
    }

    open spec fn parse_row(db: Schema, b: Seq<u8>, at: int) -> Result<
        AssemblyProcessor,
        ReadImageErrorView,
    > {
        let processor = field_at::<u32>(db, b, at);
        if let Err(e) = processor {
            Err(e)
        } else {
            Ok(
                AssemblyProcessor {
                    processor: processor->Ok_0,
                },
            )
        }
    }

    proof fn lemma_row(db: Schema, b: Seq<u8>, at: int) {
    }

    fn table() -> (table: TableIndex) {
        TableIndex::AssemblyProcessor
    }

    fn row_size(db: DbMeta<'_>) -> (n: u8) {
        u32::size(db)
    }

    fn row(db: DbMeta<'_>, data: &mut ModuleRead) -> (r: ReadImageResult<AssemblyProcessor>) {
        let processor: u32 = u32::read(db, data)?;
        Ok(AssemblyProcessor { processor })
    }
}

} // verus!
