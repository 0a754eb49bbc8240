//! The values that rows are made of, under one path: the flags and
//! enumerations, and the indices into heaps and tables.

pub use crate::schema::index::BlobIndex;
pub use crate::schema::index::GuidIndex;
pub use crate::schema::index::HasConstant;
pub use crate::schema::index::ResolutionScope;
pub use crate::schema::index::RowIndex;
pub use crate::schema::index::StringIndex;
pub use crate::schema::index::TypeDefOrRef;
pub use crate::schema::values::AssemblyFlags;
pub use crate::schema::values::AssemblyHashAlgorithm;
