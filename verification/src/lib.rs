//! A read-only structural decoder for managed (.NET/CLR) executable images:
//! the PE/COFF container, the CLR runtime header, the ECMA-335 metadata root
//! and the relational table stream that describes the types and members of
//! an assembly. It reads files that nobody vouches for, and it never runs
//! what they hold.
//!
//! # The chain
//!
//! An image is decoded in stages, each of which finds the next:
//!
//! 1. [`pe`]: the image header, with the section table that maps virtual
//!    addresses to file offsets;
//! 2. [`metadata`]: the CLR runtime header, at the address that the image
//!    header gives, and the metadata root with its five streams, at the
//!    address that the CLR runtime header gives;
//! 3. [`schema`]: the header of the table stream, from which the width of
//!    every field, the width of a row of every table and the offset of
//!    every table follow;
//! 4. [`schema::table`]: the rows, each read where the schema puts it.
//!
//! [`read`] runs the chain, and [`reader`] is the byte source that all
//! stages read from: the bytes of the file and a cursor.
//!
//! # What the contracts say
//!
//! For every stage a specification function, named `parse_` and the stage,
//! says what a sequence of bytes holds: a value, or the first reason, in the
//! order of the file, for which the bytes are refused. The function that
//! reads the stage is proved to give exactly that, for every sequence of
//! bytes and every position of the cursor. No function that reads has a
//! precondition, none panics, and none changes the bytes.
//!
//! Values that hold text of the `arrayvec` crate are compared through their
//! views, in which a text is the bytes it holds.
//!
//! # What is taken on trust
//!
//! The module [`text`] states, without proof, what the UTF-8 check of `std`
//! and the strings and vectors of `arrayvec` do. Everything else is proved
//! from those statements and from the specifications that `vstd` gives of
//! `std`.

pub mod bytes;
pub mod error;
pub mod metadata;
pub mod pe;
pub mod read;
pub mod reader;
pub mod schema;
pub mod text;
