//! Filesystem primitives for a desktop editor's front end: the verified
//! decisions behind reading, writing, listing, describing and removing
//! entries. The operating-system calls themselves are made by the caller,
//! which hands the results to this library as plain values.

pub mod entry;
pub mod path;
pub mod remove;
