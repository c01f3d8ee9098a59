use vstd::prelude::*;

use crate::path::{entry_name, entry_name_spec};

verus! {

/// Number of distinct `u64` values; millisecond stamps wrap modulo this.
pub open spec fn u64_modulus() -> int {
    0x1_0000_0000_0000_0000
}

/// When an object was last modified, as the operating system reported it.
#[derive(Clone, Copy, Debug, PartialEq, Eq, Structural)]
pub enum Modified {
    /// The platform gave no modification time.
    Unavailable,
    /// The modification time lies before 1970-01-01T00:00:00Z.
    BeforeEpoch,
    /// The time elapsed since the Unix epoch, in whole seconds plus the
    /// nanoseconds of the last, partial second.
    SinceEpoch { secs: u64, subsec_nanos: u32 },
}

/// Whole milliseconds in `secs` seconds and `subsec_nanos` nanoseconds,
/// reduced to 64 bits.
pub open spec fn millis_since_epoch(secs: u64, subsec_nanos: u32) -> int {
    (secs * 1000 + subsec_nanos / 1_000_000) % u64_modulus()
}

/// The `mtimeMs` field that describes `m`: absent unless the time is known
/// and not before the epoch.
pub open spec fn mtime_ms_spec(m: Modified) -> Option<u64> {
    match m {
        Modified::SinceEpoch { secs, subsec_nanos } => Some(
            millis_since_epoch(secs, subsec_nanos) as u64,
        ),
        _ => None,
    }
}

/// Milliseconds since the Unix epoch, truncated to 64 bits, or `None` when
/// the modification time is unknown or lies before the epoch.
pub fn mtime_ms(m: Modified) -> (r: Option<u64>)
    ensures
        r == mtime_ms_spec(m),
{
    match m {
        Modified::SinceEpoch { secs, subsec_nanos } => {
            let total: u128 = (secs as u128) * 1000 + (subsec_nanos / 1_000_000) as u128;
            let wrapped: u128 = total % 0x1_0000_0000_0000_0000u128;
            Some(wrapped as u64)
        },
        _ => None,
    }
}

/// What the operating system reported of one filesystem object: whether it
/// is a directory, its length in bytes, and its modification time.
#[derive(Clone, Copy, Debug, PartialEq, Eq, Structural)]
pub struct EntryMeta {
    pub is_dir: bool,
    pub len: u64,
    pub modified: Modified,
}

/// The description of one filesystem object handed to the front end.
#[derive(Clone, Debug, PartialEq, Eq)]
pub struct FsEntry {
    /// Final component of the path, or the whole path when it has none.
    pub name: String,
    /// The path the description was built from.
    pub path: String,
    pub is_directory: bool,
    /// Length in bytes as the metadata gives it, also for directories.
    pub size: u64,
    /// Milliseconds since the Unix epoch, when known and not before it.
    pub mtime_ms: Option<u64>,
}

/// `e` is the description of the object at `path` whose metadata is `meta`.
pub open spec fn describes(e: FsEntry, path: Seq<char>, meta: EntryMeta) -> bool {
    &&& e.name@ == entry_name_spec(path)
    &&& e.path@ == path
    &&& e.is_directory == meta.is_dir
    &&& e.size == meta.len
    &&& e.mtime_ms == mtime_ms_spec(meta.modified)
}

/// Builds the description of the object at `path` from its metadata.
pub fn to_entry(path: &str, meta: &EntryMeta) -> (e: FsEntry)
    ensures
        describes(e, path@, *meta),
{
    FsEntry {
        name: entry_name(path),
        path: path.to_owned(),
        is_directory: meta.is_dir,
        size: meta.len,
        mtime_ms: mtime_ms(meta.modified),
    }
}

/// Describes each child of a directory, in the order in which the children
/// were enumerated.
pub fn list_entries(children: &Vec<(String, EntryMeta)>) -> (r: Vec<FsEntry>)
    ensures
        r@.len() == children@.len(),
        forall|i: int|
            0 <= i < r@.len() ==> describes(#[trigger] r@[i], children@[i].0@, children@[i].1),
{
    let mut out: Vec<FsEntry> = Vec::new();
    let mut k: usize = 0;
    while k < children.len()
        invariant
            k <= children@.len(),
            out@.len() == k,
            forall|i: int|
                0 <= i < k ==> describes(#[trigger] out@[i], children@[i].0@, children@[i].1),
        decreases children@.len() - k,
    {
        let child = &children[k];
        out.push(to_entry(child.0.as_str(), &child.1));
        k = k + 1;
    }
    out
}

} // verus!
