use vstd::prelude::*;

verus! {

/// The final component of the path `p`, as `std::path::Path::file_name`
/// finds it.
pub uninterp spec fn final_component(p: Seq<char>) -> Option<Seq<char>>;

/// The path `p` without its final component, as `std::path::Path::parent`
/// finds it.
pub uninterp spec fn parent_of(p: Seq<char>) -> Option<Seq<char>>;

/// The characters of an optional string.
pub open spec fn opt_chars(o: Option<String>) -> Option<Seq<char>> {
    match o {
        Some(s) => Some(s@),
        None => None,
    }
}

/// The name under which the object at `p` is described: its final
/// component, or the whole path when it has none.
pub open spec fn entry_name_spec(p: Seq<char>) -> Seq<char> {
    match final_component(p) {
        Some(n) => n,
        None => p,
    }
}

/// Relies on `std::path::Path::file_name` for the final component of a path.
/// The path is valid UTF-8, so the lossy conversion of the component keeps
/// every character.
#[verifier::external_body]
fn file_name(path: &str) -> (r: Option<String>)
    ensures
        opt_chars(r) == final_component(path@),
{
    std::path::Path::new(path).file_name().map(|n| n.to_string_lossy().into_owned())
}

/// Relies on `std::path::Path::parent` for the path without its final
/// component. The path is valid UTF-8, so the lossy conversion of the parent
/// keeps every character.
#[verifier::external_body]
fn parent(path: &str) -> (r: Option<String>)
    ensures
        opt_chars(r) == parent_of(path@),
{
    std::path::Path::new(path).parent().map(|p| p.to_string_lossy().into_owned())
}

/// The name of the object at `path`: its final component, or `path` itself
/// when the path has no final component (it is empty, a root, or ends in
/// `..`).
pub fn entry_name(path: &str) -> (r: String)
    ensures
        r@ == entry_name_spec(path@),
{
    match file_name(path) {
        Some(n) => n,
        None => path.to_owned(),
    }
}

/// The directory that must exist before a file is written at `path`, or
/// `None` when the path has no parent and nothing is to be created.
pub fn write_parent(path: &str) -> (r: Option<String>)
    ensures
        opt_chars(r) == parent_of(path@),
{
    parent(path)
}

} // verus!
