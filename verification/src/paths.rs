//! Host paths, held as strings, and the two names derived from a path: the
//! path of a child entry and the path of an entry's metadata file.
use std::path::Path;
use vstd::prelude::*;

verus! {

/// A path that starts at the root of the host.
pub open spec fn is_absolute(path: Seq<char>) -> bool {
    path.len() > 0 && path[0] == '/'
}

/// What `Path::join` gives on Unix: an absolute name replaces the base; a
/// relative one is appended, after a separator unless the base is empty or
/// already ends in one.
pub open spec fn joined(base: Seq<char>, name: Seq<char>) -> Seq<char> {
    if is_absolute(name) {
        name
    } else if base.len() > 0 && base.last() != '/' {
        base + seq!['/'] + name
    } else {
        base + name
    }
}

/// What `Path::with_extension` gives for a path and an extension.
pub uninterp spec fn with_extension(path: Seq<char>, ext: Seq<char>) -> Seq<char>;

/// What `Path::extension` gives for a path.
pub uninterp spec fn extension_of(path: Seq<char>) -> Option<Seq<char>>;

/// The extension that marks metadata files.
pub open spec fn meta_extension() -> Seq<char> {
    "meta"@
}

/// The path of the metadata file that belongs to the entry at `path`.
pub open spec fn meta_path(path: Seq<char>) -> Seq<char> {
    with_extension(path, meta_extension())
}

/// The path names a metadata file.
pub open spec fn is_meta(path: Seq<char>) -> bool {
    extension_of(path) == Some(meta_extension())
}

/// Calls `Path::join`, which on Unix replaces the base by an absolute name
/// and otherwise appends the name, with a separator between them where the
/// base has no trailing one: that is `joined`. Turning the result back into a
/// string loses nothing, since both parts are strings.
#[verifier::external_body]
fn path_join(base: &String, name: &String) -> (r: String)
    ensures
        r@ == joined(base@, name@),
{
    Path::new(base.as_str()).join(name.as_str()).to_string_lossy().into_owned()
}

/// Calls `Path::with_extension`; the result is named `with_extension` of
/// the two arguments. The call panics on an extension that holds a path
/// separator, which is therefore not accepted.
#[verifier::external_body]
fn path_with_extension(path: &String, ext: &String) -> (r: String)
    requires
        forall|i: int| 0 <= i < ext@.len() ==> ext@[i] != '/',
    ensures
        r@ == with_extension(path@, ext@),
{
    Path::new(path.as_str()).with_extension(ext.as_str()).to_string_lossy().into_owned()
}

/// Calls `Path::extension`; the result is named `extension_of` of the path.
#[verifier::external_body]
pub(crate) fn path_extension(path: &String) -> (r: Option<String>)
    ensures
        match r {
            Some(ext) => extension_of(path@) == Some(ext@),
            None => extension_of(path@) is None,
        },
{
    match Path::new(path.as_str()).extension() {
        Some(ext) => Some(ext.to_string_lossy().into_owned()),
        None => None,
    }
}

/// The path of the entry `name` inside the directory at `base`; an
/// absolute `name` stands for itself.
pub fn join(base: &String, name: &String) -> (r: String)
    ensures
        r@ == joined(base@, name@),
{
    path_join(base, name)
}

/// The path of the metadata file of the entry at `path`.
pub fn meta_path_of(path: &String) -> (r: String)
    ensures
        r@ == meta_path(path@),
{
    let ext = "meta".to_owned();
    proof {
        reveal_strlit("meta");
    }
    path_with_extension(path, &ext)
}

} // verus!
