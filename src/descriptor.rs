//! File descriptors, the unit of work, and the raw listing entries they come from.

use vstd::prelude::*;

verus! {

/// The view of an optional string.
pub open spec fn opt_view(o: Option<String>) -> Option<Seq<char>> {
    match o {
        Some(s) => Some(s@),
        None => None,
    }
}

/// Copies an optional string.
pub fn clone_opt(o: &Option<String>) -> (r: Option<String>)
    ensures
        opt_view(r) == opt_view(*o),
{
    match o {
        Some(s) => Some(s.clone()),
        None => None,
    }
}

/// What one asset to fetch is known by.
#[derive(Clone, Debug, PartialEq, Eq)]
pub struct File {
    /// The post the file belongs to; output is namespaced by it when present.
    pub post_id: Option<String>,
    /// Target file name; not unique across posts.
    pub name: String,
    /// Overrides the default host when present.
    pub server: Option<String>,
    /// Server-relative resource path.
    pub path: String,
}

/// The mathematical model of a [`File`].
pub ghost struct FileModel {
    pub post_id: Option<Seq<char>>,
    pub name: Seq<char>,
    pub server: Option<Seq<char>>,
    pub path: Seq<char>,
}

impl View for File {
    type V = FileModel;

    open spec fn view(&self) -> FileModel {
        FileModel {
            post_id: opt_view(self.post_id),
            name: self.name@,
            server: opt_view(self.server),
            path: self.path@,
        }
    }
}

/// A file object of a listing as it came from the server: any field may be absent.
#[derive(Clone, Debug, PartialEq, Eq)]
pub struct RawFile {
    pub name: Option<String>,
    pub server: Option<String>,
    pub path: Option<String>,
}

/// The mathematical model of a [`RawFile`].
pub ghost struct RawFileModel {
    pub name: Option<Seq<char>>,
    pub server: Option<Seq<char>>,
    pub path: Option<Seq<char>>,
}

impl View for RawFile {
    type V = RawFileModel;

    open spec fn view(&self) -> RawFileModel {
        RawFileModel { name: opt_view(self.name), server: opt_view(self.server), path: opt_view(self.path) }
    }
}

/// A raw file object is usable when it has both a name and a path.
pub open spec fn usable(f: RawFileModel) -> bool {
    f.name is Some && f.path is Some
}

/// The descriptor made of a usable raw file object, tagged with its post.
pub open spec fn tagged(f: RawFileModel, post_id: Option<Seq<char>>) -> FileModel {
    FileModel { post_id, name: f.name.unwrap(), server: f.server, path: f.path.unwrap() }
}

/// Makes the descriptor of a raw file object, tagged with `post_id`;
/// `None` where the object lacks a name or a path.
pub fn descriptor_of(raw: &RawFile, post_id: &Option<String>) -> (r: Option<File>)
    ensures
        r is Some <==> usable(raw@),
        r matches Some(f) ==> f@ == tagged(raw@, opt_view(*post_id)),
{
    match (&raw.name, &raw.path) {
        (Some(name), Some(path)) => Some(File {
            post_id: clone_opt(post_id),
            name: name.clone(),
            server: clone_opt(&raw.server),
            path: path.clone(),
        }),
        _ => None,
    }
}

} // verus!
