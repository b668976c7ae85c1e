//! The path of a listener, split into the directory that holds it and its name there.

use std::path::Path;
use vstd::prelude::*;

use crate::error::ErrorKind;
use crate::text::{
    c_string, is_c_string, is_first_nul, law_first_nul, lemma_first_nul_exists,
    lemma_first_nul_unique,
};

verus! {

/// `std::path::Path`, carried as it is: what is read of it is its parent and its
/// file name, through the two functions below.
#[verifier::external_type_specification]
#[verifier::external_body]
pub struct ExPath(std::path::Path);

/// The bytes of what `Path::parent` returns.
pub uninterp spec fn parent_bytes(path: &Path) -> Option<Seq<u8>>;

/// The bytes of what `Path::file_name` returns.
pub uninterp spec fn file_name_bytes(path: &Path) -> Option<Seq<u8>>;

/// The view of optional bytes.
pub open spec fn optional_view(bytes: Option<Vec<u8>>) -> Option<Seq<u8>> {
    match bytes {
        Some(bytes) => Some(bytes@),
        None => None,
    }
}

/// `Path::parent`, its result taken as bytes: the path without its final component,
/// `None` where the path ends in a root or is empty. Nothing is claimed of the
/// bytes beyond that they depend on the path alone.
#[verifier::external_body]
fn path_parent(path: &Path) -> (parent: Option<Vec<u8>>)
    ensures
        optional_view(parent) == parent_bytes(path),
{
    path.parent().map(|parent| parent.as_os_str().as_encoded_bytes().to_vec())
}

/// `Path::file_name`, its result taken as bytes: the final component of the path,
/// `None` where the path ends in `..` or has none. Nothing is claimed of the bytes
/// beyond that they depend on the path alone.
#[verifier::external_body]
fn path_file_name(path: &Path) -> (name: Option<Vec<u8>>)
    ensures
        optional_view(name) == file_name_bytes(path),
{
    path.file_name().map(|name| name.as_encoded_bytes().to_vec())
}

/// What is wrong with the path of a listener.
#[derive(Debug)]
pub enum PathError {
    /// The path has no parent.
    NoParent,
    /// The path has no file name.
    NoName,
    /// The parent or the name, `bytes`, has its first NUL at `position`.
    InteriorNul { position: usize, bytes: Vec<u8> },
}

/// What a `PathError` says.
pub enum PathProblem {
    NoParent,
    NoName,
    InteriorNul { position: int, bytes: Seq<u8> },
}

impl View for PathError {
    type V = PathProblem;

    open spec fn view(&self) -> PathProblem {
        match *self {
            PathError::NoParent => PathProblem::NoParent,
            PathError::NoName => PathProblem::NoName,
            PathError::InteriorNul { position, bytes } => PathProblem::InteriorNul {
                position: position as int,
                bytes: bytes@,
            },
        }
    }
}

impl PathError {
    /// The category under which the problem is reported.
    pub fn kind(&self) -> (kind: ErrorKind)
        ensures
            kind == (match self@ {
                PathProblem::NoParent | PathProblem::NoName => ErrorKind::Other,
                PathProblem::InteriorNul { .. } => ErrorKind::InvalidInput,
            }),
    {
        match self {
            PathError::NoParent => ErrorKind::Other,
            PathError::NoName => ErrorKind::Other,
            PathError::InteriorNul { .. } => ErrorKind::InvalidInput,
        }
    }

    /// The text that goes with the problem, `None` for an interior NUL, whose text
    /// is that of the position.
    pub fn message(&self) -> (message: Option<&'static str>)
        ensures
            message is None <==> self@ is InteriorNul,
            self@ is NoParent ==> message->0@ == "listener path has no parent"@,
            self@ is NoName ==> message->0@ == "listener path has no name"@,
    {
        match self {
            PathError::NoParent => Some("listener path has no parent"),
            PathError::NoName => Some("listener path has no name"),
            PathError::InteriorNul { .. } => None,
        }
    }
}

/// The two halves of a listener's path, each with its only NUL at its end.
#[derive(Debug)]
pub struct ListenerPath {
    parent: Vec<u8>,
    name: Vec<u8>,
}

/// What a `ListenerPath` holds.
pub struct PathHalves {
    pub parent: Seq<u8>,
    pub name: Seq<u8>,
}

impl View for ListenerPath {
    type V = PathHalves;

    closed spec fn view(&self) -> PathHalves {
        PathHalves { parent: self.parent@, name: self.name@ }
    }
}

impl PathHalves {
    /// Each half has its only NUL at its end.
    pub open spec fn are_c_strings(self) -> bool {
        &&& is_c_string(self.parent)
        &&& is_c_string(self.name)
    }
}

impl ListenerPath {
    #[verifier::type_invariant]
    spec fn terminated(self) -> bool {
        self@.are_c_strings()
    }

    /// The directory.
    pub fn parent(&self) -> (parent: &[u8])
        ensures
            parent@ == self@.parent,
            is_c_string(parent@),
    {
        proof {
            use_type_invariant(self);
        }
        self.parent.as_slice()
    }

    /// The name in the directory.
    pub fn name(&self) -> (name: &[u8])
        ensures
            name@ == self@.name,
            is_c_string(name@),
    {
        proof {
            use_type_invariant(self);
        }
        self.name.as_slice()
    }

    /// The name in the directory, without the rest.
    pub(crate) fn into_name(self) -> (name: Vec<u8>)
        ensures
            name@ == self@.name,
            is_c_string(name@),
    {
        proof {
            use_type_invariant(&self);
        }
        self.name
    }
}

/// The interior NUL of `bytes` as a problem.
pub open spec fn interior_nul(bytes: Seq<u8>) -> PathProblem {
    PathProblem::InteriorNul { position: choose|position: int| is_first_nul(bytes, position), bytes }
}

/// What comes of the parent and the file name of a path: both have to be there, the
/// parent first, and neither may have a NUL in it, the parent first again.
pub open spec fn split_path(parent: Option<Seq<u8>>, name: Option<Seq<u8>>) -> Result<
    PathHalves,
    PathProblem,
> {
    match (parent, name) {
        (None, _) => Err(PathProblem::NoParent),
        (Some(_), None) => Err(PathProblem::NoName),
        (Some(parent), Some(name)) => if parent.contains(0) {
            Err(interior_nul(parent))
        } else if name.contains(0) {
            Err(interior_nul(name))
        } else {
            Ok(PathHalves { parent: parent.push(0), name: name.push(0) })
        },
    }
}

/// The view of the outcome of splitting a path.
pub open spec fn split_view(outcome: Result<ListenerPath, PathError>) -> Result<
    PathHalves,
    PathProblem,
> {
    match outcome {
        Ok(path) => Ok(path@),
        Err(error) => Err(error@),
    }
}

fn terminate(bytes: Vec<u8>) -> (r: Result<Vec<u8>, PathError>)
    ensures
        r is Err <==> bytes@.contains(0),
        r matches Ok(text) ==> text@ == bytes@.push(0) && is_c_string(text@),
        r matches Err(error) ==> error@ == interior_nul(bytes@),
{
    match c_string(bytes) {
        Ok(text) => Ok(text),
        Err((position, bytes)) => {
            proof {
                let found = choose|p: int| is_first_nul(bytes@, p);
                lemma_first_nul_unique(bytes@, found, position as int);
            }
            Err(PathError::InteriorNul { position, bytes })
        },
    }
}

/// The halves of a listener's path, from what the path's parent and file name are.
pub fn listener_path(parent: Option<Vec<u8>>, name: Option<Vec<u8>>) -> (r: Result<
    ListenerPath,
    PathError,
>)
    ensures
        split_view(r) == split_path(optional_view(parent), optional_view(name)),
{
    match (parent, name) {
        (None, _) => Err(PathError::NoParent),
        (Some(_), None) => Err(PathError::NoName),
        (Some(parent), Some(name)) => match terminate(parent) {
            Err(error) => Err(error),
            Ok(parent) => match terminate(name) {
                Err(error) => Err(error),
                Ok(name) => Ok(ListenerPath { parent, name }),
            },
        },
    }
}

/// The halves of a listener's path.
pub fn split_listener_path(path: &Path) -> (r: Result<ListenerPath, PathError>)
    ensures
        split_view(r) == split_path(parent_bytes(path), file_name_bytes(path)),
{
    listener_path(path_parent(path), path_file_name(path))
}

/// A path is split wherever it has a parent and a file name without a NUL: the halves are
/// these two, each with a NUL behind it. It has no parent exactly where the parent is
/// missing, no name exactly where the name alone is missing, and otherwise what is wrong
/// with it is the first NUL of the parent or, where that has none, of the name.
pub proof fn law_path_is_split(parent: Seq<u8>, name: Seq<u8>, other: Option<Seq<u8>>)
    ensures
        split_path(None, other) == Err::<PathHalves, _>(PathProblem::NoParent),
        split_path(Some(parent), None) == Err::<PathHalves, _>(PathProblem::NoName),
        !parent.contains(0) && !name.contains(0) ==> {
            &&& split_path(Some(parent), Some(name)) matches Ok(halves)
            &&& halves.parent == parent.push(0)
            &&& halves.name == name.push(0)
        },
        parent.contains(0) ==> {
            &&& split_path(Some(parent), Some(name)) matches Err(
                PathProblem::InteriorNul { position, bytes },
            )
            &&& bytes == parent
            &&& 0 <= position < parent.len()
            &&& parent[position] == 0
            &&& !parent.take(position).contains(0)
        },
        !parent.contains(0) && name.contains(0) ==> {
            &&& split_path(Some(parent), Some(name)) matches Err(
                PathProblem::InteriorNul { position, bytes },
            )
            &&& bytes == name
            &&& 0 <= position < name.len()
            &&& name[position] == 0
            &&& !name.take(position).contains(0)
        },
{
    if parent.contains(0) {
        lemma_first_nul_exists(parent);
        law_first_nul(parent, choose|position: int| is_first_nul(parent, position));
    } else if name.contains(0) {
        lemma_first_nul_exists(name);
        law_first_nul(name, choose|position: int| is_first_nul(name, position));
    }
}

/// What is said of a path and of its problems is said of all that they hold.
pub proof fn law_path_views(
    bytes: Vec<u8>,
    position: usize,
    path: ListenerPath,
    error: PathError,
)
    ensures
        optional_view(Some(bytes)) == Some(bytes@),
        optional_view(None) == None::<Seq<u8>>,
        PathError::NoParent@ == PathProblem::NoParent,
        PathError::NoName@ == PathProblem::NoName,
        (PathError::InteriorNul { position, bytes })@ == (PathProblem::InteriorNul {
            position: position as int,
            bytes: bytes@,
        }),
        split_view(Ok(path)) == Ok::<PathHalves, PathProblem>(path@),
        split_view(Err(error)) == Err::<PathHalves, PathProblem>(error@),
{
}

} // verus!
