//! What can end a run before its time.

use crate::path::{ComponentPath, SpecPath};
use vstd::prelude::*;

verus! {

/// The reason why a run was given up. Each names the path at which the
/// failing operation was aimed.
///
/// `P` is how a path is held: [`ComponentPath`] in a running program, the
/// sequence of its names in a contract.
#[derive(Debug, PartialEq, Eq)]
pub enum FilterError<P> {
    /// Nothing exists at the input path.
    InputMissing { path: P },
    /// The input path leads to something that is no directory.
    InputNotDirectory { path: P },
    /// The output root could not be created.
    CreateOutputDirectory { path: P },
    /// An entry under the input root could not be read.
    DirectoryRead,
    /// A file could not be opened, or its header is no PCM container's.
    FileOpen { path: P },
    /// A file that the walk produced does not lie under the input root.
    PathRelativization { path: P },
    /// The directories above a destination could not be created.
    CreateParentDirectory { destination: P },
    /// The bytes of a file could not be copied to its destination.
    Copy { source: P, destination: P },
}

impl View for FilterError<ComponentPath> {
    type V = FilterError<SpecPath>;

    open spec fn view(&self) -> FilterError<SpecPath> {
        match *self {
            FilterError::InputMissing { path } => FilterError::InputMissing { path: path@ },
            FilterError::InputNotDirectory { path } => FilterError::InputNotDirectory {
                path: path@,
            },
            FilterError::CreateOutputDirectory { path } => FilterError::CreateOutputDirectory {
                path: path@,
            },
            FilterError::DirectoryRead => FilterError::DirectoryRead,
            FilterError::FileOpen { path } => FilterError::FileOpen { path: path@ },
            FilterError::PathRelativization { path } => FilterError::PathRelativization {
                path: path@,
            },
            FilterError::CreateParentDirectory { destination } => {
                FilterError::CreateParentDirectory { destination: destination@ }
            },
            FilterError::Copy { source, destination } => FilterError::Copy {
                source: source@,
                destination: destination@,
            },
        }
    }
}

impl Clone for FilterError<ComponentPath> {
    fn clone(&self) -> (copy: FilterError<ComponentPath>)
        ensures
            copy@ == self@,
    {
        match self {
            FilterError::InputMissing { path } => FilterError::InputMissing { path: path.clone() },
            FilterError::InputNotDirectory { path } => FilterError::InputNotDirectory {
                path: path.clone(),
            },
            FilterError::CreateOutputDirectory { path } => FilterError::CreateOutputDirectory {
                path: path.clone(),
            },
            FilterError::DirectoryRead => FilterError::DirectoryRead,
            FilterError::FileOpen { path } => FilterError::FileOpen { path: path.clone() },
            FilterError::PathRelativization { path } => FilterError::PathRelativization {
                path: path.clone(),
            },
            FilterError::CreateParentDirectory { destination } => {
                FilterError::CreateParentDirectory { destination: destination.clone() }
            },
            FilterError::Copy { source, destination } => FilterError::Copy {
                source: source.clone(),
                destination: destination.clone(),
            },
        }
    }
}

} // verus!
