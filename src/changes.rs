use crate::error::RepoError;
use crate::ids::{FolderId, ProjectId};
use crate::model::{PatchFolder, PatchList, PatchProject, UpdateTag};
use crate::patch::{required_field, wire_of, Patch};
use vstd::prelude::*;

verus! {

/// `c` assigns what `p` sets to a field that cannot be null, and leaves it otherwise.
pub open spec fn assigns<T>(c: Option<T>, p: Patch<T>) -> bool {
    match p {
        Patch::SetTo(v) => c == Some(v),
        _ => c is None,
    }
}

/// The field assignments of a folder update: only the fields that the patch names.
#[derive(Debug)]
pub struct FolderChanges {
    pub name: Option<String>,
    /// `Some(None)` nulls the parent.
    pub parent: Option<Option<FolderId>>,
}

/// The field assignments of a project update.
#[derive(Debug)]
pub struct ProjectChanges {
    pub name: Option<String>,
    pub folder: Option<FolderId>,
}

/// The field assignments of a list update.
#[derive(Debug)]
pub struct ListChanges {
    pub name: Option<String>,
    pub project: Option<ProjectId>,
}

/// The field assignments of a tag update.
#[derive(Debug)]
pub struct TagChanges {
    pub name: Option<String>,
    /// `Some(None)` nulls the color.
    pub color: Option<Option<String>>,
}

/// Builds the assignments of a folder update. Clearing the name is `InvalidInput`; a
/// patch that assigns nothing is `NoOp`.
pub fn folder_changes(patch: PatchFolder) -> (r: Result<FolderChanges, RepoError>)
    ensures
        match r {
            Ok(c) => {
                &&& !(patch.name is Clear)
                &&& !(patch.name is Ignore && patch.parent is Ignore)
                &&& assigns(c.name, patch.name)
                &&& c.parent == wire_of(patch.parent)
            },
            Err(e) => {
                ||| patch.name is Clear && e is InvalidInput
                ||| patch.name is Ignore && patch.parent is Ignore && e is NoOp
            },
        },
{
    let name = match required_field(patch.name, "name") {
        Ok(n) => n,
        Err(e) => return Err(e),
    };
    let parent = patch.parent.into_wire();
    if name.is_none() && parent.is_none() {
        return Err(RepoError::NoOp);
    }
    Ok(FolderChanges { name, parent })
}

/// Builds the assignments of a project update. Clearing the name or the folder is
/// `InvalidInput`; a patch that assigns nothing is `NoOp`.
pub fn project_changes(patch: PatchProject) -> (r: Result<ProjectChanges, RepoError>)
    ensures
        match r {
            Ok(c) => {
                &&& !(patch.name is Clear || patch.folder is Clear)
                &&& !(patch.name is Ignore && patch.folder is Ignore)
                &&& assigns(c.name, patch.name)
                &&& assigns(c.folder, patch.folder)
            },
            Err(e) => {
                ||| (patch.name is Clear || patch.folder is Clear) && e is InvalidInput
                ||| patch.name is Ignore && patch.folder is Ignore && e is NoOp
            },
        },
{
    let name = match required_field(patch.name, "name") {
        Ok(n) => n,
        Err(e) => return Err(e),
    };
    let folder = match required_field(patch.folder, "folder") {
        Ok(f) => f,
        Err(e) => return Err(e),
    };
    if name.is_none() && folder.is_none() {
        return Err(RepoError::NoOp);
    }
    Ok(ProjectChanges { name, folder })
}

/// Builds the assignments of a list update. Clearing the name or the project is
/// `InvalidInput`; a patch that assigns nothing is `NoOp`.
pub fn list_changes(patch: PatchList) -> (r: Result<ListChanges, RepoError>)
    ensures
        match r {
            Ok(c) => {
                &&& !(patch.name is Clear || patch.project is Clear)
                &&& !(patch.name is Ignore && patch.project is Ignore)
                &&& assigns(c.name, patch.name)
                &&& assigns(c.project, patch.project)
            },
            Err(e) => {
                ||| (patch.name is Clear || patch.project is Clear) && e is InvalidInput
                ||| patch.name is Ignore && patch.project is Ignore && e is NoOp
            },
        },
{
    let name = match required_field(patch.name, "name") {
        Ok(n) => n,
        Err(e) => return Err(e),
    };
    let project = match required_field(patch.project, "project") {
        Ok(p) => p,
        Err(e) => return Err(e),
    };
    if name.is_none() && project.is_none() {
        return Err(RepoError::NoOp);
    }
    Ok(ListChanges { name, project })
}

/// Builds the assignments of a tag update. Clearing the name is `InvalidInput`; a patch
/// that assigns nothing is `NoOp`.
pub fn tag_changes(patch: UpdateTag) -> (r: Result<TagChanges, RepoError>)
    ensures
        match r {
            Ok(c) => {
                &&& !(patch.name is Clear)
                &&& !(patch.name is Ignore && patch.color is Ignore)
                &&& assigns(c.name, patch.name)
                &&& c.color == wire_of(patch.color)
            },
            Err(e) => {
                ||| patch.name is Clear && e is InvalidInput
                ||| patch.name is Ignore && patch.color is Ignore && e is NoOp
            },
        },
{
    let name = match required_field(patch.name, "name") {
        Ok(n) => n,
        Err(e) => return Err(e),
    };
    let color = patch.color.into_wire();
    if name.is_none() && color.is_none() {
        return Err(RepoError::NoOp);
    }
    Ok(TagChanges { name, color })
}

} // verus!
