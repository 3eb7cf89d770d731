use crate::ids::{
    CardCoreId, CardPrintingId, FolderId, ListId, ListItemId, ProjectId, TagId,
};
use crate::patch::Patch;
use vstd::prelude::*;

verus! {

/// View of an optional value.
pub open spec fn opt_view<T: View>(o: Option<T>) -> Option<T::V> {
    match o {
        Some(v) => Some(v@),
        None => None,
    }
}

/// Folder as the contracts see it: its key, name, and the key of its parent.
pub struct FolderView {
    pub id: Seq<char>,
    pub name: Seq<char>,
    pub parent: Option<Seq<char>>,
}

/// Project as the contracts see it: its key, name, and the key of its folder.
pub struct ProjectView {
    pub id: Seq<char>,
    pub name: Seq<char>,
    pub folder: Seq<char>,
}

/// List as the contracts see it: its key, name, and the key of its project.
pub struct ListView {
    pub id: Seq<char>,
    pub name: Seq<char>,
    pub project: Seq<char>,
}

/// Tag as the contracts see it: its key, name and color.
pub struct TagView {
    pub id: Seq<char>,
    pub name: Seq<char>,
    pub color: Option<Seq<char>>,
}

/// A folder of the containment tree; only the root has no parent.
#[derive(Debug)]
pub struct Folder {
    pub id: FolderId,
    pub name: String,
    pub parent: Option<FolderId>,
}

impl View for Folder {
    type V = FolderView;

    open spec fn view(&self) -> FolderView {
        FolderView { id: self.id@, name: self.name@, parent: opt_view(self.parent) }
    }
}

impl Clone for Folder {
    fn clone(&self) -> (r: Self)
        ensures
            r == *self,
    {
        let parent = match &self.parent {
            Some(p) => Some(p.clone()),
            None => None,
        };
        Folder { id: self.id.clone(), name: self.name.clone(), parent }
    }
}

/// Request to create a folder; without a parent it goes under the root.
#[derive(Debug)]
pub struct NewFolder {
    pub name: String,
    pub parent: Option<FolderId>,
}

/// Update of a folder, field by field.
#[derive(Debug)]
pub struct PatchFolder {
    pub name: Patch<String>,
    pub parent: Patch<FolderId>,
}

/// The folders and projects whose containing folder is one given folder.
#[derive(Debug)]
pub struct FolderChildren {
    pub folders: Vec<Folder>,
    pub projects: Vec<Project>,
}

/// Children as the contracts see them.
pub struct FolderChildrenView {
    pub folders: Seq<FolderView>,
    pub projects: Seq<ProjectView>,
}

impl View for FolderChildren {
    type V = FolderChildrenView;

    open spec fn view(&self) -> FolderChildrenView {
        FolderChildrenView {
            folders: self.folders@.map_values(|f: Folder| f@),
            projects: self.projects@.map_values(|p: Project| p@),
        }
    }
}

/// A project; it always belongs to one folder.
#[derive(Debug)]
pub struct Project {
    pub id: ProjectId,
    pub name: String,
    pub folder: FolderId,
}

impl View for Project {
    type V = ProjectView;

    open spec fn view(&self) -> ProjectView {
        ProjectView { id: self.id@, name: self.name@, folder: self.folder@ }
    }
}

impl Clone for Project {
    fn clone(&self) -> (r: Self)
        ensures
            r == *self,
    {
        Project { id: self.id.clone(), name: self.name.clone(), folder: self.folder.clone() }
    }
}

/// Request to create a project; without a folder it goes under the root.
#[derive(Debug)]
pub struct NewProject {
    pub name: String,
    pub folder: Option<FolderId>,
}

/// Update of a project, field by field.
#[derive(Debug)]
pub struct PatchProject {
    pub name: Patch<String>,
    pub folder: Patch<FolderId>,
}

/// A list; it always belongs to one project.
#[derive(Debug)]
pub struct List {
    pub id: ListId,
    pub name: String,
    pub project: ProjectId,
}

impl View for List {
    type V = ListView;

    open spec fn view(&self) -> ListView {
        ListView { id: self.id@, name: self.name@, project: self.project@ }
    }
}

impl Clone for List {
    fn clone(&self) -> (r: Self)
        ensures
            r == *self,
    {
        List { id: self.id.clone(), name: self.name.clone(), project: self.project.clone() }
    }
}

/// Request to create a list in a project.
#[derive(Debug)]
pub struct NewList {
    pub name: String,
    pub project: ProjectId,
}

/// Update of a list, field by field.
#[derive(Debug)]
pub struct PatchList {
    pub name: Patch<String>,
    pub project: Patch<ProjectId>,
}

/// A tag with an optional color.
#[derive(Debug)]
pub struct Tag {
    pub id: TagId,
    pub name: String,
    pub color: Option<String>,
}

impl View for Tag {
    type V = TagView;

    open spec fn view(&self) -> TagView {
        TagView { id: self.id@, name: self.name@, color: opt_view(self.color) }
    }
}

impl Clone for Tag {
    fn clone(&self) -> (r: Self)
        ensures
            r == *self,
    {
        let color = match &self.color {
            Some(c) => Some(c.clone()),
            None => None,
        };
        Tag { id: self.id.clone(), name: self.name.clone(), color }
    }
}

/// Request to create a tag.
#[derive(Debug)]
pub struct NewTag {
    pub name: String,
    pub color: Option<String>,
}

/// Update of a tag, field by field.
#[derive(Debug)]
pub struct UpdateTag {
    pub name: Patch<String>,
    pub color: Patch<String>,
}

/// An instant in UTC: whole seconds since the Unix epoch and the nanoseconds past them.
#[derive(Debug, Clone, Copy, PartialEq, Eq, Structural)]
pub struct Timestamp {
    pub seconds: i64,
    pub nanos: u32,
}

/// Catalog details of a card; the catalog holds none yet.
#[derive(Debug, Clone, Copy, PartialEq, Eq, Structural)]
pub struct CardCoreDetail {}

/// Catalog details of a printing of a card; the catalog holds none yet.
#[derive(Debug, Clone, Copy, PartialEq, Eq, Structural)]
pub struct CardPrintingDetail {}

/// Summary of an item of a list: a catalog card, optionally one printing of it.
#[derive(Debug)]
pub struct ListItemSummary {
    pub id: ListItemId,
    pub list_id: ListId,
    pub card_core_id: CardCoreId,
    pub selected_printing: Option<CardPrintingId>,
    pub created_at: Timestamp,
    pub updated_at: Timestamp,
}

/// An item of a list with the catalog details of its card and printing.
#[derive(Debug)]
pub struct ListItemDetail {
    pub id: ListItemId,
    pub list_id: ListId,
    pub card_card_id: CardCoreId,
    pub selected_printing: Option<CardPrintingId>,
    pub created_at: Timestamp,
    pub updated_at: Timestamp,
    pub card_core_details: CardCoreDetail,
    pub card_printing_details: CardPrintingDetail,
}

/// Request to add a card to a list.
#[derive(Debug)]
pub struct NewListItem {
    pub list_id: ListId,
    pub card_core_id: CardCoreId,
    pub selected_printing: Option<CardPrintingId>,
    pub quantity: Option<i32>,
    pub notes: Option<String>,
}

/// Update of an item of a list, field by field.
#[derive(Debug)]
pub struct UpdateListItem {
    pub selected_printing: Patch<CardPrintingId>,
    pub quantity: Patch<i32>,
    pub notes: Patch<String>,
}

} // verus!
