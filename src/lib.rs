//! Folder and project organisation: typed record identifiers, tri-state patches,
//! repository contracts with an in-memory backend, and the folder rules built on them.

pub mod changes;
pub mod error;
pub mod ids;
pub mod mem_store;
pub mod model;
pub mod patch;
pub mod record;
pub mod repo;
mod rows;
pub mod service;

pub use error::RepoError;
pub use ids::{
    ArtistId, CardCoreId, CardPrintingId, FolderId, ListId, ListItemId, ProjectId, SetId, TagId,
};
pub use mem_store::MemStore;
pub use model::{
    CardCoreDetail, CardPrintingDetail, Folder, FolderChildren, List, ListItemDetail,
    ListItemSummary, NewFolder, NewList, NewListItem, NewProject, NewTag, PatchFolder, PatchList,
    PatchProject, Project, Tag, Timestamp, UpdateListItem, UpdateTag,
};
pub use patch::Patch;
pub use repo::{
    FolderReadRepo, FolderWriteRepo, ListReadRepo, ListWriteRepo, ProjectReadRepo,
    ProjectWriteRepo, TagReadRepo, TagWriteRepo,
};
pub use service::ServiceError;
