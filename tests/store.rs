use lotuslab::{
    FolderId, FolderReadRepo, FolderWriteRepo, ListReadRepo, ListWriteRepo, MemStore, NewFolder,
    NewList, NewProject, NewTag, Patch, PatchFolder, PatchList, PatchProject, ProjectReadRepo,
    ProjectWriteRepo, RepoError, TagReadRepo, TagWriteRepo, UpdateTag,
};

fn folder(store: &mut MemStore, name: &str, parent: Option<FolderId>) -> FolderId {
    store
        .create_folder(NewFolder { name: name.to_string(), parent })
        .unwrap()
        .id
}

#[test]
fn root_resolves_after_bootstrap() {
    let store = MemStore::bootstrap();
    let root = store.get_folder_metadata(&FolderId::root()).unwrap();
    assert_eq!(root.id, FolderId::root());
    assert!(root.parent.is_none());
}

#[test]
fn create_folder_defaults_to_root() {
    let mut store = MemStore::bootstrap();
    let f = store
        .create_folder(NewFolder { name: "a".to_string(), parent: None })
        .unwrap();
    assert_eq!(f.name, "a");
    assert_eq!(f.parent, Some(FolderId::root()));
    let again = store.get_folder_metadata(&f.id).unwrap();
    assert_eq!(again.name, "a");
    assert_eq!(again.id, f.id);
}

#[test]
fn created_keys_are_fresh() {
    let mut store = MemStore::bootstrap();
    let a = folder(&mut store, "a", None);
    let b = folder(&mut store, "b", None);
    assert_ne!(a, b);
    assert_ne!(a, FolderId::root());
    assert_eq!(store.get_folder_metadata(&a).unwrap().name, "a");
    assert_eq!(store.get_folder_metadata(&b).unwrap().name, "b");
}

#[test]
fn missing_folder_is_not_found() {
    let store = MemStore::bootstrap();
    let missing = FolderId::parse("folder:missing").unwrap();
    assert!(matches!(store.get_folder_metadata(&missing), Err(RepoError::NotFound)));
    assert!(matches!(store.get_folder_children(&missing), Err(RepoError::NotFound)));
}

#[test]
fn children_are_exactly_direct_folders_and_projects() {
    let mut store = MemStore::bootstrap();
    let p = folder(&mut store, "P", None);
    let c = folder(&mut store, "C", Some(p.clone()));
    let _grandchild = folder(&mut store, "G", Some(c.clone()));
    let _elsewhere = folder(&mut store, "E", None);
    let q = store
        .create_project(NewProject { name: "Q".to_string(), folder: Some(p.clone()) })
        .unwrap();
    let _root_project = store
        .create_project(NewProject { name: "R".to_string(), folder: None })
        .unwrap();
    let children = store.get_folder_children(&p).unwrap();
    assert_eq!(children.folders.len(), 1);
    assert_eq!(children.folders[0].id, c);
    assert_eq!(children.folders[0].name, "C");
    assert_eq!(children.projects.len(), 1);
    assert_eq!(children.projects[0].id, q.id);
    assert_eq!(children.projects[0].name, "Q");
}

#[test]
fn children_of_empty_folder() {
    let mut store = MemStore::bootstrap();
    let p = folder(&mut store, "P", None);
    let children = store.get_folder_children(&p).unwrap();
    assert!(children.folders.is_empty());
    assert!(children.projects.is_empty());
}

#[test]
fn update_with_every_field_ignored_is_noop() {
    let mut store = MemStore::bootstrap();
    let a = folder(&mut store, "a", None);
    let r = store.update_folder(&a, PatchFolder { name: Patch::Ignore, parent: Patch::Ignore });
    assert!(matches!(r, Err(RepoError::NoOp)));
    let after = store.get_folder_metadata(&a).unwrap();
    assert_eq!(after.name, "a");
    assert_eq!(after.parent, Some(FolderId::root()));
}

#[test]
fn update_of_missing_folder_is_not_found() {
    let mut store = MemStore::bootstrap();
    let missing = FolderId::parse("folder:missing").unwrap();
    let r = store.update_folder(
        &missing,
        PatchFolder { name: Patch::SetTo("x".to_string()), parent: Patch::Ignore },
    );
    assert!(matches!(r, Err(RepoError::NotFound)));
}

#[test]
fn update_sets_and_clears_fields() {
    let mut store = MemStore::bootstrap();
    let a = folder(&mut store, "a", None);
    let b = folder(&mut store, "b", None);
    let moved = store
        .update_folder(&b, PatchFolder { name: Patch::SetTo("bb".to_string()), parent: Patch::SetTo(a.clone()) })
        .unwrap();
    assert_eq!(moved.name, "bb");
    assert_eq!(moved.parent, Some(a.clone()));
    let cleared = store
        .update_folder(&b, PatchFolder { name: Patch::Ignore, parent: Patch::Clear })
        .unwrap();
    assert_eq!(cleared.name, "bb");
    assert!(cleared.parent.is_none());
    let r = store.update_folder(&b, PatchFolder { name: Patch::Clear, parent: Patch::Ignore });
    assert!(matches!(r, Err(RepoError::InvalidInput(_))));
    assert_eq!(store.get_folder_metadata(&b).unwrap().name, "bb");
}

#[test]
fn delete_folder_then_not_found() {
    let mut store = MemStore::bootstrap();
    let a = folder(&mut store, "a", None);
    store.delete_folder(&a).unwrap();
    assert!(matches!(store.get_folder_metadata(&a), Err(RepoError::NotFound)));
    assert!(matches!(store.delete_folder(&a), Err(RepoError::NotFound)));
}

#[test]
fn project_crud() {
    let mut store = MemStore::bootstrap();
    let f = folder(&mut store, "f", None);
    let p = store
        .create_project(NewProject { name: "p".to_string(), folder: None })
        .unwrap();
    assert_eq!(p.folder, FolderId::root());
    let got = store.get_project(&p.id).unwrap();
    assert_eq!(got.name, "p");
    let moved = store
        .update_project(&p.id, PatchProject { name: Patch::Ignore, folder: Patch::SetTo(f.clone()) })
        .unwrap();
    assert_eq!(moved.folder, f);
    assert_eq!(moved.name, "p");
    assert!(matches!(
        store.update_project(&p.id, PatchProject { name: Patch::Ignore, folder: Patch::Clear }),
        Err(RepoError::InvalidInput(_))
    ));
    assert!(matches!(
        store.update_project(&p.id, PatchProject { name: Patch::Ignore, folder: Patch::Ignore }),
        Err(RepoError::NoOp)
    ));
    store.delete_project(&p.id).unwrap();
    assert!(matches!(store.get_project(&p.id), Err(RepoError::NotFound)));
}

#[test]
fn list_crud() {
    let mut store = MemStore::bootstrap();
    let p = store
        .create_project(NewProject { name: "p".to_string(), folder: None })
        .unwrap();
    let q = store
        .create_project(NewProject { name: "q".to_string(), folder: None })
        .unwrap();
    let l = store
        .create_list(NewList { name: "l".to_string(), project: p.id.clone() })
        .unwrap();
    assert_eq!(l.project, p.id);
    assert_eq!(store.get_list(&l.id).unwrap().name, "l");
    let renamed = store
        .update_list(&l.id, PatchList { name: Patch::SetTo("m".to_string()), project: Patch::SetTo(q.id.clone()) })
        .unwrap();
    assert_eq!(renamed.name, "m");
    assert_eq!(renamed.project, q.id);
    assert!(matches!(
        store.update_list(&l.id, PatchList { name: Patch::Ignore, project: Patch::Clear }),
        Err(RepoError::InvalidInput(_))
    ));
    store.delete_list(&l.id).unwrap();
    assert!(matches!(store.get_list(&l.id), Err(RepoError::NotFound)));
}

#[test]
fn tag_crud_and_clearing_color() {
    let mut store = MemStore::bootstrap();
    let t = store
        .create_tag(NewTag { name: "t".to_string(), color: Some("red".to_string()) })
        .unwrap();
    assert_eq!(t.color.as_deref(), Some("red"));
    let cleared = store
        .update_tag(&t.id, UpdateTag { name: Patch::Ignore, color: Patch::Clear })
        .unwrap();
    assert!(cleared.color.is_none());
    assert_eq!(cleared.name, "t");
    assert_eq!(store.get_tag(&t.id).unwrap().color, None);
    assert!(matches!(
        store.update_tag(&t.id, UpdateTag { name: Patch::Clear, color: Patch::Ignore }),
        Err(RepoError::InvalidInput(_))
    ));
    store.delete_tag(&t.id).unwrap();
    assert!(matches!(store.delete_tag(&t.id), Err(RepoError::NotFound)));
}

#[test]
fn refused_update_writes_no_field() {
    let mut store = MemStore::bootstrap();
    let f = folder(&mut store, "f", None);
    let p = store
        .create_project(NewProject { name: "p".to_string(), folder: Some(f.clone()) })
        .unwrap();
    let r = store.update_project(
        &p.id,
        PatchProject { name: Patch::SetTo("renamed".to_string()), folder: Patch::Clear },
    );
    assert!(matches!(r, Err(RepoError::InvalidInput(_))));
    let after = store.get_project(&p.id).unwrap();
    assert_eq!(after.name, "p");
    assert_eq!(after.folder, f);
}
