use lotuslab::service::{
    delete_folder, get_folder_children, get_folder_metadata, move_folder, new_folder,
    rename_folder,
};
use lotuslab::{
    FolderId, FolderReadRepo, FolderWriteRepo, MemStore, NewFolder, NewProject, Patch, PatchFolder,
    ProjectWriteRepo, RepoError, ServiceError,
};

fn make(store: &mut MemStore, name: &str, parent: Option<FolderId>) -> FolderId {
    new_folder(store, NewFolder { name: name.to_string(), parent }).unwrap().id
}

#[test]
fn rename_to_current_name_is_unchanged() {
    let mut store = MemStore::bootstrap();
    let a = make(&mut store, "x", None);
    let r = rename_folder(&mut store, &a, "x".to_string()).unwrap();
    assert_eq!(r.name, "x");
    assert_eq!(r.id, a);
    assert_eq!(r.parent, Some(FolderId::root()));
}

#[test]
fn rename_to_sibling_name_is_duplicate() {
    let mut store = MemStore::bootstrap();
    let p = make(&mut store, "P", None);
    let a = make(&mut store, "x", Some(p.clone()));
    let b = make(&mut store, "y", Some(p.clone()));
    let r = rename_folder(&mut store, &b, "x".to_string());
    assert!(matches!(r, Err(ServiceError::DuplicateName)));
    assert_eq!(get_folder_metadata(&store, &b).unwrap().name, "y");
    let same = rename_folder(&mut store, &a, "x".to_string()).unwrap();
    assert_eq!(same.name, "x");
}

#[test]
fn rename_to_free_name() {
    let mut store = MemStore::bootstrap();
    let p = make(&mut store, "P", None);
    let _a = make(&mut store, "x", Some(p.clone()));
    let b = make(&mut store, "y", Some(p.clone()));
    let _cousin = make(&mut store, "z", None);
    let r = rename_folder(&mut store, &b, "z".to_string()).unwrap();
    assert_eq!(r.name, "z");
    assert_eq!(r.parent, Some(p));
    assert_eq!(get_folder_metadata(&store, &b).unwrap().name, "z");
}

#[test]
fn rename_root_is_refused() {
    let mut store = MemStore::bootstrap();
    let r = rename_folder(&mut store, &FolderId::root(), "top".to_string());
    assert!(matches!(r, Err(ServiceError::RootRename)));
    assert_eq!(get_folder_metadata(&store, &FolderId::root()).unwrap().name, "root");
}

#[test]
fn rename_missing_folder_is_not_found() {
    let mut store = MemStore::bootstrap();
    let missing = FolderId::parse("folder:missing").unwrap();
    let r = rename_folder(&mut store, &missing, "n".to_string());
    assert!(matches!(r, Err(ServiceError::Repo(RepoError::NotFound))));
}

#[test]
fn move_to_missing_target_is_target_not_found() {
    let mut store = MemStore::bootstrap();
    let a = make(&mut store, "a", None);
    let missing = FolderId::parse("folder:nowhere").unwrap();
    let r = move_folder(&mut store, &a, &missing);
    match r {
        Err(ServiceError::TargetNotFound(t)) => assert_eq!(t, missing),
        other => panic!("unexpected outcome {:?}", other),
    }
    assert_eq!(get_folder_metadata(&store, &a).unwrap().parent, Some(FolderId::root()));
    let msg = move_folder(&mut store, &a, &missing).unwrap_err().message();
    assert_eq!(msg, "Target folder with id 'folder:nowhere' not found");
}

#[test]
fn move_to_current_parent_is_unchanged() {
    let mut store = MemStore::bootstrap();
    let a = make(&mut store, "a", None);
    let r = move_folder(&mut store, &a, &FolderId::root()).unwrap();
    assert_eq!(r.parent, Some(FolderId::root()));
    assert_eq!(r.name, "a");
}

#[test]
fn move_into_other_folder() {
    let mut store = MemStore::bootstrap();
    let a = make(&mut store, "a", None);
    let b = make(&mut store, "b", None);
    let r = move_folder(&mut store, &b, &a).unwrap();
    assert_eq!(r.parent, Some(a.clone()));
    assert_eq!(r.name, "b");
    let kids = get_folder_children(&store, &a).unwrap();
    assert_eq!(kids.folders.len(), 1);
    assert_eq!(kids.folders[0].id, b);
}

#[test]
fn move_missing_folder_is_not_found() {
    let mut store = MemStore::bootstrap();
    let missing = FolderId::parse("folder:missing").unwrap();
    let r = move_folder(&mut store, &missing, &FolderId::root());
    assert!(matches!(r, Err(ServiceError::Repo(RepoError::NotFound))));
}

#[test]
fn get_folder_children_through_service() {
    let mut store = MemStore::bootstrap();
    let p = make(&mut store, "P", None);
    let c = make(&mut store, "C", Some(p.clone()));
    let q = store
        .create_project(NewProject { name: "Q".to_string(), folder: Some(p.clone()) })
        .unwrap();
    let kids = get_folder_children(&store, &p).unwrap();
    assert_eq!(kids.folders.len(), 1);
    assert_eq!(kids.folders[0].id, c);
    assert_eq!(kids.projects.len(), 1);
    assert_eq!(kids.projects[0].id, q.id);
}

#[test]
fn delete_empty_folder() {
    let mut store = MemStore::bootstrap();
    let a = make(&mut store, "a", None);
    delete_folder(&mut store, &a).unwrap();
    assert!(matches!(store.get_folder_metadata(&a), Err(RepoError::NotFound)));
}

#[test]
fn delete_refuses_root_and_non_empty() {
    let mut store = MemStore::bootstrap();
    assert!(matches!(
        delete_folder(&mut store, &FolderId::root()),
        Err(ServiceError::RootDelete)
    ));
    let a = make(&mut store, "a", None);
    let _b = make(&mut store, "b", Some(a.clone()));
    assert!(matches!(delete_folder(&mut store, &a), Err(ServiceError::NotEmpty)));
    let c = make(&mut store, "c", None);
    store
        .create_project(NewProject { name: "p".to_string(), folder: Some(c.clone()) })
        .unwrap();
    assert!(matches!(delete_folder(&mut store, &c), Err(ServiceError::NotEmpty)));
    let missing = FolderId::parse("folder:missing").unwrap();
    assert!(matches!(
        delete_folder(&mut store, &missing),
        Err(ServiceError::Repo(RepoError::NotFound))
    ));
}

#[test]
fn service_error_messages() {
    assert_eq!(
        ServiceError::DuplicateName.message(),
        "A folder with the same name already exists in this parent folder"
    );
    assert_eq!(ServiceError::Repo(RepoError::NotFound).message(), "not found");
}

#[test]
fn move_into_itself_or_descendant_is_refused() {
    let mut store = MemStore::bootstrap();
    let a = make(&mut store, "a", None);
    let b = make(&mut store, "b", Some(a.clone()));
    let c = make(&mut store, "c", Some(b.clone()));
    assert!(matches!(move_folder(&mut store, &a, &a), Err(ServiceError::CycleDetected)));
    assert!(matches!(move_folder(&mut store, &a, &b), Err(ServiceError::CycleDetected)));
    assert!(matches!(move_folder(&mut store, &a, &c), Err(ServiceError::CycleDetected)));
    assert_eq!(get_folder_metadata(&store, &a).unwrap().parent, Some(FolderId::root()));
    let up = move_folder(&mut store, &c, &a).unwrap();
    assert_eq!(up.parent, Some(a));
}

#[test]
fn move_past_a_loop_elsewhere_terminates() {
    let mut store = MemStore::bootstrap();
    let x = make(&mut store, "x", None);
    let y = make(&mut store, "y", Some(x.clone()));
    // A loop of parents made directly through the repository, which does not check.
    store
        .update_folder(
            &x,
            PatchFolder { name: Patch::Ignore, parent: Patch::SetTo(y.clone()) },
        )
        .unwrap();
    let a = make(&mut store, "a", None);
    let moved = move_folder(&mut store, &a, &y).unwrap();
    assert_eq!(moved.parent, Some(y));
}
