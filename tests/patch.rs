use lotuslab::changes::{folder_changes, project_changes, tag_changes};
use lotuslab::patch::required_field;
use lotuslab::{FolderId, Patch, PatchFolder, PatchProject, RepoError, UpdateTag};

#[test]
fn wire_absent_null_value_decode() {
    assert!(matches!(Patch::<i32>::from_wire(None), Patch::Ignore));
    assert!(matches!(Patch::<i32>::from_wire(Some(None)), Patch::Clear));
    assert!(matches!(Patch::from_wire(Some(Some(7))), Patch::SetTo(7)));
}

#[test]
fn wire_encode_then_decode() {
    assert_eq!(Patch::<i32>::Ignore.into_wire(), None);
    assert_eq!(Patch::<i32>::Clear.into_wire(), Some(None));
    assert_eq!(Patch::SetTo(3).into_wire(), Some(Some(3)));
    assert!(matches!(Patch::from_wire(Patch::SetTo(3).into_wire()), Patch::SetTo(3)));
    assert!(matches!(Patch::<i32>::from_wire(Patch::Clear.into_wire()), Patch::Clear));
    assert!(matches!(Patch::<i32>::from_wire(Patch::Ignore.into_wire()), Patch::Ignore));
}

#[test]
fn default_patch_is_ignore() {
    let p: Patch<String> = Patch::default();
    assert!(p.is_ignore());
    assert!(!Patch::SetTo(1).is_ignore());
    assert!(!Patch::<i32>::Clear.is_ignore());
}

#[test]
fn required_field_refuses_clear() {
    assert!(matches!(
        required_field(Patch::<i32>::Clear, "name"),
        Err(RepoError::InvalidInput(_))
    ));
    assert_eq!(required_field(Patch::SetTo(4), "name").unwrap(), Some(4));
    assert_eq!(required_field(Patch::<i32>::Ignore, "name").unwrap(), None);
}

#[test]
fn folder_changes_of_empty_patch_is_noop() {
    let r = folder_changes(PatchFolder { name: Patch::Ignore, parent: Patch::Ignore });
    assert!(matches!(r, Err(RepoError::NoOp)));
}

#[test]
fn folder_changes_refuse_clearing_name() {
    let r = folder_changes(PatchFolder { name: Patch::Clear, parent: Patch::Ignore });
    assert!(matches!(r, Err(RepoError::InvalidInput(_))));
}

#[test]
fn folder_changes_clear_parent() {
    let c = folder_changes(PatchFolder { name: Patch::Ignore, parent: Patch::Clear }).unwrap();
    assert!(c.name.is_none());
    assert!(matches!(c.parent, Some(None)));
    let c = folder_changes(PatchFolder {
        name: Patch::SetTo("n".to_string()),
        parent: Patch::SetTo(FolderId::root()),
    })
    .unwrap();
    assert_eq!(c.name.as_deref(), Some("n"));
    assert_eq!(c.parent, Some(Some(FolderId::root())));
}

#[test]
fn project_changes_refuse_clearing_folder() {
    let r = project_changes(PatchProject { name: Patch::Ignore, folder: Patch::Clear });
    assert!(matches!(r, Err(RepoError::InvalidInput(_))));
    let r = project_changes(PatchProject { name: Patch::Ignore, folder: Patch::Ignore });
    assert!(matches!(r, Err(RepoError::NoOp)));
}

#[test]
fn tag_changes_clear_color() {
    let c = tag_changes(UpdateTag { name: Patch::Ignore, color: Patch::Clear }).unwrap();
    assert_eq!(c.color, Some(None));
    assert!(matches!(
        tag_changes(UpdateTag { name: Patch::Ignore, color: Patch::Ignore }),
        Err(RepoError::NoOp)
    ));
}
