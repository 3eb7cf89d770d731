use lotuslab::{
    ArtistId, CardCoreId, CardPrintingId, FolderId, ListId, ListItemId, ProjectId, RepoError,
    SetId, TagId,
};

#[test]
fn folder_id_parse_plain_reference() {
    let id = FolderId::parse("folder:abc").unwrap();
    assert_eq!(id.key(), "abc");
    assert_eq!(id.to_wire_string(), "folder:abc");
}

#[test]
fn folder_id_round_trip_of_escaped_key() {
    let id = FolderId::parse("folder:`needs escaping`").unwrap();
    assert_eq!(id.key(), "needs escaping");
    let wire = id.to_wire_string();
    assert_eq!(wire, "folder:`needs escaping`");
    assert_eq!(FolderId::parse(&wire).unwrap(), id);
}

#[test]
fn root_id_round_trip() {
    let root = FolderId::root();
    assert_eq!(root.key(), "root");
    assert_eq!(root.to_wire_string(), "folder:root");
    assert_eq!(FolderId::parse(&root.to_wire_string()).unwrap(), root);
}

#[test]
fn round_trip_of_key_with_colon_and_digits() {
    let id = ProjectId::parse("project:`a:b`").unwrap();
    assert_eq!(id.key(), "a:b");
    assert_eq!(ProjectId::parse(&id.to_wire_string()).unwrap(), id);
    let numeric = ListId::parse("list:123").unwrap();
    assert_eq!(numeric.key(), "123");
    assert_eq!(ListId::parse(&numeric.to_wire_string()).unwrap(), numeric);
}

#[test]
fn wrong_kind_is_invalid_input() {
    let r = ProjectId::parse("folder:abc");
    assert!(matches!(r, Err(RepoError::InvalidInput(_))));
    let folder = FolderId::parse("folder:abc").unwrap();
    assert!(matches!(
        TagId::parse(&folder.to_wire_string()),
        Err(RepoError::InvalidInput(_))
    ));
}

#[test]
fn every_kind_refuses_every_other_kind() {
    let wires = vec![
        FolderId::parse("folder:k").unwrap().to_wire_string(),
        ProjectId::parse("project:k").unwrap().to_wire_string(),
        ListId::parse("list:k").unwrap().to_wire_string(),
        ListItemId::parse("list_item:k").unwrap().to_wire_string(),
        TagId::parse("tag:k").unwrap().to_wire_string(),
        CardCoreId::parse("card_core:k").unwrap().to_wire_string(),
        CardPrintingId::parse("card_printing:k").unwrap().to_wire_string(),
        SetId::parse("set:k").unwrap().to_wire_string(),
        ArtistId::parse("artist:k").unwrap().to_wire_string(),
    ];
    for (a, wire) in wires.iter().enumerate() {
        let results = [
            FolderId::parse(wire).is_ok(),
            ProjectId::parse(wire).is_ok(),
            ListId::parse(wire).is_ok(),
            ListItemId::parse(wire).is_ok(),
            TagId::parse(wire).is_ok(),
            CardCoreId::parse(wire).is_ok(),
            CardPrintingId::parse(wire).is_ok(),
            SetId::parse(wire).is_ok(),
            ArtistId::parse(wire).is_ok(),
        ];
        for (b, ok) in results.iter().enumerate() {
            assert_eq!(*ok, a == b, "reference {} read as kind {}", wire, b);
        }
    }
}

#[test]
fn malformed_reference_is_invalid_input() {
    assert!(matches!(FolderId::parse("abc"), Err(RepoError::InvalidInput(_))));
    assert!(matches!(FolderId::parse(""), Err(RepoError::InvalidInput(_))));
    assert!(matches!(
        FolderId::parse("folder:`a\\xc`"),
        Err(RepoError::InvalidInput(_))
    ));
}

#[test]
fn wire_string_is_not_the_bare_key() {
    let id = TagId::parse("tag:red").unwrap();
    assert_eq!(id.key(), "red");
    assert_ne!(id.to_wire_string(), id.key());
}

#[test]
fn error_messages() {
    assert_eq!(RepoError::NotFound.message(), "not found");
    assert_eq!(RepoError::NoOp.message(), "noop");
    assert_eq!(
        RepoError::InvalidInput("not a folder id".to_string()).message(),
        "invalid input: not a folder id"
    );
    match ProjectId::parse("folder:abc") {
        Err(e) => assert_eq!(e.message(), "invalid input: not a project id"),
        Ok(_) => panic!("a folder reference was read as a project"),
    }
}
