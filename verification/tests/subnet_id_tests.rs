use ipc_agent::ids::SubnetID;

#[test]
fn parse_and_render_roundtrip() {
    let id = SubnetID::from_text("/root/t0101/t0102").unwrap();
    assert_eq!(id.to_text(), "/root/t0101/t0102");
    assert_eq!(id.segment_count(), 3);
}

#[test]
fn parse_rejects_malformed_paths() {
    assert!(SubnetID::from_text("").is_none());
    assert!(SubnetID::from_text("/").is_none());
    assert!(SubnetID::from_text("root").is_none());
    assert!(SubnetID::from_text("/root/").is_none());
    assert!(SubnetID::from_text("//root").is_none());
    assert!(SubnetID::from_text("/root//a").is_none());
}

#[test]
fn parent_of_nested_subnet() {
    let id = SubnetID::from_text("/root/a/b").unwrap();
    let parent = id.parent().unwrap();
    assert_eq!(parent.to_text(), "/root/a");
    let grandparent = parent.parent().unwrap();
    assert_eq!(grandparent.to_text(), "/root");
    assert!(grandparent.parent().is_none());
}

#[test]
fn identifier_equality_is_path_equality() {
    let a = SubnetID::from_text("/root/a").unwrap();
    let b = SubnetID::from_text("/root/a").unwrap();
    let c = SubnetID::from_text("/root/b").unwrap();
    assert!(a.same_id(&b));
    assert!(!a.same_id(&c));
    assert!(a.same_id(&a.duplicate()));
}
