use webkit::content_world::ContentWorld;

#[test]
fn content_world_ffi_encoding_matches_the_bridge() {
    assert_eq!(ContentWorld::Page.to_ffi().0, 0);
    assert_eq!(ContentWorld::DefaultClient.to_ffi().0, 1);
    let (kind, name) = ContentWorld::Named("isolated".to_owned()).to_ffi();
    assert_eq!(kind, 2);
    assert_eq!(name.as_deref(), Some("isolated"));
    assert!(ContentWorld::Page.to_ffi().1.is_none());
    assert_eq!(ContentWorld::default(), ContentWorld::Page);
}

#[test]
fn named_world_with_nul_is_encoded_with_a_space() {
    let (kind, name) = ContentWorld::Named("a\0b".to_owned()).to_ffi();
    assert_eq!(kind, 2);
    assert_eq!(name.as_deref(), Some("a b"));
    assert!(ContentWorld::DefaultClient.to_ffi().1.is_none());
}
