use notegraph::errors::WorldError;
use notegraph::ids::FileIdentity;
use notegraph::world::GraphWorld;

#[test]
fn store_round_trip() {
    let mut world = GraphWorld::new();
    let id = FileIdentity::from_path("/a.typ");
    world.replace_file(id.clone(), "alpha");
    let doc = world.get(&id).expect("inserted file must be readable");
    assert_eq!(doc.text().as_str(), "alpha");

    world.replace_file(id.clone(), "beta");
    let doc = world.get(&id).expect("overwritten file must be readable");
    assert_eq!(doc.text().as_str(), "beta");
}

#[test]
fn seed_document_is_present() {
    let world = GraphWorld::new();
    let readme = FileIdentity::from_path("/README.typ");
    let doc = world.get(&readme).expect("the seed note must exist");
    assert_eq!(doc.text().as_str(), "Hello world.");
    assert_eq!(world.main().path().as_str(), "/README.typ");
    assert_eq!(world.current_page(), 0);
}

#[test]
fn get_unknown_is_none() {
    let world = GraphWorld::new();
    assert!(world.get(&FileIdentity::from_path("/missing.typ")).is_none());
}

#[test]
fn resolution_injects_context_and_is_idempotent() {
    let mut world = GraphWorld::new();
    let note = FileIdentity::from_path("/a.typ");
    world.replace_file(note.clone(), "X");
    let global = world.global_context().clone();
    world.replace_file(global, "CTX");

    let first = world.source(&note).expect("known file must resolve");
    let second = world.source(&note).expect("known file must resolve");
    assert_eq!(first.text().as_str(), "CTX\nX");
    assert_eq!(first.text().as_str(), second.text().as_str());

    // The composed view is never written back.
    assert_eq!(world.get(&note).unwrap().text().as_str(), "X");
}

#[test]
fn resolving_global_context_does_not_inject_itself() {
    let mut world = GraphWorld::new();
    let global = world.global_context().clone();
    world.replace_file(global.clone(), "CTX");
    let doc = world.source(&global).expect("the context file must resolve");
    assert_eq!(doc.text().as_str(), "CTX");
}

#[test]
fn absent_context_falls_back_to_empty_preamble() {
    let world = GraphWorld::new();
    let readme = FileIdentity::from_path("/README.typ");
    let doc = world.source(&readme).expect("the seed note must resolve");
    assert_eq!(doc.text().as_str(), "\nHello world.");
}

#[test]
fn resolving_unknown_file_is_not_found() {
    let world = GraphWorld::new();
    let err = world.source(&FileIdentity::from_path("/missing.typ")).unwrap_err();
    assert!(matches!(err, WorldError::NotFound));
}

#[test]
fn open_insert_resolve_scenario() {
    let mut world = GraphWorld::new();
    let note = FileIdentity::from_path("/a.typ");
    world.replace_file(note.clone(), "X");
    let global = world.global_context().clone();
    world.replace_file(global, "CTX");
    world.open_file(&note).expect("an inserted file must open");
    assert_eq!(world.main().path().as_str(), "/a.typ");
    assert_eq!(world.current_page(), 0);
    let main = world.main().clone();
    let doc = world.source(&main).expect("the open file must resolve");
    assert_eq!(doc.text().as_str(), "CTX\nX");
}

#[test]
fn open_unknown_file_is_not_found_and_keeps_cursor() {
    let mut world = GraphWorld::new();
    let err = world.open_file(&FileIdentity::from_path("/missing.typ")).unwrap_err();
    assert!(matches!(err, WorldError::NotFound));
    assert_eq!(world.main().path().as_str(), "/README.typ");
}

#[test]
fn list_files_snapshots_every_identity() {
    let mut world = GraphWorld::new();
    world.replace_file(FileIdentity::from_path("/a.typ"), "X");
    let ids = world.list_files();
    assert_eq!(ids.len(), 2);
    let paths: Vec<&str> = ids.iter().map(|id| id.path().as_str()).collect();
    assert!(paths.contains(&"/README.typ"));
    assert!(paths.contains(&"/a.typ"));
}

#[test]
fn binary_assets_are_always_unsupported() {
    let world = GraphWorld::new();
    for path in ["/README.typ", "/image.png", "/missing.bin"] {
        let err = world.file(&FileIdentity::from_path(path)).unwrap_err();
        assert!(matches!(err, WorldError::UnsupportedAsset));
    }
}

#[test]
fn identity_equality_is_structural() {
    let a = FileIdentity::from_path("/a.typ");
    let b = FileIdentity::from_path("/a.typ");
    let c = FileIdentity::from_path("/b.typ");
    assert!(a.same_as(&b));
    assert!(b.same_as(&a));
    assert!(!a.same_as(&c));
    assert!(a.package().is_none());
}

#[test]
fn error_messages_name_their_condition() {
    assert_eq!(WorldError::NotFound.message(), "file not found");
    assert_eq!(WorldError::AccessDenied.message(), "access to the file store was denied");
    assert_eq!(
        WorldError::CompilationFailure(vec!["boom".to_string()]).message(),
        "compilation failed"
    );
    assert_eq!(WorldError::PageOutOfRange.message(), "page index out of range");
    assert_eq!(WorldError::UnsupportedAsset.message(), "binary assets are not supported");
}
