use canvas_store::canvas::{
    create_canvas, delete_canvas, get_canvas, load_canvas, new_canvas, prepare_update,
    new_root_canvas, root_canvas, update_canvas, Canvas, ReadFailure,
};
use canvas_store::error::{prefixed, StoreError};
use canvas_store::image::{extension_for, found_image, save_image, uploaded_file};
use canvas_store::paths::{canvas_file, join_path, StorageLayout};
use canvas_store::tree::{default_tree, load_tree, TreeNode, TreeRead, TreeStructure};

fn s(t: &str) -> String {
    t.to_string()
}

fn legacy(version: &str) -> Canvas<Vec<u32>> {
    Canvas {
        version: s(version),
        id: s("abc"),
        name: s("Old"),
        parent_id: Some(s("main")),
        created: s("2023-01-01T00:00:00+00:00"),
        modified: s("2023-01-02T00:00:00+00:00"),
        body: vec![1, 2, 3],
    }
}

fn is_id(t: &str) -> bool {
    t.len() == 36 && t.chars().all(|c| c.is_ascii_digit() || ('a'..='f').contains(&c) || c == '-')
}

#[test]
fn layout_paths() {
    let l = StorageLayout::from_data_dir("/data/app");
    assert_eq!(l.storage_dir, "/data/app/storage");
    assert_eq!(l.canvases_dir(), "/data/app/storage/canvases");
    assert_eq!(l.images_dir(), "/data/app/storage/images");
    assert_eq!(l.tree_file(), "/data/app/storage/tree.json");
    assert_eq!(l.canvas_path("abc"), "/data/app/storage/canvases/abc.json");
    assert_eq!(l.image_path("x.png"), "/data/app/storage/images/x.png");
}

#[test]
fn layout_paths_with_trailing_separator() {
    let l = StorageLayout::from_data_dir("/data/");
    assert_eq!(l.storage_dir, "/data/storage");
    assert_eq!(join_path("", "a"), "a");
    assert_eq!(join_path("/data", "/etc/x"), "/etc/x");
    assert_eq!(canvas_file("main"), "main.json");
}

#[test]
fn create_sketch_then_delete() {
    let c = create_canvas(Some(s("Sketch A")), None, serde_json::Value::Array(vec![]));
    assert!(!c.id.is_empty());
    assert!(is_id(&c.id));
    assert_eq!(c.name, "Sketch A");
    assert_eq!(c.version, "1.0.0");
    assert_eq!(c.parent_id, None);
    assert_eq!(c.created, c.modified);
    assert!(!c.created.is_empty());
    assert_eq!(c.body, serde_json::Value::Array(vec![]));
    assert!(matches!(delete_canvas(true), Ok(true)));
    let r = get_canvas::<serde_json::Value>(Err(ReadFailure::Missing));
    assert!(matches!(r, Err(StoreError::CanvasNotFound)));
}

#[test]
fn create_defaults_name() {
    let c = create_canvas(None, Some(s("main")), 7u8);
    assert_eq!(c.name, "New Canvas");
    assert_eq!(c.parent_id, Some(s("main")));
    assert_eq!(c.body, 7u8);
    let d = create_canvas(None, None, 7u8);
    assert_ne!(c.id, d.id);
}

#[test]
fn created_canvas_reads_back_unchanged() {
    let c = new_canvas(s("id1"), Some(s("A")), None, s("T0"), vec![5u32]);
    let loaded = load_canvas(Ok(c), s("T9")).ok().unwrap();
    assert!(!loaded.write_back);
    assert_eq!(loaded.canvas.version, "1.0.0");
    assert_eq!(loaded.canvas.name, "A");
    assert_eq!(loaded.canvas.created, "T0");
    assert_eq!(loaded.canvas.modified, "T0");
    assert_eq!(loaded.canvas.body, vec![5u32]);
}

#[test]
fn migration_is_idempotent() {
    let first = load_canvas(Ok(legacy("")), s("T1")).ok().unwrap();
    assert!(first.write_back);
    assert_eq!(first.canvas.version, "1.0.0");
    assert_eq!(first.canvas.modified, "T1");
    assert_eq!(first.canvas.created, "2023-01-01T00:00:00+00:00");
    assert_eq!(first.canvas.name, "Old");
    assert_eq!(first.canvas.body, vec![1, 2, 3]);
    let second = load_canvas(Ok(first.canvas), s("T2")).ok().unwrap();
    assert!(!second.write_back);
    assert_eq!(second.canvas.version, "1.0.0");
    assert_eq!(second.canvas.modified, "T1");
}

#[test]
fn get_migrates_with_current_time() {
    let r = get_canvas(Ok(legacy(""))).ok().unwrap();
    assert!(r.write_back);
    assert_eq!(r.canvas.version, "1.0.0");
    assert_ne!(r.canvas.modified, "2023-01-02T00:00:00+00:00");
    let r = get_canvas(Ok(legacy("1.0.0"))).ok().unwrap();
    assert!(!r.write_back);
    assert_eq!(r.canvas.modified, "2023-01-02T00:00:00+00:00");
}

#[test]
fn malformed_canvas_is_parse_error() {
    let r = load_canvas::<u8>(Err(ReadFailure::Malformed(s("expected value"))), s("T"));
    match r {
        Err(StoreError::Parse(m)) => assert_eq!(m, "Failed to parse canvas: expected value"),
        _ => panic!("expected a parse error"),
    }
}

#[test]
fn update_stamps_and_fills_version() {
    let u = prepare_update(Ok(legacy("")), s("T5")).ok().unwrap();
    assert_eq!(u.version, "1.0.0");
    assert_eq!(u.modified, "T5");
    assert_eq!(u.id, "abc");
    assert_eq!(u.created, "2023-01-01T00:00:00+00:00");
    let u = prepare_update(Ok(legacy("2.1.0")), s("T6")).ok().unwrap();
    assert_eq!(u.version, "2.1.0");
    assert_eq!(u.modified, "T6");
    let u = update_canvas(Ok(legacy("1.0.0"))).ok().unwrap();
    assert_ne!(u.modified, "2023-01-02T00:00:00+00:00");
    match prepare_update::<u8>(Err(s("missing field `id`")), s("T")) {
        Err(StoreError::Parse(m)) => assert_eq!(m, "Failed to parse canvas data: missing field `id`"),
        _ => panic!("expected a parse error"),
    }
}

#[test]
fn delete_of_absent_canvas_is_not_found() {
    assert!(matches!(delete_canvas(false), Err(StoreError::CanvasNotFound)));
    assert!(matches!(delete_canvas(true), Ok(true)));
}

#[test]
fn root_canvas_defaults() {
    let c = root_canvas(s("T"), ());
    assert_eq!(c.id, "main");
    assert_eq!(c.name, "Main Canvas");
    assert_eq!(c.version, "1.0.0");
    assert_eq!(c.parent_id, None);
    assert_eq!(c.created, "T");
    assert_eq!(c.modified, "T");
    let c = new_root_canvas(1u8);
    assert_eq!(c.id, "main");
    assert_eq!(c.name, "Main Canvas");
    assert!(!c.created.is_empty());
    assert_eq!(c.created, c.modified);
}

#[test]
fn fresh_tree_is_default() {
    let l = load_tree(TreeRead::Absent).ok().unwrap();
    assert!(l.write_back);
    assert_eq!(l.tree.root_canvases, vec![s("main")]);
    assert_eq!(l.tree.canvases.len(), 1);
    let node = l.tree.get(&s("main")).unwrap();
    assert_eq!(node.name, "Main Canvas");
    assert!(node.children.is_empty());
    assert_eq!(node.parent, None);
    assert_eq!(default_tree().canvases.len(), 1);
}

#[test]
fn updated_tree_reads_back_exactly() {
    let mut t = TreeStructure::new(vec![s("a")]);
    t.insert(s("a"), TreeNode { name: s("A"), children: vec![s("b")], parent: None });
    t.insert(s("b"), TreeNode { name: s("B"), children: vec![], parent: Some(s("a")) });
    let l = load_tree(TreeRead::Parsed(t)).ok().unwrap();
    assert!(!l.write_back);
    assert_eq!(l.tree.root_canvases, vec![s("a")]);
    assert_eq!(l.tree.canvases.len(), 2);
    assert!(l.tree.get(&s("main")).is_none());
    assert_eq!(l.tree.get(&s("b")).unwrap().parent, Some(s("a")));
    assert_eq!(l.tree.get(&s("a")).unwrap().children, vec![s("b")]);
}

#[test]
fn tree_insert_replaces() {
    let mut t = TreeStructure::new(vec![]);
    t.insert(s("x"), TreeNode { name: s("one"), children: vec![], parent: None });
    t.insert(s("x"), TreeNode { name: s("two"), children: vec![], parent: None });
    assert_eq!(t.canvases.len(), 1);
    assert_eq!(t.get(&s("x")).unwrap().name, "two");
}

#[test]
fn tree_read_errors() {
    match load_tree(TreeRead::Unreadable(s("denied"))) {
        Err(StoreError::Io(m)) => assert_eq!(m, "Failed to read tree file: denied"),
        _ => panic!("expected an io error"),
    }
    match load_tree(TreeRead::Malformed(s("eof"))) {
        Err(StoreError::Parse(m)) => assert_eq!(m, "Failed to parse tree: eof"),
        _ => panic!("expected a parse error"),
    }
}

#[test]
fn saved_image_keeps_extension() {
    let data = vec![0u8, 1, 2, 255];
    let r = save_image(s("photo.jpg"), &data);
    assert!(r.filename.ends_with(".jpg"));
    assert!(is_id(&r.filename[..36]));
    assert_eq!(r.filename.len(), 40);
    assert_eq!(r.size, 4);
    assert_eq!(r.original_name, "photo.jpg");
    assert_eq!(r.path, format!("/api/images/{}", r.filename));
}

#[test]
fn saved_image_defaults_to_png() {
    let r = save_image(s("photo"), &vec![]);
    assert!(r.filename.ends_with(".png"));
    assert_eq!(r.size, 0);
    assert_eq!(extension_for(".bashrc"), "png");
    assert_eq!(extension_for("archive.tar.gz"), "gz");
    assert_eq!(extension_for("dir.d/file"), "png");
}

#[test]
fn uploaded_record_is_exact() {
    let r = uploaded_file("abc", s("cat.gif"), 12);
    assert_eq!(r.filename, "abc.gif");
    assert_eq!(r.original_name, "cat.gif");
    assert_eq!(r.size, 12);
    assert_eq!(r.path, "/api/images/abc.gif");
}

#[test]
fn image_lookup() {
    assert_eq!(found_image(s("/d/x.png"), true).ok(), Some(s("/d/x.png")));
    assert!(matches!(found_image(s("/d/x.png"), false), Err(StoreError::ImageNotFound)));
}

#[test]
fn error_messages() {
    assert_eq!(StoreError::CanvasNotFound.message(), "Canvas not found");
    assert_eq!(StoreError::ImageNotFound.message(), "Image not found");
    assert_eq!(StoreError::InvalidPath.message(), "Invalid path");
    assert_eq!(StoreError::Io(s("disk full")).message(), "disk full");
    assert_eq!(StoreError::Config(s("no dir")).message(), "no dir");
    assert_eq!(prefixed("a: ", "b"), "a: b");
}
