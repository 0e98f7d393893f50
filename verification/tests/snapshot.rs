use dirnav::errors::MetaError;
use dirnav::info::{EntryMeta, Timestamp};
use dirnav::logic::{App, Resolved};

fn names(count: usize) -> Vec<String> {
    (0..count).map(|i| format!("n{}", i)).collect()
}

fn meta() -> Result<EntryMeta, MetaError> {
    Ok(EntryMeta { is_dir: false, size: 2_048, modified: Some(Timestamp { secs: 0, nanos: 0 }) })
}

fn now() -> Timestamp {
    Timestamp { secs: 36_000, nanos: 0 }
}

#[test]
fn the_first_picture() {
    let app = App::new(String::from("root"), Ok(names(100))).unwrap();
    let shot = app.current_view(meta(), now());
    assert_eq!(shot.rows, names(100)[0..38].to_vec());
    assert_eq!(shot.highlight, Some(0));
    assert_eq!(shot.previous, "Previous Directory: None");
    assert_eq!(shot.preview, "");
    assert_eq!(shot.info, "Type: File\nSize: 2.00 KB\nModified: 10 hours ago");
}

#[test]
fn the_picture_follows_the_scroll() {
    let mut app = App::new(String::from("root"), Ok(names(100))).unwrap();
    for _ in 0..40 {
        app.navigate(1);
    }
    app.navigate(-1);
    let before = app.clone();
    let shot = app.current_view(meta(), now());
    assert_eq!(app, before);
    assert_eq!(shot.rows, names(100)[3..41].to_vec());
    assert_eq!(shot.highlight, Some(36));
}

#[test]
fn the_picture_near_the_end_is_shorter() {
    let mut app = App::new(String::from("root"), Ok(names(40))).unwrap();
    for _ in 0..39 {
        app.navigate(1);
    }
    assert_eq!(app.offset, 2);
    app.offset = 30;
    assert!(app.is_valid());
    let shot = app.current_view(meta(), now());
    assert_eq!(shot.rows, names(40)[30..40].to_vec());
    assert_eq!(shot.highlight, Some(9));
}

#[test]
fn a_short_listing_is_shown_whole() {
    let app = App::new(String::from("root"), Ok(names(3))).unwrap();
    let shot = app.current_view(Err(MetaError::PermissionDenied), now());
    assert_eq!(shot.rows, names(3));
    assert_eq!(shot.info, "Error accessing file: permission denied");
}

#[test]
fn the_picture_names_the_directory_before() {
    let mut app = App::new(String::from("root"), Ok(names(3))).unwrap();
    assert_eq!(app.enter_directory(Resolved::Directory(Ok(names(2)))), Ok(()));
    assert_eq!(app.enter_directory(Resolved::File(Ok(String::from("hello")))), Ok(()));
    let shot = app.current_view(meta(), now());
    assert_eq!(shot.previous, "Previous Directory: root");
    assert_eq!(shot.preview, "hello");
    assert_eq!(shot.rows, names(2));
}

#[test]
fn the_picture_of_an_empty_directory() {
    let app = App::new(String::from("root"), Ok(Vec::new())).unwrap();
    let shot = app.current_view(Err(MetaError::NotFound), now());
    assert!(shot.rows.is_empty());
    assert_eq!(shot.highlight, None);
    assert_eq!(shot.info, "No entry selected");
    assert_eq!(shot.preview, "");
}
