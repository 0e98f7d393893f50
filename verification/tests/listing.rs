use dirnav::errors::ListError;
use dirnav::listing::Found;
use dirnav::logic::App;

fn entry(name: &str) -> Found {
    Found::Entry(String::from(name))
}

#[test]
fn an_empty_walk_gives_an_empty_listing() {
    assert_eq!(App::read_files(&Vec::new()), Ok(Vec::new()));
}

#[test]
fn names_keep_the_order_of_the_walk() {
    let found = vec![entry("zeta"), entry("alpha"), entry("mid"), entry("alpha2")];
    let listing = App::read_files(&found).unwrap();
    assert_eq!(listing, vec!["zeta", "alpha", "mid", "alpha2"]);
}

#[test]
fn an_entry_that_failed_is_left_out() {
    let found = vec![
        entry("a"),
        Found::Failure { depth: 1, cause: ListError::PermissionDenied },
        entry("b"),
        Found::Failure { depth: 2, cause: ListError::Other },
    ];
    assert_eq!(App::read_files(&found), Ok(vec![String::from("a"), String::from("b")]));
}

#[test]
fn a_failure_of_the_directory_itself_fails_the_listing() {
    let found = vec![Found::Failure { depth: 0, cause: ListError::NotFound }];
    assert_eq!(App::read_files(&found), Err(ListError::NotFound));
    let found = vec![
        entry("a"),
        Found::Failure { depth: 1, cause: ListError::Other },
        Found::Failure { depth: 0, cause: ListError::NotADirectory },
        Found::Failure { depth: 0, cause: ListError::PermissionDenied },
        entry("b"),
    ];
    assert_eq!(App::read_files(&found), Err(ListError::NotADirectory));
}

#[test]
fn an_empty_listing_starts_a_stable_browser() {
    let listing = App::read_files(&Vec::new());
    let mut app = App::new(String::from("empty"), listing).unwrap();
    assert!(app.files.is_empty());
    app.navigate(1);
    app.navigate(-1);
    assert_eq!(app.selected, 0);
    assert_eq!(app.offset, 0);
    assert_eq!(app.selected_path(), None);
}
