//! The navigation state: where the browser stands, which entry is selected,
//! which rows are visible, and the way back.

use vstd::prelude::*;
use crate::errors::{InitError, ListError, NavError, ReadError};
use crate::paths::{join_path, joined_path};

verus! {

/// The number of rows of the listing that are visible at once.
pub const WINDOW_ROWS: usize = 38;

/// The navigation state of the browser.
#[derive(Debug, PartialEq, Eq)]
pub struct App {
    /// The directory being browsed.
    pub current_dir: String,
    /// The directories passed through on the way here, the latest last.
    pub previous_dirs: Vec<String>,
    /// The names of the entries of `current_dir`, in the order they were
    /// listed in.
    pub files: Vec<String>,
    /// The index of the highlighted entry.
    pub selected: usize,
    /// The index of the first visible entry.
    pub offset: usize,
    /// The number of rows that are visible at once.
    pub visible_count: usize,
    /// The text loaded for the selected file; empty where none is loaded.
    pub preview_text: String,
}

/// What the filesystem answered about the selected entry when the user
/// activated it.
#[derive(Debug, PartialEq, Eq)]
pub enum Resolved {
    /// The entry is a directory; with its listing, or why it has none.
    Directory(Result<Vec<String>, ListError>),
    /// The entry is anything else; with its text, or why it has none.
    File(Result<String, ReadError>),
}

/// The contents of a list of strings.
pub open spec fn texts(names: Seq<String>) -> Seq<Seq<char>> {
    Seq::new(names.len(), |i: int| names[i]@)
}

/// The navigation state as plain mathematical values.
pub struct AppView {
    pub location: Seq<char>,
    pub history: Seq<Seq<char>>,
    pub entries: Seq<Seq<char>>,
    pub selected: int,
    pub offset: int,
    pub window: int,
    pub preview: Seq<char>,
}

impl AppView {
    /// The invariant of the state: the window has rows; with no entries the
    /// selection and the offset rest at zero; otherwise the selection names an
    /// entry and lies inside the window that starts at the offset.
    pub open spec fn wf(self) -> bool {
        &&& self.window > 0
        &&& if self.entries.len() == 0 {
            self.selected == 0 && self.offset == 0
        } else {
            &&& 0 <= self.selected < self.entries.len()
            &&& 0 <= self.offset <= self.selected < self.offset + self.window
        }
    }

    /// The state on arrival in `location`, whose entries are `entries`, with
    /// `history` behind it.
    pub open spec fn arrived(
        location: Seq<char>,
        history: Seq<Seq<char>>,
        entries: Seq<Seq<char>>,
        window: int,
    ) -> AppView {
        AppView {
            location,
            history,
            entries,
            selected: 0,
            offset: 0,
            window,
            preview: Seq::empty(),
        }
    }

    /// The selection after one step in `direction`: forward where it is
    /// positive, backward where it is negative, and never past either end.
    pub open spec fn stepped(self, direction: int) -> int {
        if self.entries.len() == 0 {
            self.selected
        } else if direction > 0 && self.selected + 1 < self.entries.len() {
            self.selected + 1
        } else if direction < 0 && self.selected > 0 {
            self.selected - 1
        } else {
            self.selected
        }
    }

    /// The offset that follows a selection `target`: one row down where the
    /// selection left the window at its end, one row up (not below zero) where
    /// it left at its start.
    pub open spec fn scrolled(self, target: int) -> int {
        if target >= self.offset + self.window {
            self.offset + 1
        } else if target < self.offset {
            if self.offset > 0 {
                self.offset - 1
            } else {
                0
            }
        } else {
            self.offset
        }
    }

    /// The state after one step of the selection. A preview does not outlive
    /// the selection it was loaded for.
    pub open spec fn moved(self, direction: int) -> AppView {
        let target = self.stepped(direction);
        if self.entries.len() == 0 {
            self
        } else {
            AppView {
                selected: target,
                offset: self.scrolled(target),
                preview: if target == self.selected {
                    self.preview
                } else {
                    Seq::empty()
                },
                ..self
            }
        }
    }

    /// The state after a run of steps, taken in order.
    pub open spec fn moved_all(self, directions: Seq<int>) -> AppView
        decreases directions.len(),
    {
        if directions.len() == 0 {
            self
        } else {
            self.moved_all(directions.drop_last()).moved(directions.last())
        }
    }

    /// The state after entering the directory `target`, whose entries are
    /// `listing`.
    pub open spec fn entered(self, target: Seq<char>, listing: Seq<Seq<char>>) -> AppView {
        AppView::arrived(target, self.history.push(self.location), listing, self.window)
    }

    /// The state after going back to the latest directory of the history,
    /// whose entries are now `listing`.
    pub open spec fn returned(self, listing: Seq<Seq<char>>) -> AppView
        recommends
            self.history.len() > 0,
    {
        AppView::arrived(self.history.last(), self.history.drop_last(), listing, self.window)
    }

    /// The state with `text` as its preview.
    pub open spec fn previewing(self, text: Seq<char>) -> AppView {
        AppView { preview: text, ..self }
    }

    /// The path of the selected entry, where there is one.
    pub open spec fn selected_path(self) -> Option<Seq<char>> {
        if 0 <= self.selected < self.entries.len() {
            Some(joined_path(self.location, self.entries[self.selected]))
        } else {
            None
        }
    }

    /// The state after the selected entry was activated and the filesystem
    /// answered `resolved`.
    pub open spec fn activated(self, resolved: Resolved) -> AppView {
        match self.selected_path() {
            None => self,
            Some(target) => match resolved {
                Resolved::Directory(Ok(listing)) => self.entered(target, texts(listing@)),
                Resolved::Directory(Err(_)) => self,
                Resolved::File(Ok(text)) => self.previewing(text@),
                Resolved::File(Err(_)) => self.previewing(Seq::empty()),
            },
        }
    }

    /// What activating the selected entry reports: a failure only where a
    /// directory was selected and could not be listed.
    pub open spec fn activation_outcome(self, resolved: Resolved) -> Result<(), NavError> {
        match (self.selected_path(), resolved) {
            (Some(_), Resolved::Directory(Err(e))) => Err(NavError::Listing(e)),
            _ => Ok(()),
        }
    }

    /// The state after a request to go back, where listing the directory to
    /// return to gave `listing`.
    pub open spec fn backed(self, listing: Result<Vec<String>, ListError>) -> AppView {
        if self.history.len() == 0 {
            self
        } else {
            match listing {
                Ok(names) => self.returned(texts(names@)),
                Err(_) => self,
            }
        }
    }

    /// What a request to go back reports: a failure only where there was a
    /// directory to return to and it could not be listed.
    pub open spec fn back_outcome(self, listing: Result<Vec<String>, ListError>) -> Result<
        (),
        NavError,
    > {
        if self.history.len() == 0 {
            Ok(())
        } else {
            match listing {
                Ok(_) => Ok(()),
                Err(e) => Err(NavError::Listing(e)),
            }
        }
    }
}

impl View for App {
    type V = AppView;

    open spec fn view(&self) -> AppView {
        AppView {
            location: self.current_dir@,
            history: texts(self.previous_dirs@),
            entries: texts(self.files@),
            selected: self.selected as int,
            offset: self.offset as int,
            window: self.visible_count as int,
            preview: self.preview_text@,
        }
    }
}

/// A copy of a list of names.
pub fn clone_names(names: &Vec<String>) -> (copy: Vec<String>)
    ensures
        copy@ == names@,
{
    let mut copy: Vec<String> = Vec::new();
    let mut i: usize = 0;
    while i < names.len()
        invariant
            i <= names.len(),
            copy@ =~= names@.take(i as int),
        decreases names.len() - i,
    {
        copy.push(names[i].clone());
        i += 1;
    }
    assert(names@.take(names@.len() as int) =~= names@);
    copy
}

impl Clone for App {
    fn clone(&self) -> (copy: App)
        ensures
            copy@ == self@,
            copy.previous_dirs@ == self.previous_dirs@,
            copy.files@ == self.files@,
    {
        App {
            current_dir: self.current_dir.clone(),
            previous_dirs: clone_names(&self.previous_dirs),
            files: clone_names(&self.files),
            selected: self.selected,
            offset: self.offset,
            visible_count: self.visible_count,
            preview_text: self.preview_text.clone(),
        }
    }
}

impl App {
    /// Starts the browser in `path`, whose listing is `listing`.
    ///
    /// Without a listing of the starting directory there is no browser: the
    /// failure of the listing is handed back as the failure to start.
    pub fn new(path: String, listing: Result<Vec<String>, ListError>) -> (started: Result<
        App,
        InitError,
    >)
        ensures
            match listing {
                Ok(names) => started.is_ok() && started.unwrap()@ == AppView::arrived(
                    path@,
                    Seq::empty(),
                    texts(names@),
                    WINDOW_ROWS as int,
                ) && started.unwrap()@.wf(),
                Err(e) => started == Err::<App, InitError>(InitError::Listing(e)),
            },
    {
        match listing {
            Err(e) => Err(InitError::Listing(e)),
            Ok(files) => {
                let app = App {
                    current_dir: path,
                    previous_dirs: Vec::new(),
                    files,
                    selected: 0,
                    offset: 0,
                    visible_count: WINDOW_ROWS,
                    preview_text: String::new(),
                };
                assert(app@.history =~= Seq::empty());
                Ok(app)
            },
        }
    }

    /// Whether the state meets its invariant.
    pub fn is_valid(&self) -> (valid: bool)
        ensures
            valid == self@.wf(),
    {
        if self.visible_count == 0 {
            false
        } else if self.files.len() == 0 {
            self.selected == 0 && self.offset == 0
        } else {
            self.selected < self.files.len() && self.offset <= self.selected && self.selected
                - self.offset < self.visible_count
        }
    }

    /// The path of the selected entry: the current directory joined with the
    /// entry's name. `None` where the listing is empty.
    pub fn selected_path(&self) -> (path: Option<String>)
        ensures
            match path {
                Some(joined) => self@.selected_path() == Some(joined@),
                None => self@.selected_path().is_none(),
            },
    {
        if self.selected < self.files.len() {
            Some(join_path(self.current_dir.as_str(), self.files[self.selected].as_str()))
        } else {
            None
        }
    }

    /// Moves the selection one entry forward (`direction > 0`) or backward
    /// (`direction < 0`), stopping at either end, and scrolls the window by
    /// one row where the selection left it. With no entries nothing changes.
    ///
    /// The window must have at least one row; a state that met the invariant
    /// before the step meets it after.
    pub fn navigate(&mut self, direction: isize)
        requires
            old(self).visible_count > 0,
        ensures
            final(self)@ == old(self)@.moved(direction as int),
            old(self)@.wf() ==> final(self)@.wf(),
            final(self).current_dir == old(self).current_dir,
            final(self).previous_dirs == old(self).previous_dirs,
            final(self).files == old(self).files,
            direction < 0 && old(self).selected == 0 ==> final(self).selected == 0,
            direction > 0 && old(self).selected + 1 >= old(self).files.len()
                ==> final(self).selected == old(self).selected,
            old(self)@.wf() && direction < 0 && old(self).selected == 0
                ==> *final(self) == *old(self),
            old(self)@.wf() && direction > 0 && old(self).selected + 1 >= old(self).files.len()
                ==> *final(self) == *old(self),
            old(self).files.len() == 0 ==> *final(self) == *old(self),
    {
        let count = self.files.len();
        if count == 0 {
            return ;
        }
        let before = self.selected;
        if direction > 0 && self.selected < count - 1 {
            self.selected += 1;
        } else if direction < 0 && self.selected > 0 {
            self.selected -= 1;
        }
        if self.selected < self.offset {
            if self.offset > 0 {
                self.offset -= 1;
            }
        } else if self.selected - self.offset >= self.visible_count {
            self.offset += 1;
        }
        if self.selected != before {
            self.preview_text = String::new();
        }
    }

    /// Moves the selection to the next entry, if there is one.
    pub fn select_next(&mut self)
        requires
            old(self).visible_count > 0,
        ensures
            final(self)@ == old(self)@.moved(1),
            old(self)@.wf() ==> final(self)@.wf(),
            old(self).selected + 1 >= old(self).files.len()
                ==> final(self).selected == old(self).selected,
            old(self)@.wf() && old(self).selected + 1 >= old(self).files.len() ==> *final(self)
                == *old(self),
    {
        self.navigate(1);
    }

    /// Moves the selection to the entry before, if there is one.
    pub fn select_previous(&mut self)
        requires
            old(self).visible_count > 0,
        ensures
            final(self)@ == old(self)@.moved(-1),
            old(self)@.wf() ==> final(self)@.wf(),
            old(self).selected == 0 ==> final(self).selected == 0,
            old(self)@.wf() && old(self).selected == 0 ==> *final(self) == *old(self),
    {
        self.navigate(-1);
    }

    /// Moves into the directory `target`, whose entries are `listing`: the
    /// current directory goes onto the history, the selection and the window
    /// start over, and the preview is dropped.
    pub fn enter(&mut self, target: String, listing: Vec<String>)
        ensures
            final(self)@ == old(self)@.entered(target@, texts(listing@)),
            old(self)@.window > 0 ==> final(self)@.wf(),
    {
        self.previous_dirs.push(self.current_dir.clone());
        self.current_dir = target;
        self.files = listing;
        self.selected = 0;
        self.offset = 0;
        self.preview_text = String::new();
        assert(final(self)@.history =~= old(self)@.history.push(old(self)@.location));
    }

    /// Acts on the activation of the selected entry, given what the
    /// filesystem answered about it.
    ///
    /// A directory with a listing is entered: the current directory goes onto
    /// the history, the selection and the window start over, the preview is
    /// dropped. A directory without a listing leaves the state as it was and
    /// reports the failure. Anything else is previewed: its text becomes the
    /// preview, or the preview is emptied where there is no text. With no
    /// entry selected nothing changes.
    pub fn enter_directory(&mut self, resolved: Resolved) -> (outcome: Result<(), NavError>)
        ensures
            final(self)@ == old(self)@.activated(resolved),
            outcome == old(self)@.activation_outcome(resolved),
            old(self)@.wf() ==> final(self)@.wf(),
            old(self).selected >= old(self).files.len() ==> *final(self) == *old(self),
            outcome.is_err() ==> *final(self) == *old(self),
    {
        if self.selected < self.files.len() {
            match resolved {
                Resolved::Directory(Ok(listing)) => {
                    let target = join_path(
                        self.current_dir.as_str(),
                        self.files[self.selected].as_str(),
                    );
                    self.enter(target, listing);
                    Ok(())
                },
                Resolved::Directory(Err(e)) => Err(NavError::Listing(e)),
                Resolved::File(Ok(text)) => {
                    self.preview_text = text;
                    Ok(())
                },
                Resolved::File(Err(_)) => {
                    self.preview_text = String::new();
                    Ok(())
                },
            }
        } else {
            Ok(())
        }
    }

    /// The directory that `go_back` would return to, where there is one.
    pub fn previous_dir(&self) -> (dir: Option<String>)
        ensures
            match dir {
                Some(latest) => self@.history.len() > 0 && latest@ == self@.history.last(),
                None => self@.history.len() == 0,
            },
    {
        let depth = self.previous_dirs.len();
        if depth == 0 {
            None
        } else {
            Some(self.previous_dirs[depth - 1].clone())
        }
    }

    /// Returns to the latest directory of the history, given what listing it
    /// gave.
    ///
    /// With an empty history nothing changes, whatever `listing` holds. Where
    /// the directory could not be listed the state stays as it was and the
    /// failure is reported. Otherwise the directory leaves the history and
    /// becomes the current one, with `listing` as its entries; the selection
    /// and the window start over and the preview is dropped.
    pub fn go_back(&mut self, listing: Result<Vec<String>, ListError>) -> (outcome: Result<
        (),
        NavError,
    >)
        ensures
            final(self)@ == old(self)@.backed(listing),
            outcome == old(self)@.back_outcome(listing),
            old(self)@.wf() ==> final(self)@.wf(),
            old(self).previous_dirs.len() == 0 ==> *final(self) == *old(self),
            outcome.is_err() ==> *final(self) == *old(self),
    {
        if self.previous_dirs.len() == 0 {
            return Ok(());
        }
        match listing {
            Err(e) => Err(NavError::Listing(e)),
            Ok(names) => {
                let latest = self.previous_dirs.pop();
                match latest {
                    Some(dir) => {
                        self.current_dir = dir;
                    },
                    None => {},
                }
                self.files = names;
                self.selected = 0;
                self.offset = 0;
                self.preview_text = String::new();
                assert(final(self)@.history =~= old(self)@.history.drop_last());
                Ok(())
            },
        }
    }
}

} // verus!
