//! The picture of the state that one frame is drawn from.

use vstd::prelude::*;
use vstd::string::*;
use crate::errors::MetaError;
use crate::info::{get_file_info, info_text, EntryMeta, Timestamp};
use crate::logic::{texts, App, AppView};

verus! {

/// All that one frame shows.
#[derive(Debug, PartialEq, Eq)]
pub struct Snapshot {
    /// The names of the visible entries, top row first.
    pub rows: Vec<String>,
    /// The row that holds the selected entry, where there is one.
    pub highlight: Option<usize>,
    /// The line that names the directory `go_back` would return to.
    pub previous: String,
    /// The text of the preview pane.
    pub preview: String,
    /// The text of the info panel.
    pub info: String,
}

/// The text of the info panel where no entry is selected.
pub open spec fn no_entry_text() -> Seq<char> {
    "No entry selected"@
}

impl AppView {
    /// The index just past the last visible entry.
    pub open spec fn visible_end(self) -> int {
        let rest = self.entries.len() - self.offset;
        self.offset + if self.window < rest {
            self.window
        } else {
            rest
        }
    }

    /// The visible entries: at most a window's worth, from the offset on.
    pub open spec fn visible(self) -> Seq<Seq<char>> {
        self.entries.subrange(self.offset, self.visible_end())
    }

    /// The row of the selected entry within the visible ones.
    pub open spec fn highlight(self) -> Option<int> {
        if self.offset <= self.selected < self.visible_end() {
            Some(self.selected - self.offset)
        } else {
            None
        }
    }

    /// The line that names the directory before the current one.
    pub open spec fn previous_text(self) -> Seq<char> {
        "Previous Directory: "@ + if self.history.len() > 0 {
            self.history.last()
        } else {
            "None"@
        }
    }

    /// The text of the info panel, given what the filesystem reported about
    /// the selected entry.
    pub open spec fn info_panel(self, meta: Result<EntryMeta, MetaError>, now: Timestamp) -> Seq<
        char,
    > {
        if self.entries.len() == 0 {
            no_entry_text()
        } else {
            info_text(meta, now)
        }
    }
}

impl App {
    /// The picture of the current state. `meta` is what the filesystem
    /// reported about the selected entry and `now` the present time; with no
    /// entries both are ignored. The state itself is not touched.
    pub fn current_view(&self, meta: Result<EntryMeta, MetaError>, now: Timestamp) -> (shot:
        Snapshot)
        requires
            self@.wf(),
        ensures
            texts(shot.rows@) == self@.visible(),
            shot.rows@.len() == self@.visible().len(),
            shot.highlight.is_some() == self@.highlight().is_some(),
            shot.highlight.is_some() ==> shot.highlight.unwrap() as int
                == self@.highlight().unwrap(),
            shot.previous@ == self@.previous_text(),
            shot.preview@ == self@.preview,
            shot.info@ == self@.info_panel(meta, now),
    {
        let count = self.files.len();
        let rest = count - self.offset;
        let end = self.offset + if self.visible_count < rest {
            self.visible_count
        } else {
            rest
        };
        let mut rows: Vec<String> = Vec::new();
        let mut i: usize = self.offset;
        while i < end
            invariant
                self.offset <= i <= end <= self.files.len(),
                rows@.len() == i - self.offset,
                texts(rows@) =~= texts(self.files@).subrange(self.offset as int, i as int),
            decreases end - i,
        {
            let ghost shown = rows@;
            rows.push(self.files[i].clone());
            assert forall|k: int| 0 <= k < rows@.len() implies #[trigger] texts(rows@)[k] == texts(
                self.files@,
            ).subrange(self.offset as int, i + 1)[k] by {
                if k < shown.len() {
                    assert(texts(shown)[k] == texts(self.files@).subrange(
                        self.offset as int,
                        i as int,
                    )[k]);
                }
            }
            i += 1;
        }
        let highlight = if self.selected < end {
            Some(self.selected - self.offset)
        } else {
            None
        };
        let mut previous = String::from_str("Previous Directory: ");
        let depth = self.previous_dirs.len();
        if depth > 0 {
            previous.append(self.previous_dirs[depth - 1].as_str());
        } else {
            previous.append("None");
        }
        let info = if count == 0 {
            String::from_str("No entry selected")
        } else {
            get_file_info(meta, now)
        };
        Snapshot { rows, highlight, previous, preview: self.preview_text.clone(), info }
    }
}

} // verus!
