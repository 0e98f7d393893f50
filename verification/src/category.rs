//! Sorting entries into kinds of content by the extension of their name.

use vstd::prelude::*;
use vstd::string::*;

verus! {

/// The kind of content that an extension stands for.
#[derive(Clone, Copy, Debug, PartialEq, Eq, Structural)]
pub enum Category {
    Text,
    Image,
    Audio,
    Video,
    Unknown,
}

/// The extension of the last component of `path`, as the platform's path
/// rules give it; `None` where it has none.
pub uninterp spec fn path_extension(path: Seq<char>) -> Option<Seq<char>>;

/// Trusted: calls `std::path::Path::extension` on `path`. The contract only
/// gives the outcome a name, `path_extension`. The path is valid UTF-8, so
/// the conversion of the extension to a `String` loses nothing.
#[verifier::external_body]
pub(crate) fn extension_of(path: &str) -> (extension: Option<String>)
    ensures
        match extension {
            Some(found) => path_extension(path@) == Some(found@),
            None => path_extension(path@).is_none(),
        },
{
    std::path::Path::new(path).extension().map(|e| e.to_string_lossy().into_owned())
}

/// The table from extension to kind of content. Extensions are told apart by
/// case; one that the table lacks is `Unknown`.
pub open spec fn category_of_extension(extension: Seq<char>) -> Category {
    if extension == "txt"@ {
        Category::Text
    } else if extension == "png"@ || extension == "jpg"@ || extension == "jpeg"@ || extension
        == "gif"@ {
        Category::Image
    } else if extension == "mp3"@ || extension == "flac"@ {
        Category::Audio
    } else if extension == "mp4"@ || extension == "mkv"@ {
        Category::Video
    } else {
        Category::Unknown
    }
}

/// The kind of content of the entry at `path`, by its extension; `Unknown`
/// where it has none.
pub open spec fn category_of_path(path: Seq<char>) -> Category {
    match path_extension(path) {
        Some(extension) => category_of_extension(extension),
        None => Category::Unknown,
    }
}

/// Whether `word` is the same text as `other`.
fn same_text(word: &String, other: &str) -> (same: bool)
    ensures
        same == (word@ == other@),
{
    let owned = String::from_str(other);
    *word == owned
}

impl Category {
    /// Looks `extension` up in the table.
    pub fn of_extension(extension: &String) -> (category: Category)
        ensures
            category == category_of_extension(extension@),
    {
        if same_text(extension, "txt") {
            Category::Text
        } else if same_text(extension, "png") || same_text(extension, "jpg") || same_text(
            extension,
            "jpeg",
        ) || same_text(extension, "gif") {
            Category::Image
        } else if same_text(extension, "mp3") || same_text(extension, "flac") {
            Category::Audio
        } else if same_text(extension, "mp4") || same_text(extension, "mkv") {
            Category::Video
        } else {
            Category::Unknown
        }
    }

    /// The kind of content of the entry at `path`.
    pub fn of_path(path: &str) -> (category: Category)
        ensures
            category == category_of_path(path@),
    {
        match extension_of(path) {
            Some(extension) => Category::of_extension(&extension),
            None => Category::Unknown,
        }
    }

    /// Whether entries of this kind are handed to an outside program to be
    /// opened: pictures, sound and film are, text and the unknown are not.
    pub fn opens_externally(&self) -> (external: bool)
        ensures
            external == (*self == Category::Image || *self == Category::Audio || *self
                == Category::Video),
    {
        match self {
            Category::Image | Category::Audio | Category::Video => true,
            Category::Text | Category::Unknown => false,
        }
    }
}

} // verus!
