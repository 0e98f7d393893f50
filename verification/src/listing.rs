//! Gathering the names of a directory's entries from what a walk over it
//! found.

use vstd::prelude::*;
use crate::errors::ListError;
use crate::logic::{texts, App};

verus! {

/// One thing that a walk over a directory came upon.
#[derive(Debug, PartialEq, Eq)]
pub enum Found {
    /// An entry, by its name.
    Entry(String),
    /// A failure, `depth` levels below the directory walked; at depth zero
    /// the directory itself could not be walked.
    Failure { depth: usize, cause: ListError },
}

/// The names of the entries among `found`, in the order they were found in.
/// Failures below the directory itself are passed over.
pub open spec fn names_found(found: Seq<Found>) -> Seq<Seq<char>>
    decreases found.len(),
{
    if found.len() == 0 {
        Seq::empty()
    } else {
        let before = names_found(found.drop_last());
        match found.last() {
            Found::Entry(name) => before.push(name@),
            Found::Failure { .. } => before,
        }
    }
}

/// The cause of the first failure of the directory itself among `found`.
pub open spec fn root_failure(found: Seq<Found>) -> Option<ListError>
    decreases found.len(),
{
    if found.len() == 0 {
        None
    } else {
        match root_failure(found.drop_last()) {
            Some(cause) => Some(cause),
            None => match found.last() {
                Found::Failure { depth, cause } => if depth == 0 {
                    Some(cause)
                } else {
                    None
                },
                Found::Entry(_) => None,
            },
        }
    }
}

impl App {
    /// The listing of a directory, from what a walk over its immediate
    /// children found.
    ///
    /// Where the directory itself could not be walked there is no listing,
    /// and the first such failure is the error. Otherwise the listing holds
    /// the name of every entry found, in the order of the walk; an entry
    /// that failed on its own is left out.
    pub fn read_files(found: &Vec<Found>) -> (listing: Result<Vec<String>, ListError>)
        ensures
            match root_failure(found@) {
                Some(cause) => listing == Err::<Vec<String>, ListError>(cause),
                None => listing.is_ok() && texts(listing.unwrap()@) == names_found(found@)
                    && listing.unwrap()@.len() == names_found(found@).len(),
            },
    {
        let mut names: Vec<String> = Vec::new();
        let mut failure: Option<ListError> = None;
        let mut i: usize = 0;
        assert(found@.take(0) =~= Seq::empty());
        while i < found.len()
            invariant
                i <= found.len(),
                failure == root_failure(found@.take(i as int)),
                texts(names@) =~= names_found(found@.take(i as int)),
            decreases found.len() - i,
        {
            assert(found@.take(i + 1).drop_last() =~= found@.take(i as int));
            assert(found@.take(i + 1).last() == found@[i as int]);
            match &found[i] {
                Found::Entry(name) => {
                    names.push(name.clone());
                },
                Found::Failure { depth, cause } => {
                    if *depth == 0 && failure.is_none() {
                        failure = Some(*cause);
                    }
                },
            }
            i += 1;
        }
        assert(found@.take(found@.len() as int) =~= found@);
        match failure {
            Some(cause) => Err(cause),
            None => Ok(names),
        }
    }
}

} // verus!
