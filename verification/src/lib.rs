//! A scoped-lifetime temporary-directory guard.
//!
//! A guard owns exactly one filesystem path: it is created over that path and
//! promises the path's recursive removal when its scope ends.  This crate
//! holds the guard's verified core: the construction rules (plain and forced),
//! the path accessor, and the disposal step, each stated over the outcomes of
//! the filesystem calls, which the surrounding program performs and hands in
//! as plain values.  The model module states what those calls do to the
//! filesystem, viewed as the set of existing paths.

use vstd::prelude::*;

pub mod guard;
pub mod model;

pub use guard::EphemeralDir;
pub use guard::ephemeral_dir;
pub use guard::ephemeral_dir_forced;

verus! {

/// The error of a failed construction: the text of the underlying system
/// error that the creation or pre-removal step reported.
#[derive(Debug)]
pub struct DirError {
    message: String,
}

impl View for DirError {
    type V = Seq<char>;

    closed spec fn view(&self) -> Seq<char> {
        self.message@
    }
}

impl DirError {
    /// Wraps a system error's text.
    pub(crate) fn from_message(message: String) -> (r: DirError)
        ensures
            r@ == message@,
    {
        DirError { message }
    }

    /// The underlying system error's text.
    pub fn message(&self) -> (r: &String)
        ensures
            r@ == self@,
    {
        &self.message
    }
}

} // verus!
