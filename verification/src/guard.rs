//! The directory guard itself.
//!
//! A guard is built over a path in two ways.  Plain creation demands that the
//! path not exist yet: a pre-existing path is a programmer error, so the
//! caller halts on it before construction, and the precondition here leaves
//! that input out.  Forced creation tolerates a pre-existing path: the caller
//! first removes the tree, and construction goes ahead only if that removal
//! succeeded.
//!
//! The filesystem calls themselves (the existence check, the recursive
//! creation, the recursive removal) are performed by the surrounding program,
//! which hands their outcomes in as plain values; the contracts here say
//! exactly which guard or which error each combination of outcomes yields.

use vstd::prelude::*;

use crate::DirError;

verus! {

/// A guard over one directory: it holds the path it owns, set once at
/// construction and immutable thereafter.  Disposal consumes the guard, so a
/// disposed guard cannot be revived or reused.
pub struct EphemeralDir {
    path: String,
}

impl View for EphemeralDir {
    type V = Seq<char>;

    closed spec fn view(&self) -> Seq<char> {
        self.path@
    }
}

impl EphemeralDir {
    /// Plain creation over a path that does not exist yet.
    ///
    /// `exists` is the caller's observation of the path just before the
    /// creation attempt, and must be false: a pre-existing path is a
    /// programmer error on which the caller halts instead of calling here.
    /// `create_result` is the outcome of the recursive creation attempt.  A
    /// successful attempt yields a guard owning exactly `path`; a failed one
    /// yields an error carrying the system error's text, and no guard.
    pub fn new(path: String, exists: bool, create_result: Result<(), String>) -> (r: Result<
        EphemeralDir,
        DirError,
    >)
        requires
            !exists,
        ensures
            create_result is Ok ==> (r matches Ok(g) && g@ == path@),
            create_result matches Err(m) ==> (r matches Err(e) && e@ == m@),
    {
        match create_result {
            Ok(_) => Ok(EphemeralDir { path }),
            Err(m) => Err(DirError::from_message(m)),
        }
    }

    /// Forced creation: a pre-existing path is first removed, then creation
    /// proceeds as in `new`.
    ///
    /// `exists` is the caller's observation of the path; `remove_result` is
    /// the outcome of the recursive removal, attempted exactly when the path
    /// existed; `create_result` is the outcome of the creation attempt, made
    /// exactly when no removal was needed or the removal succeeded.  A failed
    /// removal yields its error and no guard, and no creation is attempted;
    /// otherwise the outcome is that of `new`.
    pub fn new_forced(
        path: String,
        exists: bool,
        remove_result: Option<Result<(), String>>,
        create_result: Option<Result<(), String>>,
    ) -> (r: Result<EphemeralDir, DirError>)
        requires
            exists <==> remove_result is Some,
            remove_result matches Some(rr) ==> (rr is Ok <==> create_result is Some),
            remove_result is None ==> create_result is Some,
        ensures
            remove_result matches Some(Err(m)) ==> (r matches Err(e) && e@ == m@),
            create_result matches Some(Ok(u)) ==> (r matches Ok(g) && g@ == path@),
            create_result matches Some(Err(m)) ==> (r matches Err(e) && e@ == m@),
    {
        match remove_result {
            Some(Err(m)) => Err(DirError::from_message(m)),
            _ => match create_result {
                Some(res) => Self::new(path, false, res),
                None => vstd::pervasive::unreached(),
            },
        }
    }

    /// The path the guard owns: a read-only view, valid for the guard's
    /// entire lifetime, equal to the path it was constructed over.
    pub fn path(&self) -> (r: &str)
        ensures
            r@ == self@,
    {
        self.path.as_str()
    }

    /// Disposal: ends the guard's life, consuming it.
    ///
    /// The caller attempts the recursive removal of the owned path and hands
    /// the outcome in as `remove_result`.  Cleanup is best-effort by
    /// contract: the outcome is discarded whatever it was, so a failed
    /// removal is unobservable here — disposal returns nothing, cannot fail
    /// and cannot panic.
    pub fn dispose(self, remove_result: Result<(), String>) {
        let _ = remove_result;
    }
}

/// A guard stands in for its owned path: wherever a plain path is accepted,
/// passing the guard's view gives the same answer as passing the raw path it
/// was constructed over, whatever the query asks.
pub proof fn lemma_guard_transparent(
    g: EphemeralDir,
    path: Seq<char>,
    query: spec_fn(Seq<char>) -> bool,
)
    requires
        g@ == path,
    ensures
        query(g@) == query(path),
{
}

/// Plain creation; the free-function form of `EphemeralDir::new`, with the
/// same contract.
pub fn ephemeral_dir(path: String, exists: bool, create_result: Result<(), String>) -> (r: Result<
    EphemeralDir,
    DirError,
>)
    requires
        !exists,
    ensures
        create_result is Ok ==> (r matches Ok(g) && g@ == path@),
        create_result matches Err(m) ==> (r matches Err(e) && e@ == m@),
{
    EphemeralDir::new(path, exists, create_result)
}

/// Forced creation; the free-function form of `EphemeralDir::new_forced`,
/// with the same contract.
pub fn ephemeral_dir_forced(
    path: String,
    exists: bool,
    remove_result: Option<Result<(), String>>,
    create_result: Option<Result<(), String>>,
) -> (r: Result<EphemeralDir, DirError>)
    requires
        exists <==> remove_result is Some,
        remove_result matches Some(rr) ==> (rr is Ok <==> create_result is Some),
        remove_result is None ==> create_result is Some,
    ensures
        remove_result matches Some(Err(m)) ==> (r matches Err(e) && e@ == m@),
        create_result matches Some(Ok(u)) ==> (r matches Ok(g) && g@ == path@),
        create_result matches Some(Err(m)) ==> (r matches Err(e) && e@ == m@),
{
    EphemeralDir::new_forced(path, exists, remove_result, create_result)
}

} // verus!
