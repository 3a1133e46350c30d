//! The clipboard as a transaction: whatever an operation puts on the
//! clipboard for its own purposes, the user finds afterwards what was there
//! before.
//!
//! The clipboard itself is reached by the caller. This module decides what
//! is kept as the backup, what is done to restore it, and what the whole
//! returns. The content of a format is carried through and never looked
//! into, so its type is left open.

use crate::error::AppError;
use vstd::prelude::*;

verus! {

/// A content format of the clipboard that is backed up.
#[derive(Clone, Copy, Debug, PartialEq, Eq, Structural)]
pub enum ContentFormat {
    Text,
    Rtf,
    Html,
    Image,
    Files,
}

/// Every format that is backed up, in the order in which it is asked for.
pub open spec fn all_formats() -> Seq<ContentFormat> {
    seq![
        ContentFormat::Text,
        ContentFormat::Rtf,
        ContentFormat::Html,
        ContentFormat::Image,
        ContentFormat::Files,
    ]
}

/// Every format that is backed up.
pub fn supported_formats() -> (formats: Vec<ContentFormat>)
    ensures
        formats@ == all_formats(),
{
    let formats = vec![
        ContentFormat::Text,
        ContentFormat::Rtf,
        ContentFormat::Html,
        ContentFormat::Image,
        ContentFormat::Files,
    ];
    proof {
        assert(formats@ =~= all_formats());
    }
    formats
}

/// What is done to the clipboard when the operation is over.
#[derive(Debug)]
pub enum Restore<C> {
    /// Put these contents on the clipboard, in place of what is there.
    Put(Vec<C>),
    /// Empty the clipboard.
    Clear,
}

/// The mathematical value of a [`Restore`].
pub ghost enum RestoreStep<C> {
    Put(Seq<C>),
    Clear,
}

impl<C> View for Restore<C> {
    type V = RestoreStep<C>;

    open spec fn view(&self) -> RestoreStep<C> {
        match self {
            Restore::Put(contents) => RestoreStep::Put(contents@),
            Restore::Clear => RestoreStep::Clear,
        }
    }
}

/// The step that restores a backup: the contents are put back, and a backup
/// that holds nothing empties the clipboard.
pub open spec fn restore_of<C>(backup: Seq<C>) -> RestoreStep<C> {
    if backup.len() == 0 {
        RestoreStep::Clear
    } else {
        RestoreStep::Put(backup)
    }
}

/// What the clipboard holds once a step has been carried out on a clipboard
/// that held `clipboard`: putting contents replaces all that was there.
pub open spec fn apply<C>(step: RestoreStep<C>, clipboard: Seq<C>) -> Seq<C> {
    match step {
        RestoreStep::Put(contents) => contents,
        RestoreStep::Clear => Seq::<C>::empty(),
    }
}

/// The backup of the clipboard, from an attempt to read its contents in
/// every supported format. The attempt is made as well as it can be: where
/// the clipboard cannot be read for the moment, the backup is empty and the
/// operation goes ahead all the same.
pub fn backup<C>(read: Result<Vec<C>, AppError>) -> (contents: Vec<C>)
    ensures
        contents@ == match read {
            Ok(found) => found@,
            Err(_) => Seq::<C>::empty(),
        },
{
    match read {
        Ok(found) => found,
        Err(_) => Vec::new(),
    }
}

/// The step that brings the clipboard back to the backup.
pub fn restore<C>(contents: Vec<C>) -> (step: Restore<C>)
    ensures
        step@ == restore_of(contents@),
{
    if contents.len() == 0 {
        Restore::Clear
    } else {
        Restore::Put(contents)
    }
}

/// What the transaction returns, from what the operation returned and how
/// the restoring went. The restoring has been attempted by now whether the
/// operation failed or not. The error of the operation comes first; a
/// failure to restore is reported where the operation itself succeeded.
pub fn with_clipboard_backup<T>(operation: Result<T, AppError>, restored: Result<(), AppError>) -> (r:
    Result<T, AppError>)
    ensures
        r == match operation {
            Ok(value) => match restored {
                Ok(_) => Ok(value),
                Err(e) => Err(e),
            },
            Err(e) => Err(e),
        },
{
    match operation {
        Ok(value) => match restored {
            Ok(_) => Ok(value),
            Err(e) => Err(e),
        },
        Err(e) => Err(e),
    }
}

/// The clipboard holds after the transaction what it held before it:
/// `before` is what the clipboard holds in the supported formats when the
/// backup is read, `during` whatever the operation has left on it, with or
/// without success.
pub proof fn lemma_backup_restores<C>(before: Seq<C>, during: Seq<C>)
    ensures
        apply(restore_of(before), during) == before,
{
    if before.len() == 0 {
        assert(before =~= Seq::<C>::empty());
    }
}

} // verus!
