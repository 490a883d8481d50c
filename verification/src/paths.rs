//! The directory that holds a file.
//!
//! Where a path's parent ends is decided by the path rules of the platform
//! that the program is built for, which the standard library applies. The
//! library asks it for the parent and decides what the command answers: a
//! parent that is empty is no directory, and is reported like a missing one.

use vstd::prelude::*;
use crate::error::{text_answer, CommandError, ErrorModel, PathProblem};

verus! {

/// What looking up a path's parent gave.
#[derive(Clone, Debug, PartialEq, Eq)]
pub enum ParentLookup {
    /// The path has no parent: it is empty, or it ends in a root or prefix.
    Missing,
    /// The path has a parent that is not valid Unicode.
    NotText,
    /// The path has this parent. It is empty for a relative path of one
    /// component.
    Found(String),
}

/// What a [`ParentLookup`] is in contracts.
pub enum LookupModel {
    Missing,
    NotText,
    Found(Seq<char>),
}

impl View for ParentLookup {
    type V = LookupModel;

    open spec fn view(&self) -> LookupModel {
        match self {
            ParentLookup::Missing => LookupModel::Missing,
            ParentLookup::NotText => LookupModel::NotText,
            ParentLookup::Found(parent) => LookupModel::Found(parent@),
        }
    }
}

/// The answer of the parent-directory command for a lookup: the parent that
/// was found if it is not empty, and otherwise the reason why there is none.
pub open spec fn parent_answer(lookup: LookupModel) -> Result<Seq<char>, ErrorModel> {
    match lookup {
        LookupModel::Found(parent) => if parent.len() > 0 {
            Ok(parent)
        } else {
            Err(ErrorModel::PathResolution(PathProblem::NoParent))
        },
        LookupModel::Missing => Err(ErrorModel::PathResolution(PathProblem::NoParent)),
        LookupModel::NotText => Err(ErrorModel::PathResolution(PathProblem::NotText)),
    }
}

/// What `Path::parent` of the standard library gives for the path written
/// as `path`, with the parent written as text by `Path::to_str`: nothing
/// where the path has no parent, no text where the parent is not valid
/// Unicode, and the parent's text otherwise.
pub uninterp spec fn parent_lookup(path: Seq<char>) -> Option<Option<Seq<char>>>;

/// The lookup that a named result stands for.
pub open spec fn lookup_model(found: Option<Option<Seq<char>>>) -> LookupModel {
    match found {
        None => LookupModel::Missing,
        Some(None) => LookupModel::NotText,
        Some(Some(parent)) => LookupModel::Found(parent),
    }
}

/// Looks up the parent of the path written as `file_path`, by `Path::parent`
/// of the standard library, and writes it as text by `Path::to_str`.
///
/// Not proved: that the lookup is `parent_lookup` of the path's text, and
/// that the empty path has no parent. Where a parent ends is not claimed.
#[verifier::external_body]
fn lookup_parent(file_path: &str) -> (lookup: ParentLookup)
    ensures
        lookup@ == lookup_model(parent_lookup(file_path@)),
        file_path@.len() == 0 ==> lookup@ is Missing,
{
    match std::path::Path::new(file_path).parent() {
        None => ParentLookup::Missing,
        Some(parent) => match parent.to_str() {
            None => ParentLookup::NotText,
            Some(text) => ParentLookup::Found(text.to_string()),
        },
    }
}

/// The command succeeds exactly where a parent was found that is not empty,
/// and then answers with that parent; every failure is a path error.
pub proof fn lemma_parent_answer_cases(lookup: LookupModel)
    ensures
        parent_answer(lookup) is Ok <==> lookup is Found && lookup->Found_0.len() > 0,
        parent_answer(lookup) matches Ok(directory) ==> lookup == LookupModel::Found(directory)
            && directory.len() > 0,
        parent_answer(lookup) matches Err(error) ==> error is PathResolution,
{
}

/// The answer of the parent-directory command for what the lookup gave.
pub fn parent_directory_answer(lookup: ParentLookup) -> (answer: Result<String, CommandError>)
    ensures
        text_answer(answer) == parent_answer(lookup@),
{
    match lookup {
        ParentLookup::Found(parent) => {
            if parent.as_str().is_empty() {
                Err(CommandError::PathResolution(PathProblem::NoParent))
            } else {
                Ok(parent)
            }
        },
        ParentLookup::Missing => Err(CommandError::PathResolution(PathProblem::NoParent)),
        ParentLookup::NotText => Err(CommandError::PathResolution(PathProblem::NotText)),
    }
}

/// The directory that holds `file_path`: the answer of the command for the
/// parent that the standard library finds for the path. The empty path has
/// none.
pub fn get_parent_directory(file_path: String) -> (answer: Result<String, CommandError>)
    ensures
        text_answer(answer) == parent_answer(lookup_model(parent_lookup(file_path@))),
        file_path@.len() == 0 ==> text_answer(answer) == Err::<Seq<char>, ErrorModel>(
            ErrorModel::PathResolution(PathProblem::NoParent),
        ),
{
    parent_directory_answer(lookup_parent(file_path.as_str()))
}

} // verus!
