//! The two file commands: writing a temporary file and reading a file.
//!
//! The caller performs the operation and reports how it went, with the
//! operating system's error text where it failed. What succeeded is passed
//! on unchanged, and a failure becomes the command's error.

use vstd::prelude::*;
use crate::error::{CommandError, ErrorModel, FileOperation};

verus! {

/// The answer of the write command for a write that ended with `written`.
pub fn write_temp_file_answer(written: Result<(), String>) -> (answer: Result<(), CommandError>)
    ensures
        written is Ok ==> answer is Ok,
        written matches Err(os_error) ==> answer matches Err(error) && error@
            == ErrorModel::FileIo(FileOperation::WriteTemp, os_error@),
{
    match written {
        Ok(_) => Ok(()),
        Err(os_error) => Err(CommandError::FileIo(FileOperation::WriteTemp, os_error)),
    }
}

/// The answer of the read command for a read that ended with `read`: the
/// bytes that were read, as they are.
pub fn read_file_binary_answer(read: Result<Vec<u8>, String>) -> (answer: Result<
    Vec<u8>,
    CommandError,
>)
    ensures
        read matches Ok(data) ==> answer == Ok::<Vec<u8>, CommandError>(data),
        read matches Err(os_error) ==> answer matches Err(error) && error@ == ErrorModel::FileIo(
            FileOperation::Read,
            os_error@,
        ),
{
    match read {
        Ok(data) => Ok(data),
        Err(os_error) => Err(CommandError::FileIo(FileOperation::Read, os_error)),
    }
}

} // verus!
