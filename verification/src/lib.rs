//! Command logic of a desktop image converter.
//!
//! The front end of the application asks for five things: a greeting, the
//! conversion of an image to WebP by the external `cwebp` program, the writing
//! of a temporary file, the reading of a file, and the directory that holds a
//! file. Everything those commands decide is here, as functions on plain
//! values with proved contracts: which arguments `cwebp` is started with, how
//! the way it ended becomes the command's answer, and which error each
//! failure is. Starting the process and touching the file system are left to
//! the caller.

pub mod conversion;
pub mod decimal;
pub mod error;
pub mod files;
pub mod greeting;
pub mod lossy;
pub mod paths;
