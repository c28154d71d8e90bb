//! A neutral, cross-platform representation of file-system paths.
//!
//! A [`CrossPathBuf`] holds a path as one text that reads the same on every
//! platform: slashes separate the components, a Windows drive `c:` is
//! written `/mnt/c`, a leading `~` stands for the home directory and a
//! leading `/tmp` for the directory of temporary files. The text is
//! validated when the path is made, against the rules of Windows and of
//! POSIX systems together, and turned into a path of the platform only when
//! one is needed.
//!
//! The library never asks the operating system for anything. What it has to
//! know of the machine comes in as a [`HostEnv`], so every operation is a
//! function of its arguments.
//!
//! - [`canonical`]: the rules of validation and the canonical form
//! - [`path`]: the path type, joining, adding and trimming slashes
//! - [`native`]: the native form of a path on Windows and on POSIX systems
//! - [`components`]: final component, stem, extension and parent
//! - [`shorten`]: a path cut down for display
//! - [`error`]: the errors and their messages
//! - [`laws`]: what is proved of the operations taken together
//! - [`chars`], [`text`]: character classes and text as a sequence
//! - [`trusted`]: what is assumed of the standard library

pub mod canonical;
pub mod chars;
pub mod components;
pub mod error;
pub mod laws;
pub mod native;
pub mod path;
pub mod shorten;
pub mod text;
pub mod trusted;

pub use error::Error;
pub use native::HostEnv;
pub use path::CrossPathBuf;
