//! A small helper for files kept in [Upspin](https://upspin.io), built around the `upspin`
//! command-line program.
//!
//! An Upspin name such as `augie@upspin.io/Images/Augie/small.jpg` is parsed into an
//! [`UpspinPath`]: an owner and the path below that owner. From an `UpspinPath` come the
//! file name, the name in full, and the calls of the `upspin` program that tell whether
//! everyone may read the file and that fetch it.
//!
//! The library starts no program and opens no file. It says which call to make, and decides
//! from how the call ended what that means: see [`UpspinPath::is_public`] and
//! [`UpspinPath::get`].

pub mod access;
pub mod error;
pub mod path;
pub mod text;
pub mod transfer;

pub use error::UpspinError;
pub use path::UpspinPath;
pub use transfer::{Event, Invocation, Run, Step};
