//! Locates the cross-compilers and system roots of the Android native
//! development kit.
//!
//! A [`Toolchain`] is made from the directory in which the kit is installed,
//! a target triple, a minimum platform API level, and the operating system
//! and CPU of the build host. It then answers for the paths of the C
//! compiler, of the C++ compiler and of the system root. Everything here is
//! computed from those values alone: nothing is read from the environment or
//! from disk, and no path is checked for existence.
//!
//! The modules, from the bottom up:
//! - [`text`]: equality of strings, decimal numerals, slashes in a row;
//! - [`triple`]: the architecture token of a target triple;
//! - [`arch`]: the table of architecture directories;
//! - [`host`]: the kit's name for the build host;
//! - [`error`]: why a configuration was turned down;
//! - [`toolchain`]: the configuration and its paths.

pub mod arch;
pub mod error;
pub mod host;
pub mod text;
pub mod toolchain;
pub mod triple;

pub use error::ConfigurationError;
pub use toolchain::Toolchain;
