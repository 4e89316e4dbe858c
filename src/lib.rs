//! Adds a directory to the user's persistent `PATH`, either through the
//! start-up file of the user's shell or through the Windows registry value.

pub mod error;
pub mod shell;
pub mod text;
pub mod unix;
pub mod windows;

pub use error::{PathmanError, UpdateType};
pub use shell::{CurrentShell, Shell};
pub use unix::{Reply, Request, UnixPathUpdater};
pub use windows::WindowsPathUpdater;
