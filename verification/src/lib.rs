//! Provisioning of removable storage into bootable installation media.
//!
//! The library decides and never acts. A provisioning run (`provision`) says
//! which action comes next; the backend of a platform (`backend`, `disk`)
//! says which command performs the action and what its report means; the
//! caller runs the commands and hands the reports back. Beside them stand
//! the partition planner (`disk`), the filesystem catalogue (`filesystem`),
//! the reading of image listings (`iso`), and the progress channel with the
//! cancellation flag (`progress`).

pub mod backend;
pub mod command;
pub mod disk;
pub mod error;
pub mod filesystem;
pub mod iso;
pub mod progress;
pub mod provision;
pub mod text;
