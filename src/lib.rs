//! Management, dispatch and desktop launch logic for the DeskHub service.
//!
//! Every operating-system call is made by the host program; the functions
//! here decide which call comes next and what its outcome means.

pub mod desk;
pub mod dispatcher;
pub mod guide;
pub mod launcher;
pub mod mode;
pub mod service;
pub mod types;
pub mod wide;
