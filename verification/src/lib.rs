//! The decisions of Hestia, stated without any call into the kernel, the
//! service manager or a window.
//!
//! The driver's part is the core: status handling ([`status`]), the driver
//! configuration and its native record ([`wdf`]), the process-notify routine
//! and its registry ([`callbacks`]), the order in which the driver comes up
//! ([`driver`]) and what holds of every run of it ([`run`]). Beside it stand
//! the decisions of the service host ([`engine`]) and the state behind the
//! dashboard ([`gui`]).

pub mod callbacks;
pub mod driver;
pub mod engine;
pub mod gui;
pub mod guid;
pub mod run;
pub mod status;
pub mod strings;
pub mod wdf;
