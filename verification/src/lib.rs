//! Planning, installing and reconfiguring the logging pipeline of a process.
//!
//! The pipeline is a sequence of independently filtered layers: a console
//! layer whose filter can be replaced while the process runs, and a layer
//! that writes to a rotating file on disk through a bounded queue.
//!
//! - [`filter`] compiles directive strings into filters, and never fails
//!   doing so.
//! - [`rotation`] and [`queue`] say when the log file rolls over and what a
//!   full queue does.
//! - [`pipeline`] plans the layers, keeps the registry that is installed
//!   once per process, and orders the steps of the installation.
//! - [`handle`] replaces the filter of a layer of the installed pipeline.
//!
//! Opening the file, starting its writer and building the layer objects are
//! left to the caller, who follows the plan made here.

pub mod filter;
pub mod handle;
pub mod pipeline;
pub mod queue;
pub mod rotation;
