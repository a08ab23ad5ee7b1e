//! The verified core of Nanocodex: reading its command line, preparing the disk
//! that carries the VM guest runtime, serving tool requests inside a guest,
//! describing raw virtual machines, preparing task images, and the values that
//! evaluations report.
//!
//! Everything that touches files, processes, the network or the clock is asked
//! of a driver: a state machine of this crate says what it needs, the driver
//! does it and hands back what came of it.
pub mod cli;
pub mod cli_grammar;
pub mod cli_laws;
pub mod command;
pub mod command_laws;
pub mod digest;
pub mod disk_laws;
pub mod dispatch;
pub mod event;
pub mod frame;
pub mod grammar;
pub mod guest_error;
pub mod guest_files;
pub mod guest_laws;
pub mod guest_work_laws;
pub mod image_laws;
pub mod observability;
pub mod path;
pub mod preparation;
pub mod preparation_host_laws;
pub mod preparation_laws;
pub mod protocol;
pub mod report_laws;
pub mod result;
pub mod runtime_disk;
pub mod session;
pub mod task;
pub mod task_images;
pub mod text;
pub mod vm_args;
pub mod vm_laws;
pub mod vm_run;
