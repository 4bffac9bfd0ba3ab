//! Builds out-of-tree FreeBSD kernel modules from Rust crates, and proves in a VM that
//! they load.
//!
//! The library decides and computes; it touches no file, starts no program and opens no
//! connection. What needs such a thing done is resumable (see [`host`]): a caller does
//! what is asked for and hands back what came of it. So every decision has a contract.
//!
//! What the operations are for is stated apart from how they work, as laws that are proved
//! of all inputs and of every answer that the host may give: of texts and paths in
//! [`text_laws`] and [`path_laws`], of the command line in [`cli`] and [`args_laws`], of a
//! build in [`build_laws`] and [`pipeline_laws`], of its programs in [`command_laws`] and
//! [`export_laws`], of what it needs in [`toolchain_laws`], [`name_laws`] and
//! [`manifest_laws`], of a test in [`test_laws`], [`ktest_laws`] and [`vm_laws`], of its
//! console in [`session`] and [`session_laws`], and of what goes wrong in [`failure_laws`]
//! and [`error_laws`].

pub mod args;
pub mod args_laws;
pub mod bindings;
pub mod build_laws;
pub mod cli;
pub mod command_laws;
pub mod commands;
pub mod console;
pub mod error;
pub mod error_laws;
pub mod export;
pub mod export_laws;
pub mod failure_laws;
pub mod host;
pub mod image;
pub mod iso;
pub mod ktest;
pub mod ktest_args;
pub mod ktest_laws;
pub mod machine;
pub mod manifest;
pub mod manifest_laws;
pub mod module;
pub mod name_laws;
pub mod path;
pub mod path_laws;
pub mod pipeline;
pub mod pipeline_laws;
pub mod qemu;
pub mod session;
pub mod session_laws;
pub mod stream;
pub mod sysdir;
pub mod test_laws;
pub mod text;
pub mod text_laws;
pub mod toolchain;
pub mod toolchain_laws;
pub mod view_laws;
pub mod vm;
pub mod vm_laws;
