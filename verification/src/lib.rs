//! Decoder for Windows Shell Link (`.lnk`) files, and the attributes of a
//! process to be started in a pseudo console.
//!
//! A shell link is decoded from a byte buffer into a [`Lnk`] record: the fixed
//! header, the flag-gated structures that follow it, and the path of the
//! target that they resolve to. Every decoder states its result over the
//! bytes it was given.
#![allow(non_camel_case_types)]

pub mod bytes;
pub mod error;
pub mod extra_data;
pub mod format;
pub mod guid;
pub mod link_info;
pub mod link_target_id_list;
pub mod process;
pub mod shell_link;
pub mod shell_link_header;
pub mod string_data;
pub mod text;

pub use shell_link::{Lnk, LnkFileMetaData};
