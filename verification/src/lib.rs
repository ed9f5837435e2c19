//! OS identification data, read through the `uname` system call and
//! exposed as validated, read-only string fields.
//!
//! The system call itself fills fixed-size, null-terminated byte buffers.
//! This crate holds the verified part of the work: deciding the buffer
//! layout for the target platform, finding the terminating null byte in
//! each buffer, validating the bytes before it as UTF-8 text, and handing
//! each field out as a string. The caller that performs the raw system
//! call passes the buffers in as plain byte vectors.

pub mod text;
pub mod utsname;
