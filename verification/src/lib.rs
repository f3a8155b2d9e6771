//! Core of a zero-copy transfer engine for Unix file descriptors.
//!
//! The engine moves bytes between descriptors with the kernel's copy-range
//! and splice facilities, never through a user-space buffer.  This crate
//! holds the part of that engine that is plain logic, specified and proved:
//! descriptor capability validation ([`validate`]), the two offset-tracking
//! disciplines the kernel exposes ([`handle`]), classification of the
//! one-time syscall-availability probe ([`probe`]), and the bookkeeping of
//! the loop-until-complete transfer drivers ([`transfer`]).
//!
//! The syscalls themselves, and the bridge that runs each blocking call on a
//! dedicated worker so a cooperative scheduler never stalls, are the
//! embedding runtime's side: it queries descriptor metadata, issues each
//! single step, and hands the observed outcome back to the functions here,
//! which decide everything else.

pub mod flags;
pub mod handle;
pub mod probe;
pub mod transfer;
pub mod validate;
