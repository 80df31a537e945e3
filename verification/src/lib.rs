//! Progressive initialization tracking for fixed-capacity memory regions.
//!
//! A region is a contiguous run of item slots whose capacity never changes.
//! The [`initializer::BufferInitializer`] pairs a region-bearing container
//! with a cursor recording how many leading slots hold meaningful values, and
//! the [`buffer::Buffer`] layers a second "filled" cursor on top of it, so
//! that `filled <= initialized <= capacity` holds in every reachable state.
//! Containers plug in through the [`traits::Initialize`] capability, and a
//! fully initialized container can be extracted through
//! [`wrappers::AssertInit`].

pub mod buffer;
pub mod initializer;
pub mod summary;
pub mod traits;
pub mod wrappers;
