//! A state-checked interface to a content-sniffing engine: sessions that must
//! load a signature database before they answer queries, typed errors for each
//! failing primitive, and guaranteed release of the engine's handle.
use vstd::prelude::*;

pub mod cookie;
pub mod magic;

pub use crate::cookie::Cookie;

verus! {

/// The version number of the engine behind `N`.
pub fn libmagic_version<N: magic::Native>() -> i32 {
    magic::version::<N>()
}

} // verus!
