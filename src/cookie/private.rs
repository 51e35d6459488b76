//! Keeps the set of session stages closed.
use vstd::prelude::*;

verus! {

/// Implemented by the session stages alone.
pub trait Sealed {}

impl Sealed for super::Open {}

impl Sealed for super::Load {}

} // verus!
