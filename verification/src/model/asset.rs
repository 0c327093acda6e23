use crate::model::identity::Identity;
use vstd::prelude::*;

verus! {

/// What is traded, or what it is paid in.
pub trait Asset: Identity {

}

impl<T: Identity> Asset for T {

}

} // verus!
