use vstd::prelude::*;

pub mod path;
pub mod service;

verus! {

} // verus!
