use vstd::prelude::*;

pub mod atom;
pub mod builder;
pub mod session;
pub mod event;
pub mod placement;
pub mod screen;
pub mod shape;
pub mod property;
pub mod window;

verus! {

} // verus!
