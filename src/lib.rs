use vstd::prelude::*;

pub mod api;
pub mod discovery;
pub mod ipv4;
pub mod poll;
pub mod reconcile;
pub mod record;
pub mod text;

verus! {

} // verus!
