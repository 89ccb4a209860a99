use vstd::prelude::*;

pub mod commit;
pub mod error;
pub mod menu;
pub mod request;
pub mod session;
pub mod text;

verus! {

} // verus!
