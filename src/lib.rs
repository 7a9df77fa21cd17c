use vstd::prelude::*;

pub mod args;
pub mod dispatch;
pub mod records;
pub mod request;
pub mod report;

verus! {

} // verus!
