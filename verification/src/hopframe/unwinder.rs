//! Configuration of the frame-pointer stack unwinder.
use vstd::prelude::*;

verus! {

/// load libraries, configure cache or unwinder, etc.
#[derive(Default)]
pub struct UnwindBuilderAarch64 {}

impl UnwindBuilderAarch64 {
    pub fn new() -> (res: Self)
        ensures
            res == (UnwindBuilderAarch64 {  }),
    {
        UnwindBuilderAarch64 {  }
    }
}

} // verus!
