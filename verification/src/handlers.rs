use vstd::prelude::*;

verus! {

/// The (so far empty) state of the LZMA archive handler.
pub struct LZMAHandler {}

impl LZMAHandler {
    pub fn new() -> (r: Self) {
        LZMAHandler {  }
    }
}

} // verus!
