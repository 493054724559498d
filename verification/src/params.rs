//! The kernel parameter block: a fixed-arity record of scalar parameters,
//! uploaded once per dispatch. Its layout is fixed before any device buffer
//! referencing it exists; changing the logical parameter count means changing
//! this type, never resizing at run time.

use vstd::prelude::*;

verus! {

/// Four unsigned scalars handed to the kernel: the problem size and three
/// auxiliary dimensions (zero when unused).
pub struct ParameterBlock {
    pub element_count: u32,
    pub aux_a: u32,
    pub aux_b: u32,
    pub aux_c: u32,
}

impl ParameterBlock {
    /// The block's fixed word layout, in declaration order.
    pub open spec fn spec_words(self) -> Seq<u32> {
        seq![self.element_count, self.aux_a, self.aux_b, self.aux_c]
    }

    /// Builds a parameter block; immutable thereafter.
    pub fn new(element_count: u32, aux_a: u32, aux_b: u32, aux_c: u32) -> (r: ParameterBlock)
        ensures
            r.element_count == element_count,
            r.aux_a == aux_a,
            r.aux_b == aux_b,
            r.aux_c == aux_c,
    {
        ParameterBlock { element_count, aux_a, aux_b, aux_c }
    }

    /// The words to upload, exactly `spec_words` in order.
    pub fn to_words(&self) -> (r: Vec<u32>)
        ensures
            r@ == self.spec_words(),
    {
        let mut words: Vec<u32> = Vec::new();
        words.push(self.element_count);
        words.push(self.aux_a);
        words.push(self.aux_b);
        words.push(self.aux_c);
        proof {
            assert(words@ =~= self.spec_words());
        }
        words
    }
}

} // verus!
