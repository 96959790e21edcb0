//! The execution environment handed to the prover backend: assumption
//! receipts in order, and the flat input byte stream.

use crate::bytesutil::{clone_bytes, extend_bytes};
use crate::receipt::Receipt;
use vstd::prelude::*;

verus! {

/// The plain value the prover backend receives: the input stream and the
/// assumption receipts, in the order they were added.
pub struct Environment {
    /// The assumption receipts, order preserved.
    pub assumptions: Vec<Receipt>,
    /// The guest's input byte stream.
    pub input: Vec<u8>,
}

/// A builder for an [`Environment`]: receipts are added one by one and input
/// bytes are appended.
pub struct PyExecutorEnv {
    /// The assumption receipts added so far, in order.
    pub assumptions: Vec<Receipt>,
    /// The input bytes written so far.
    pub input_data: Vec<u8>,
}

impl PyExecutorEnv {
    /// A fresh builder with no assumptions and no input.
    pub fn new() -> (e: PyExecutorEnv)
        ensures
            e.assumptions@ == Seq::<Receipt>::empty(),
            e.input_data@ == Seq::<u8>::empty(),
    {
        PyExecutorEnv { assumptions: Vec::new(), input_data: Vec::new() }
    }

    /// Add a receipt as an assumption; it is verified when the final proof
    /// is generated.
    pub fn add_assumption(&mut self, receipt: Receipt)
        ensures
            final(self).assumptions@ == old(self).assumptions@.push(receipt),
            final(self).input_data@ == old(self).input_data@,
    {
        self.assumptions.push(receipt);
    }

    /// Append input bytes.
    pub fn write(&mut self, data: Vec<u8>)
        ensures
            final(self).input_data@ == old(self).input_data@ + data@,
            final(self).assumptions@ == old(self).assumptions@,
    {
        extend_bytes(&mut self.input_data, data.as_slice());
    }

    /// The assembled environment: the same assumptions in the same order,
    /// and the input bytes as written.
    pub fn build_env(&self) -> (env: Environment)
        ensures
            env.input@ == self.input_data@,
            env.assumptions@.len() == self.assumptions@.len(),
            forall|i: int|
                0 <= i < env.assumptions@.len() ==> #[trigger] env.assumptions@[i]@
                    == self.assumptions@[i]@,
    {
        let n: usize = self.assumptions.len();
        let mut assumptions: Vec<Receipt> = Vec::new();
        let mut i: usize = 0;
        while i < n
            invariant
                n == self.assumptions@.len(),
                i <= n,
                assumptions@.len() == i,
                forall|j: int|
                    0 <= j < i ==> #[trigger] assumptions@[j]@ == self.assumptions@[j]@,
            decreases n - i,
        {
            assumptions.push(self.assumptions[i].duplicate());
            i += 1;
        }
        Environment { assumptions, input: clone_bytes(&self.input_data) }
    }
}

} // verus!
