//! The request record the host fills for one probe call, and the read-only
//! view a probe takes of it.
//!
//! The record is valid only for the duration of one callback: the shell
//! copies the host's C record into an owned value before the probe runs,
//! and the probe reads parameters through `get_params`, which hands back
//! the byte strings exactly as the host supplied them, in order.

use vstd::prelude::*;

use crate::cstr::copy_bytes;

verus! {

/// The per-call input record: the item key, the ordered parameter byte
/// strings, and the host's log bookkeeping fields.
#[derive(Clone)]
#[allow(non_camel_case_types)]
pub struct AGENT_REQUEST {
    pub key: Vec<u8>,
    pub params: Vec<Vec<u8>>,
    pub lastlogsize: u64,
    pub mtime: i32,
}

impl AGENT_REQUEST {
    /// The parameters as a sequence of byte strings.
    pub open spec fn params_view(&self) -> Seq<Seq<u8>> {
        self.params@.map_values(|p: Vec<u8>| p@)
    }

    /// The number of parameters the host supplied.
    pub fn nparam(&self) -> (n: usize)
        ensures
            n == self.params_view().len(),
    {
        self.params.len()
    }

    /// Every parameter of the request, in order, each byte for byte as the
    /// host supplied it.
    pub fn get_params(request: &AGENT_REQUEST) -> (r: Vec<Vec<u8>>)
        ensures
            r@.len() == request.params_view().len(),
            forall|i: int| 0 <= i < r@.len() ==> r@[i]@ == request.params_view()[i],
    {
        let mut r: Vec<Vec<u8>> = Vec::new();
        let mut i: usize = 0;
        while i < request.params.len()
            invariant
                i <= request.params@.len(),
                r@.len() == i,
                forall|j: int| 0 <= j < i ==> r@[j]@ == request.params@[j]@,
            decreases request.params@.len() - i,
        {
            r.push(copy_bytes(&request.params[i]));
            i += 1;
        }
        r
    }
}

} // verus!
