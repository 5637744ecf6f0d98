//! Conversion of an error value into the dispatch envelope shared by all
//! modules: the module's index, a fixed-size payload and a message.

use vstd::prelude::*;
use crate::augment::{AugmentedError, variant_name};

verus! {

/// The number of bytes that an encoded error may take in an envelope.
pub const MAX_ERROR_BYTES: usize = 4;

/// The envelope payload for an encoded error: its first bytes, padded with
/// zeros up to `MAX_ERROR_BYTES`.
pub open spec fn normalized_bytes(encoded: Seq<u8>) -> Seq<u8> {
    Seq::new(MAX_ERROR_BYTES as nat, |i: int| if i < encoded.len() { encoded[i] } else { 0u8 })
}

/// The cross-module representation of an error.
#[derive(Clone, Debug)]
pub struct Envelope {
    pub module_index: u8,
    pub error: [u8; MAX_ERROR_BYTES],
    pub message: Option<String>,
}

/// Fits an encoded error into the envelope's payload: a shorter encoding is
/// padded with zeros on the right, a longer one loses its trailing bytes.
pub fn normalize_error_bytes(encoded: &Vec<u8>) -> (r: [u8; MAX_ERROR_BYTES])
    ensures
        r@ == normalized_bytes(encoded@),
{
    let mut out = [0u8; MAX_ERROR_BYTES];
    let mut i: usize = 0;
    while i < MAX_ERROR_BYTES && i < encoded.len()
        invariant
            i <= MAX_ERROR_BYTES,
            i <= encoded@.len(),
            out@.len() == MAX_ERROR_BYTES,
            forall|j: int| 0 <= j < i ==> out@[j] == encoded@[j],
            forall|j: int| i <= j < MAX_ERROR_BYTES ==> out@[j] == 0u8,
        decreases MAX_ERROR_BYTES - i,
    {
        out[i] = encoded[i];
        i += 1;
    }
    assert(out@ =~= normalized_bytes(encoded@));
    out
}

impl AugmentedError {
    /// Converts the value of the variant at position `tag`, whose encoding is
    /// `encoded`, into an envelope, given the registry's answer for the
    /// module's index. Every active module has an index: a caller that got
    /// none has a configuration defect and must stop before converting.
    pub fn to_envelope(&self, found_index: Option<u8>, tag: usize, encoded: &Vec<u8>) -> (r:
        Envelope)
        requires
            self.wf(),
            1 <= tag < self.variants@.len(),
            found_index is Some,
        ensures
            r.module_index == found_index->0,
            r.error@ == normalized_bytes(encoded@),
            r.message matches Some(m) && m@ == variant_name(self.variants@[tag as int]),
    {
        let module_index = match found_index {
            Some(i) => i,
            None => {
                assert(false);
                0
            },
        };
        let error = normalize_error_bytes(encoded);
        let message = String::from_str(self.as_str(tag));
        Envelope { module_index, error, message: Some(message) }
    }
}

} // verus!
