//! Properties that hold of every expansion and every envelope.

use vstd::prelude::*;
use crate::augment::{Variant, variant_name};
use crate::compactness::self_test_passes;
use crate::descriptor::is_arm_for;
use crate::envelope::{MAX_ERROR_BYTES, normalized_bytes};
use crate::expand::{Expansion, is_expansion_of};
use crate::model::{ModuleDefinition, SENTINEL_NAME};

verus! {

/// Augmentation adds exactly one variant, the sentinel, at position zero, and
/// the descriptor matcher has one arm per declared variant, none of which
/// matches the sentinel.
pub proof fn lemma_sentinel_first_and_unmatched(def: ModuleDefinition, r: Expansion)
    requires
        def.error matches Some(spec) && spec.wf(),
        is_expansion_of(r, def),
    ensures
        ({
            let spec = def.error->0;
            let x = r.error->0;
            &&& x.augmented.variants@.len() == spec.variants@.len() + 1
            &&& x.augmented.variants@[0] is Sentinel
            &&& x.arms@.len() + 1 == x.augmented.variants@.len()
            &&& forall|i: int|
                0 <= i < x.arms@.len() ==> #[trigger] x.arms@[i].variant@ != SENTINEL_NAME@
                    && x.arms@[i].text@ != SENTINEL_NAME@
        }),
{
    let spec = def.error->0;
    let x = r.error->0;
    assert forall|i: int| 0 <= i < x.arms@.len() implies #[trigger] x.arms@[i].variant@
        != SENTINEL_NAME@ && x.arms@[i].text@ != SENTINEL_NAME@ by {
        assert(is_arm_for(x.arms@[i], spec.variants@[i]));
        assert(spec.variants@[i].name@ != SENTINEL_NAME@);
    }
}

/// Every declared variant renders as its own identifier, whatever its fields,
/// both through the augmented type and through its arm of the matcher.
pub proof fn lemma_descriptor_is_identifier(def: ModuleDefinition, r: Expansion, i: int)
    requires
        def.error matches Some(spec) && 0 <= i < spec.variants@.len(),
        is_expansion_of(r, def),
    ensures
        ({
            let name = def.error->0.variants@[i].name@;
            let x = r.error->0;
            &&& variant_name(x.augmented.variants@[i + 1]) == name
            &&& x.arms@[i].text@ == name
        }),
{
    let spec = def.error->0;
    let x = r.error->0;
    assert(x.augmented.variants@[i + 1] == Variant::Declared(spec.variants@[i]));
    assert(is_arm_for(x.arms@[i], spec.variants@[i]));
}

/// The payload of an envelope has exactly `MAX_ERROR_BYTES` bytes: an encoding
/// that fits stands first and zeros follow; a longer one is cut to its first
/// bytes.
pub proof fn lemma_payload_fits(encoded: Seq<u8>)
    ensures
        normalized_bytes(encoded).len() == MAX_ERROR_BYTES,
        encoded.len() <= MAX_ERROR_BYTES ==> {
            &&& normalized_bytes(encoded).subrange(0, encoded.len() as int) == encoded
            &&& forall|j: int|
                encoded.len() <= j < MAX_ERROR_BYTES ==> #[trigger] normalized_bytes(encoded)[j]
                    == 0u8
        },
        encoded.len() > MAX_ERROR_BYTES ==> normalized_bytes(encoded) == encoded.subrange(
            0,
            MAX_ERROR_BYTES as int,
        ),
{
    if encoded.len() <= MAX_ERROR_BYTES {
        assert(normalized_bytes(encoded).subrange(0, encoded.len() as int) =~= encoded);
    } else {
        assert(normalized_bytes(encoded) =~= encoded.subrange(0, MAX_ERROR_BYTES as int));
    }
}

/// A module without an error type has a self-test that passes, whatever the
/// compactness check would say.
pub proof fn lemma_no_error_type_self_test_passes(
    def: ModuleDefinition,
    r: Expansion,
    is_compact: bool,
)
    requires
        def.error is None,
        is_expansion_of(r, def),
    ensures
        self_test_passes(r.self_test, is_compact),
{
}

} // verus!
