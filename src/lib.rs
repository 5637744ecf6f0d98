//! Expansion of a module's error type: the reserved sentinel variant, the
//! generation directives, per-variant descriptors, the compactness self-test
//! and the conversion of an error value into a dispatch envelope.

pub mod model;
pub mod envelope;
pub mod augment;
pub mod descriptor;
pub mod compactness;
pub mod expand;
pub mod laws;

pub use model::{FieldShape, ModuleDefinition, ErrorSpec, SENTINEL_NAME, SourceSpan, VariantDescriptor};
pub use augment::{
    AugmentedError, DEFAULT_DOC, Derive, SentinelVariant, Variant, augment, clone_strings,
};
pub use envelope::{Envelope, MAX_ERROR_BYTES, normalize_error_bytes};
pub use descriptor::{DescriptorArm, MatchPattern, descriptor_arm, descriptor_arms};
pub use compactness::{COMPACTNESS_FAILURE, SelfTest};
pub use expand::{ErrorExpansion, Expansion, expand_error};
pub use laws::{
    lemma_descriptor_is_identifier, lemma_no_error_type_self_test_passes, lemma_payload_fits,
    lemma_sentinel_first_and_unmatched,
};
