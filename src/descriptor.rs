//! The descriptor generator: the match arms that render each declared
//! variant as its identifier, and the rendering itself.

use vstd::prelude::*;
use crate::augment::{AugmentedError, Variant, variant_name};
use crate::model::{FieldShape, VariantDescriptor};

verus! {

/// How an arm matches the fields of its variant.
#[derive(Clone, Copy, Debug, PartialEq, Eq, Structural)]
pub enum MatchPattern {
    /// `Self::Name`
    Exact,
    /// `Self::Name(..)`, whatever the number of fields.
    AnyPositional,
    /// `Self::Name { .. }`, whatever the names of the fields.
    AnyNamed,
}

/// One arm of the descriptor matcher: values of `variant` render as `text`.
#[derive(Clone, Debug)]
pub struct DescriptorArm {
    pub variant: String,
    pub pattern: MatchPattern,
    pub text: String,
}

/// The pattern that matches every value of a variant of the given shape.
pub open spec fn pattern_for(shape: FieldShape) -> MatchPattern {
    match shape {
        FieldShape::Unit => MatchPattern::Exact,
        FieldShape::Positional(_) => MatchPattern::AnyPositional,
        FieldShape::Named(_) => MatchPattern::AnyNamed,
    }
}

/// `arm` matches every value of `v` and renders it as `v`'s identifier.
pub open spec fn is_arm_for(arm: DescriptorArm, v: VariantDescriptor) -> bool {
    &&& arm.variant@ == v.name@
    &&& arm.text@ == v.name@
    &&& arm.pattern == pattern_for(v.shape)
}

/// One arm for each declared variant, in declaration order.
pub open spec fn arms_for(arms: Seq<DescriptorArm>, variants: Seq<VariantDescriptor>) -> bool {
    &&& arms.len() == variants.len()
    &&& forall|i: int| 0 <= i < variants.len() ==> #[trigger] is_arm_for(arms[i], variants[i])
}

/// The arm for one declared variant.
pub fn descriptor_arm(v: &VariantDescriptor) -> (r: DescriptorArm)
    ensures
        is_arm_for(r, *v),
{
    let pattern = match &v.shape {
        FieldShape::Unit => MatchPattern::Exact,
        FieldShape::Positional(_) => MatchPattern::AnyPositional,
        FieldShape::Named(_) => MatchPattern::AnyNamed,
    };
    DescriptorArm { variant: v.name.clone(), pattern, text: v.name.clone() }
}

/// The matcher's arms for the declared variants, in declaration order. The
/// sentinel gets none.
pub fn descriptor_arms(variants: &Vec<VariantDescriptor>) -> (r: Vec<DescriptorArm>)
    ensures
        arms_for(r@, variants@),
{
    let mut r: Vec<DescriptorArm> = Vec::new();
    let mut i: usize = 0;
    while i < variants.len()
        invariant
            i <= variants@.len(),
            r@.len() == i,
            forall|j: int| 0 <= j < i ==> #[trigger] is_arm_for(r@[j], variants@[j]),
        decreases variants@.len() - i,
    {
        r.push(descriptor_arm(&variants[i]));
        i += 1;
    }
    r
}

impl AugmentedError {
    /// The identifier of the variant at position `tag`, for a value of that
    /// variant. The sentinel at position zero has no values.
    pub fn as_str(&self, tag: usize) -> (r: &str)
        requires
            self.wf(),
            1 <= tag < self.variants@.len(),
        ensures
            r@ == variant_name(self.variants@[tag as int]),
    {
        match &self.variants[tag] {
            Variant::Declared(d) => d.name.as_str(),
            Variant::Sentinel(_) => {
                assert(false);
                ""
            },
        }
    }
}

} // verus!
