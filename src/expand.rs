//! The expansion of a module's error type: the augmented type, its
//! descriptor matcher and the module's compactness self-test.

use vstd::prelude::*;
use crate::augment::{AugmentedError, augment, is_augmentation};
use crate::compactness::SelfTest;
use crate::descriptor::{DescriptorArm, arms_for, descriptor_arms};
use crate::model::{ModuleDefinition, texts};

verus! {

/// What is generated for a declared error type.
#[derive(Clone, Debug)]
pub struct ErrorExpansion {
    pub augmented: AugmentedError,
    /// The descriptor matcher, one arm per declared variant.
    pub arms: Vec<DescriptorArm>,
}

/// What is generated for a module.
#[derive(Clone, Debug)]
pub struct Expansion {
    pub module_ident: String,
    pub impl_generics: Vec<String>,
    pub use_generics: Vec<String>,
    pub where_predicates: Vec<String>,
    pub self_test: SelfTest,
    pub error: Option<ErrorExpansion>,
}

/// `r` is what is generated for `def`.
pub open spec fn is_expansion_of(r: Expansion, def: ModuleDefinition) -> bool {
    &&& r.module_ident == def.module_ident
    &&& r.impl_generics == def.impl_generics
    &&& r.use_generics == def.use_generics
    &&& r.where_predicates == def.where_predicates
    &&& match def.error {
        None => r.self_test is NoOp && r.error is None,
        Some(spec) => {
            &&& r.self_test matches SelfTest::CheckCompactness { error_ident } && error_ident@
                == spec.ident@
            &&& r.error matches Some(x) && is_augmentation(
                x.augmented,
                spec,
                texts(def.use_generics@),
            ) && x.augmented.wf() && arms_for(x.arms@, spec.variants@)
        },
    }
}

/// Generates, for a module, its compactness self-test and, where it declares
/// an error type, the augmented type and its descriptor matcher.
pub fn expand_error(def: ModuleDefinition) -> (r: Expansion)
    ensures
        is_expansion_of(r, def),
{
    let ModuleDefinition { module_ident, impl_generics, use_generics, where_predicates, error } =
        def;
    match error {
        None => Expansion {
            module_ident,
            impl_generics,
            use_generics,
            where_predicates,
            self_test: SelfTest::NoOp,
            error: None,
        },
        Some(spec) => {
            let arms = descriptor_arms(&spec.variants);
            let self_test = SelfTest::CheckCompactness { error_ident: spec.ident.clone() };
            let augmented = augment(spec, &use_generics);
            Expansion {
                module_ident,
                impl_generics,
                use_generics,
                where_predicates,
                self_test,
                error: Some(ErrorExpansion { augmented, arms }),
            }
        },
    }
}

} // verus!
