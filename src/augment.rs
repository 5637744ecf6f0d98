//! The augmenter: extends a declared error type with the reserved sentinel
//! variant, the generation directives and a default documentation.

use vstd::prelude::*;
use crate::model::{texts, ErrorSpec, SENTINEL_NAME, SourceSpan, VariantDescriptor};

verus! {

/// The description given to an error type that carries no documentation.
pub const DEFAULT_DOC: &'static str =
    "Custom [dispatch errors](https://docs.substrate.io/v3/runtime/events-and-errors) of this pallet.";

/// A capability derived for the augmented error type.
#[derive(Clone, Copy, Debug, PartialEq, Eq, Structural)]
pub enum Derive {
    Encode,
    Decode,
    TypeInfo,
    CompactPalletError,
}

/// The reserved variant. It holds a phantom marker over `phantom_params` and a
/// field of an uninhabited type, so no value of it can be built; the codec
/// skips it.
#[derive(Clone, Debug)]
pub struct SentinelVariant {
    pub phantom_params: Vec<String>,
}

/// A variant of the augmented error type.
#[derive(Clone, Debug)]
pub enum Variant {
    Sentinel(SentinelVariant),
    Declared(VariantDescriptor),
}

/// The error type after augmentation.
#[derive(Clone, Debug)]
pub struct AugmentedError {
    pub ident: String,
    /// The sentinel, then the declared variants in declaration order.
    pub variants: Vec<Variant>,
    pub derives: Vec<Derive>,
    /// Generic parameters left out of the reflective type descriptor.
    pub skip_type_params: Vec<String>,
    /// Whether the reflective type descriptor always captures documentation.
    pub capture_docs_always: bool,
    pub docs: Vec<String>,
    pub span: SourceSpan,
}

/// The capabilities derived for every augmented error type, in order.
pub open spec fn generated_derives() -> Seq<Derive> {
    seq![Derive::Encode, Derive::Decode, Derive::TypeInfo, Derive::CompactPalletError]
}

/// The documentation after augmentation: the declared one, or the default
/// description where there is none.
pub open spec fn augmented_docs(docs: Seq<Seq<char>>) -> Seq<Seq<char>> {
    if docs.len() == 0 {
        seq![DEFAULT_DOC@]
    } else {
        docs
    }
}

/// The identifier that a value of the variant renders as.
pub open spec fn variant_name(v: Variant) -> Seq<char> {
    match v {
        Variant::Sentinel(_) => SENTINEL_NAME@,
        Variant::Declared(d) => d.name@,
    }
}

/// `r` is `spec` augmented within a module whose type-use generics are
/// `use_generics`.
pub open spec fn is_augmentation(
    r: AugmentedError,
    spec: ErrorSpec,
    use_generics: Seq<Seq<char>>,
) -> bool {
    &&& r.ident@ == spec.ident@
    &&& r.span == spec.span
    &&& r.variants@.len() == spec.variants@.len() + 1
    &&& r.variants@[0] matches Variant::Sentinel(s) && texts(s.phantom_params@) == use_generics
    &&& forall|i: int|
        0 <= i < spec.variants@.len() ==> #[trigger] r.variants@[i + 1] == Variant::Declared(
            spec.variants@[i],
        )
    &&& r.derives@ == generated_derives()
    &&& texts(r.skip_type_params@) == use_generics
    &&& r.capture_docs_always
    &&& texts(r.docs@) == augmented_docs(texts(spec.docs@))
}

impl AugmentedError {
    /// The sentinel stands first and only there.
    pub open spec fn wf(&self) -> bool {
        &&& self.variants@.len() >= 1
        &&& self.variants@[0] is Sentinel
        &&& forall|i: int| 1 <= i < self.variants@.len() ==> #[trigger] self.variants@[i] is Declared
    }
}

/// A copy of each string, in order.
pub fn clone_strings(v: &Vec<String>) -> (r: Vec<String>)
    ensures
        r@ == v@,
{
    let mut r: Vec<String> = Vec::new();
    let mut i: usize = 0;
    while i < v.len()
        invariant
            i <= v@.len(),
            r@ == v@.subrange(0, i as int),
        decreases v@.len() - i,
    {
        r.push(v[i].clone());
        i += 1;
        assert(r@ =~= v@.subrange(0, i as int));
    }
    assert(v@.subrange(0, v@.len() as int) =~= v@);
    r
}

/// Extends `spec` with the sentinel at position zero, the derived
/// capabilities, the reflective descriptor's settings and, where the type has
/// no documentation, the default description.
pub fn augment(spec: ErrorSpec, use_generics: &Vec<String>) -> (r: AugmentedError)
    ensures
        is_augmentation(r, spec, texts(use_generics@)),
        r.wf(),
{
    let ghost declared = spec.variants@;
    let ErrorSpec { ident, variants, docs, span } = spec;
    let mut rest = variants;
    let mut out: Vec<Variant> = Vec::new();
    out.push(Variant::Sentinel(SentinelVariant { phantom_params: clone_strings(use_generics) }));
    let n: usize = rest.len();
    let mut k: usize = 0;
    while k < n
        invariant
            n == declared.len(),
            k + rest@.len() == declared.len(),
            rest@ == declared.subrange(k as int, declared.len() as int),
            out@.len() == k + 1,
            out@[0] matches Variant::Sentinel(s) && s.phantom_params@ == use_generics@,
            forall|j: int| 0 <= j < k ==> #[trigger] out@[j + 1] == Variant::Declared(declared[j]),
        decreases rest@.len(),
    {
        let v = rest.remove(0);
        assert(v == declared[k as int]);
        out.push(Variant::Declared(v));
        k += 1;
        assert(rest@ =~= declared.subrange(k as int, declared.len() as int));
    }
    let mut docs = docs;
    if docs.len() == 0 {
        docs.push(String::from_str(DEFAULT_DOC));
        assert(texts(docs@) =~= seq![DEFAULT_DOC@]);
    }
    let r = AugmentedError {
        ident,
        variants: out,
        derives: vec![Derive::Encode, Derive::Decode, Derive::TypeInfo, Derive::CompactPalletError],
        skip_type_params: clone_strings(use_generics),
        capture_docs_always: true,
        docs,
        span,
    };
    assert(r.derives@ =~= generated_derives());
    assert forall|i: int| 1 <= i < r.variants@.len() implies #[trigger] r.variants@[i] is Declared by {
        assert(r.variants@[(i - 1) + 1] == Variant::Declared(declared[i - 1]));
    }
    r
}

} // verus!
