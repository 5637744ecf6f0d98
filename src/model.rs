//! The definition tree of a module and of its declared error type, as the
//! parser hands it over.

use vstd::prelude::*;

verus! {

/// Where an item was written in the source, as byte offsets.
#[derive(Clone, Copy, Debug, PartialEq, Eq, Structural)]
pub struct SourceSpan {
    pub start: usize,
    pub end: usize,
}

/// The fields that a variant carries.
#[derive(Clone, Debug)]
pub enum FieldShape {
    /// `Name`
    Unit,
    /// `Name(A, B)`: the types of the fields, in order.
    Positional(Vec<String>),
    /// `Name { a: A, b: B }`: the names of the fields, in order.
    Named(Vec<String>),
}

/// One declared variant of the error type.
#[derive(Clone, Debug)]
pub struct VariantDescriptor {
    pub name: String,
    pub shape: FieldShape,
    pub span: SourceSpan,
}

/// The declared error type of a module.
#[derive(Clone, Debug)]
pub struct ErrorSpec {
    /// The identifier of the enum.
    pub ident: String,
    /// The variants, in declaration order.
    pub variants: Vec<VariantDescriptor>,
    /// The text of each doc line attached to the enum.
    pub docs: Vec<String>,
    pub span: SourceSpan,
}

/// A module: its generics, its configuration bounds and its optional error type.
#[derive(Clone, Debug)]
pub struct ModuleDefinition {
    /// The identifier of the module's type.
    pub module_ident: String,
    /// Generic parameters as declared, bounds included (`T: Config<I>`).
    pub impl_generics: Vec<String>,
    /// Generic parameters as used (`T`, `I`).
    pub use_generics: Vec<String>,
    /// The predicates of the configuration's `where` clause.
    pub where_predicates: Vec<String>,
    pub error: Option<ErrorSpec>,
}

/// The name of the reserved variant that augmentation puts first.
pub const SENTINEL_NAME: &'static str = "__Ignore";

impl ErrorSpec {
    /// What the parser guarantees: variant names are unique, and none takes
    /// the reserved name.
    pub open spec fn wf(&self) -> bool {
        &&& forall|i: int|
            0 <= i < self.variants@.len() ==> #[trigger] self.variants@[i].name@ != SENTINEL_NAME@
        &&& forall|i: int, j: int|
            0 <= i < self.variants@.len() && 0 <= j < self.variants@.len() && i != j
                ==> self.variants@[i].name@ != self.variants@[j].name@
    }
}

/// The text of each string of a sequence.
pub open spec fn texts(v: Seq<String>) -> Seq<Seq<char>> {
    v.map_values(|s: String| s@)
}

} // verus!
