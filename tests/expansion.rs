use pallet_error::{
    augment, clone_strings, descriptor_arm, descriptor_arms, expand_error, normalize_error_bytes,
    AugmentedError, Derive, ErrorSpec, FieldShape,
    MatchPattern, ModuleDefinition, SelfTest, SourceSpan, Variant, VariantDescriptor,
    COMPACTNESS_FAILURE, DEFAULT_DOC, MAX_ERROR_BYTES, SENTINEL_NAME,
};

fn span() -> SourceSpan {
    SourceSpan { start: 10, end: 20 }
}

fn variant(name: &str, shape: FieldShape) -> VariantDescriptor {
    VariantDescriptor { name: name.to_string(), shape, span: span() }
}

fn strings(v: &[&str]) -> Vec<String> {
    v.iter().map(|s| s.to_string()).collect()
}

fn sample_spec(docs: Vec<String>) -> ErrorSpec {
    ErrorSpec {
        ident: "Error".to_string(),
        variants: vec![
            variant("InsufficientBalance", FieldShape::Unit),
            variant("Overflow", FieldShape::Positional(strings(&["u8"]))),
            variant("BadOrigin", FieldShape::Named(strings(&["who"]))),
        ],
        docs,
        span: span(),
    }
}

fn module(error: Option<ErrorSpec>) -> ModuleDefinition {
    ModuleDefinition {
        module_ident: "Pallet".to_string(),
        impl_generics: strings(&["T: Config<I>", "I: 'static"]),
        use_generics: strings(&["T", "I"]),
        where_predicates: Vec::new(),
        error,
    }
}

fn declared_names(aug: &AugmentedError) -> Vec<String> {
    aug.variants
        .iter()
        .filter_map(|v| match v {
            Variant::Declared(d) => Some(d.name.clone()),
            Variant::Sentinel(_) => None,
        })
        .collect()
}

#[test]
fn three_shapes_give_three_descriptors_and_sentinel_first() {
    let r = expand_error(module(Some(sample_spec(Vec::new()))));
    let x = r.error.expect("an error type was declared");
    let texts: Vec<&str> = x.arms.iter().map(|a| a.text.as_str()).collect();
    assert_eq!(texts, vec!["InsufficientBalance", "Overflow", "BadOrigin"]);
    let patterns: Vec<MatchPattern> = x.arms.iter().map(|a| a.pattern).collect();
    assert_eq!(
        patterns,
        vec![MatchPattern::Exact, MatchPattern::AnyPositional, MatchPattern::AnyNamed]
    );
    assert_eq!(x.augmented.variants.len(), 4);
    match &x.augmented.variants[0] {
        Variant::Sentinel(s) => assert_eq!(s.phantom_params, strings(&["T", "I"])),
        Variant::Declared(_) => panic!("the sentinel must come first"),
    }
    assert_eq!(declared_names(&x.augmented), strings(&["InsufficientBalance", "Overflow", "BadOrigin"]));
    assert!(x.arms.iter().all(|a| a.variant != SENTINEL_NAME && a.text != SENTINEL_NAME));
}

#[test]
fn envelope_for_overflow_nine_at_index_seven() {
    let aug = augment(sample_spec(Vec::new()), &strings(&["T"]));
    let e = aug.to_envelope(Some(7), 2, &vec![9u8]);
    assert_eq!(e.module_index, 7);
    assert_eq!(e.error, [9, 0, 0, 0]);
    assert_eq!(e.message.as_deref(), Some("Overflow"));
}

#[test]
fn envelope_keeps_index_zero_and_truncates() {
    let aug = augment(sample_spec(Vec::new()), &strings(&["T"]));
    let e = aug.to_envelope(Some(0), 3, &vec![1, 2, 3, 4, 5]);
    assert_eq!(e.module_index, 0);
    assert_eq!(e.error, [1, 2, 3, 4]);
    assert_eq!(e.message.as_deref(), Some("BadOrigin"));
    let e = aug.to_envelope(Some(255), 1, &vec![]);
    assert_eq!(e.module_index, 255);
    assert_eq!(e.error, [0, 0, 0, 0]);
    assert_eq!(e.message.as_deref(), Some("InsufficientBalance"));
}

#[test]
fn payload_is_padded_with_zeros() {
    assert_eq!(normalize_error_bytes(&vec![]), [0, 0, 0, 0]);
    assert_eq!(normalize_error_bytes(&vec![1, 2]), [1, 2, 0, 0]);
    assert_eq!(normalize_error_bytes(&vec![1, 2, 3, 4]), [1, 2, 3, 4]);
}

#[test]
fn payload_is_truncated_when_too_long() {
    let e = normalize_error_bytes(&vec![5, 6, 7, 8, 9, 10]);
    assert_eq!(e.len(), MAX_ERROR_BYTES);
    assert_eq!(e, [5, 6, 7, 8]);
}

#[test]
fn descriptor_is_identifier_for_every_shape() {
    let aug = augment(sample_spec(Vec::new()), &Vec::new());
    assert_eq!(aug.as_str(1), "InsufficientBalance");
    assert_eq!(aug.as_str(2), "Overflow");
    assert_eq!(aug.as_str(3), "BadOrigin");
}

#[test]
fn missing_error_type_gives_passing_self_test() {
    let r = expand_error(module(None));
    assert!(r.error.is_none());
    assert!(matches!(r.self_test, SelfTest::NoOp));
    assert_eq!(r.self_test.run(true), Ok(()));
    assert_eq!(r.self_test.run(false), Ok(()));
    assert_eq!(r.module_ident, "Pallet");
    assert_eq!(r.use_generics, strings(&["T", "I"]));
}

#[test]
fn compactness_self_test_reports_failure() {
    let r = expand_error(module(Some(sample_spec(Vec::new()))));
    match &r.self_test {
        SelfTest::CheckCompactness { error_ident } => assert_eq!(error_ident, "Error"),
        SelfTest::NoOp => panic!("a declared error type is checked"),
    }
    assert_eq!(r.self_test.run(true), Ok(()));
    assert_eq!(r.self_test.run(false), Err(COMPACTNESS_FAILURE.to_string()));
    assert_eq!(COMPACTNESS_FAILURE, "error type is not the most compact possible");
}

#[test]
fn undocumented_type_gets_default_doc() {
    let aug = augment(sample_spec(Vec::new()), &strings(&["T"]));
    assert_eq!(aug.docs, vec![DEFAULT_DOC.to_string()]);
}

#[test]
fn documented_type_keeps_its_doc() {
    let docs = strings(&["Errors of the balances module."]);
    let aug = augment(sample_spec(docs.clone()), &strings(&["T"]));
    assert_eq!(aug.docs, docs);
}

#[test]
fn augmentation_directives() {
    let aug = augment(sample_spec(Vec::new()), &strings(&["T", "I"]));
    assert_eq!(aug.ident, "Error");
    assert_eq!(aug.span, span());
    assert_eq!(
        aug.derives,
        vec![Derive::Encode, Derive::Decode, Derive::TypeInfo, Derive::CompactPalletError]
    );
    assert_eq!(aug.skip_type_params, strings(&["T", "I"]));
    assert!(aug.capture_docs_always);
}

#[test]
fn empty_error_type_gets_only_the_sentinel() {
    let spec = ErrorSpec { ident: "Error".to_string(), variants: Vec::new(), docs: Vec::new(), span: span() };
    let r = expand_error(module(Some(spec)));
    let x = r.error.expect("an error type was declared");
    assert_eq!(x.augmented.variants.len(), 1);
    assert!(matches!(x.augmented.variants[0], Variant::Sentinel(_)));
    assert!(x.arms.is_empty());
}

#[test]
fn arms_follow_declaration_order() {
    let variants = vec![
        variant("Zeta", FieldShape::Named(strings(&["a", "b"]))),
        variant("Alpha", FieldShape::Unit),
    ];
    let arms = descriptor_arms(&variants);
    assert_eq!(arms.len(), 2);
    assert_eq!(arms[0].variant, "Zeta");
    assert_eq!(arms[0].pattern, MatchPattern::AnyNamed);
    assert_eq!(arms[1].text, "Alpha");
    let one = descriptor_arm(&variant("Pos", FieldShape::Positional(strings(&["u32", "u64"]))));
    assert_eq!(one.pattern, MatchPattern::AnyPositional);
    assert_eq!(one.text, "Pos");
}

#[test]
fn strings_are_copied_in_order() {
    let v = strings(&["T", "I", "X"]);
    assert_eq!(clone_strings(&v), v);
    assert!(clone_strings(&Vec::new()).is_empty());
}
