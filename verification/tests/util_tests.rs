use derive_io::ast::{Body, FieldList, GenericParam};
use derive_io::diag::Diag;
use derive_io::parse::parse_declaration;
use derive_io::resolve::{extract_meta, if_meta, resolve_attribute, Capability, Strategy};
use derive_io::scan::{find_annotated, FieldAddr};
use derive_io::synth::type_has_generic;
use derive_io::tokens::{render_toks, repeat_in_parenthesis, Delim, Tok};

fn id(s: &str) -> Tok {
    Tok::Ident(s.to_string())
}

fn p(c: char) -> Tok {
    Tok::Punct(c)
}

#[test]
fn render_joins_tokens_with_single_spaces() {
    let v = vec![
        id("Vec"),
        p('<'),
        id("u8"),
        p('>'),
        Tok::Open(Delim::Paren),
        Tok::Lit("3".to_string()),
        Tok::Close(Delim::Paren),
    ];
    assert_eq!(render_toks(&v), "Vec < u8 > ( 3 )");
}

#[test]
fn render_of_empty_is_empty() {
    let v: Vec<Tok> = Vec::new();
    assert_eq!(render_toks(&v), "");
}

#[test]
fn repeat_in_parenthesis_repeats_the_group() {
    let prefix = vec![id("Self")];
    let repeated = vec![id("_"), p(',')];
    let suffix = vec![id("x")];
    let out = repeat_in_parenthesis(&prefix, 2, &repeated, &suffix);
    assert_eq!(render_toks(&out), "Self ( _ , _ , x )");
}

#[test]
fn repeat_in_parenthesis_zero_times() {
    let prefix = vec![id("P")];
    let repeated = vec![id("_"), p(',')];
    let suffix: Vec<Tok> = Vec::new();
    let out = repeat_in_parenthesis(&prefix, 0, &repeated, &suffix);
    assert_eq!(render_toks(&out), "P ( )");
}

fn paren_args(inner: Vec<Tok>) -> Vec<Tok> {
    let mut v = vec![Tok::Open(Delim::Paren)];
    v.extend(inner);
    v.push(Tok::Close(Delim::Paren));
    v
}

#[test]
fn extract_meta_finds_the_pair_value() {
    let args = paren_args(vec![id("poll_read"), p('='), id("f"), p(','), id("as_ref")]);
    assert_eq!(extract_meta(&args, "poll_read"), Some("f".to_string()));
    assert_eq!(extract_meta(&args, "as_ref"), None);
    assert_eq!(extract_meta(&args, "poll_write"), None);
}

#[test]
fn if_meta_sees_bare_and_pair_keys() {
    let args = paren_args(vec![id("as_ref"), p(','), id("poll_read"), p('='), id("f")]);
    assert!(if_meta(&args, "as_ref"));
    assert!(if_meta(&args, "poll_read"));
    assert!(!if_meta(&args, "deref"));
}

#[test]
fn resolve_empty_args_is_direct() {
    let args: Vec<Tok> = Vec::new();
    let r = resolve_attribute(&args, Capability::Read).unwrap();
    assert!(matches!(r.strategy, Strategy::Direct));
    assert!(r.overrides.is_empty());
}

#[test]
fn resolve_duck_beats_nothing_else_is_set() {
    let args = paren_args(vec![id("duck")]);
    let r = resolve_attribute(&args, Capability::Write).unwrap();
    assert!(matches!(r.strategy, Strategy::Duck));
}

#[test]
fn resolve_rejects_repeated_keys() {
    let args = paren_args(vec![id("as_ref"), p(','), id("as_ref")]);
    let e = resolve_attribute(&args, Capability::Read).unwrap_err();
    assert!(matches!(e, Diag::InvalidAttribute(_)));
}

#[test]
fn resolve_rejects_read_override_outside_its_family() {
    // poll_write is a write-family key.
    let args = paren_args(vec![id("poll_write"), p('='), id("f")]);
    let e = resolve_attribute(&args, Capability::Read).unwrap_err();
    assert!(matches!(e, Diag::InvalidAttribute(_)));
}

#[test]
fn resolve_descriptor_takes_one_override_pair() {
    let one = paren_args(vec![id("as_fd"), p('='), id("f")]);
    assert!(resolve_attribute(&one, Capability::Descriptor).is_ok());
    let two = paren_args(vec![
        id("as_fd"),
        p('='),
        id("f"),
        p(','),
        id("as_raw_fd"),
        p('='),
        id("g"),
    ]);
    assert!(resolve_attribute(&two, Capability::Descriptor).is_err());
}

#[test]
fn type_has_generic_scans_identifiers_at_any_depth() {
    let params = vec![GenericParam {
        is_lifetime: false,
        name: "T".to_string(),
        bounds: Vec::new(),
    }];
    let ty = vec![id("Vec"), p('<'), id("T"), p('>')];
    assert!(type_has_generic(&ty, &params));
    let ty2 = vec![id("Vec"), p('<'), id("u8"), p('>')];
    assert!(!type_has_generic(&ty2, &params));
}

#[test]
fn parse_declaration_builds_the_tree() {
    // struct Both { #[read] r: ReadHalf }
    let mut v = Vec::new();
    v.push(id("struct"));
    v.push(id("Both"));
    v.push(Tok::Open(Delim::Brace));
    v.push(p('#'));
    v.push(Tok::Open(Delim::Bracket));
    v.push(id("read"));
    v.push(Tok::Close(Delim::Bracket));
    v.push(id("r"));
    v.push(p(':'));
    v.push(id("ReadHalf"));
    v.push(Tok::Close(Delim::Brace));
    let d = parse_declaration(&v).unwrap();
    assert_eq!(d.name, "Both");
    assert!(d.generics.is_empty());
    assert!(d.where_clause.is_empty());
    match &d.body {
        Body::Struct(FieldList::Named(fs)) => {
            assert_eq!(fs.len(), 1);
            assert_eq!(fs[0].name, "r");
            assert_eq!(fs[0].attrs.len(), 1);
            assert_eq!(fs[0].attrs[0].name, "read");
            assert_eq!(render_toks(&fs[0].ty), "ReadHalf");
        },
        other => panic!("unexpected body {:?}", other),
    }
}

#[test]
fn parse_unclosed_declaration_fails() {
    let v = vec![id("struct"), id("X"), Tok::Open(Delim::Brace)];
    assert!(parse_declaration(&v).is_err());
}

#[test]
fn find_annotated_returns_the_first_match() {
    let d = {
        // struct F { plain: P, #[read] a: R1, #[read] b: R2 }
        let mut v = Vec::new();
        v.push(id("struct"));
        v.push(id("F"));
        v.push(Tok::Open(Delim::Brace));
        v.push(id("plain"));
        v.push(p(':'));
        v.push(id("P"));
        v.push(p(','));
        v.push(p('#'));
        v.push(Tok::Open(Delim::Bracket));
        v.push(id("read"));
        v.push(Tok::Close(Delim::Bracket));
        v.push(id("a"));
        v.push(p(':'));
        v.push(id("R1"));
        v.push(p(','));
        v.push(p('#'));
        v.push(Tok::Open(Delim::Bracket));
        v.push(id("read"));
        v.push(Tok::Close(Delim::Bracket));
        v.push(id("b"));
        v.push(p(':'));
        v.push(id("R2"));
        v.push(Tok::Close(Delim::Brace));
        parse_declaration(&v).unwrap()
    };
    let fields = match &d.body {
        Body::Struct(fl) => fl,
        _ => panic!("expected struct"),
    };
    let found = find_annotated(fields, "read").unwrap();
    match &found.addr {
        FieldAddr::Named(n) => assert_eq!(n, "a"),
        other => panic!("unexpected address {:?}", other),
    }
    assert_eq!(render_toks(&found.ty), "R1");
    assert!(find_annotated(fields, "descriptor").is_none());
}

#[test]
fn diagnostic_messages_name_the_offender() {
    assert_eq!(
        Diag::MissingCapability("write".to_string()).message(),
        "No #[write] field found"
    );
    assert_eq!(
        Diag::InvalidAttribute("read ( x )".to_string()).message(),
        "Invalid #read ( x ) attribute"
    );
    assert_eq!(Diag::UnsupportedShape.message(), "unsupported declaration shape");
}

#[test]
fn stray_attribute_token_fails_with_unexpected_token() {
    // `# x` is no attribute: `[` must follow the hash.
    let v = vec![p('#'), id("x"), id("struct"), id("X")];
    let e = parse_declaration(&v).unwrap_err();
    assert!(matches!(e, Diag::UnexpectedToken));
    assert_eq!(e.message(), "unexpected token in declaration");
}
