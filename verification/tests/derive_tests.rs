use derive_io::derive::{
    derive_io_as_file_descriptor, derive_io_async_read, derive_io_async_write, derive_io_bufread,
    derive_io_read, derive_io_write,
};
use derive_io::diag::Diag;
use derive_io::tokens::{Delim, Tok};

fn id(s: &str) -> Tok {
    Tok::Ident(s.to_string())
}

fn p(c: char) -> Tok {
    Tok::Punct(c)
}

fn open(d: Delim) -> Tok {
    Tok::Open(d)
}

fn close(d: Delim) -> Tok {
    Tok::Close(d)
}

/// `#[name]`
fn attr(v: &mut Vec<Tok>, name: &str) {
    v.push(p('#'));
    v.push(open(Delim::Bracket));
    v.push(id(name));
    v.push(close(Delim::Bracket));
}

/// `#[name(args...)]` with raw arg tokens
fn attr_args(v: &mut Vec<Tok>, name: &str, args: Vec<Tok>) {
    v.push(p('#'));
    v.push(open(Delim::Bracket));
    v.push(id(name));
    v.push(open(Delim::Paren));
    for t in args {
        v.push(t);
    }
    v.push(close(Delim::Paren));
    v.push(close(Delim::Bracket));
}

/// `struct Both { #[read] r: ReadHalf, #[write] w: WriteHalf }`
fn both_struct() -> Vec<Tok> {
    let mut v = Vec::new();
    v.push(id("struct"));
    v.push(id("Both"));
    v.push(open(Delim::Brace));
    attr(&mut v, "read");
    v.push(id("r"));
    v.push(p(':'));
    v.push(id("ReadHalf"));
    v.push(p(','));
    attr(&mut v, "write");
    v.push(id("w"));
    v.push(p(':'));
    v.push(id("WriteHalf"));
    v.push(close(Delim::Brace));
    v
}

#[test]
fn two_field_struct_read_and_write_are_independent() {
    let input = both_struct();
    let read_impl = derive_io_read(&input).unwrap();
    let write_impl = derive_io_write(&input).unwrap();
    assert_eq!(
        read_impl,
        "impl std::io::Read for Both where <() as derive_io::IsSupported<&'static dyn \
         std::io::Read>>::Type: std::io::Read, { fn read(&mut self, buf: &mut [u8]) -> \
         std::io::Result<usize> { let this = self; let Self { r, .. } = this; \
         std::io::Read::read(r, buf) } }"
    );
    assert_eq!(
        write_impl,
        "impl std::io::Write for Both where <() as derive_io::IsSupported<&'static dyn \
         std::io::Write>>::Type: std::io::Write, { fn write(&mut self, buf: &[u8]) -> \
         std::io::Result<usize> { let this = self; let Self { w, .. } = this; \
         std::io::Write::write(w, buf) } fn flush(&mut self) -> std::io::Result<()> { let this = \
         self; let Self { w, .. } = this; std::io::Write::flush(w) } }"
    );
    // Reading never touches the write field and vice versa.
    assert!(!read_impl.contains("w,"));
    assert!(!read_impl.contains("WriteHalf"));
    assert!(!write_impl.contains("r,"));
    assert!(!write_impl.contains("ReadHalf"));
}

/// `enum Either { A(TcpA), B(TcpB), C(TcpC) }`, every variant's field marked
/// `#[read]`.
fn three_variant_enum() -> Vec<Tok> {
    let mut v = Vec::new();
    v.push(id("enum"));
    v.push(id("Either"));
    v.push(open(Delim::Brace));
    for (name, ty) in [("A", "TcpA"), ("B", "TcpB"), ("C", "TcpC")] {
        v.push(id(name));
        v.push(open(Delim::Paren));
        attr(&mut v, "read");
        v.push(id(ty));
        v.push(close(Delim::Paren));
        v.push(p(','));
    }
    v.push(close(Delim::Brace));
    v
}

#[test]
fn enum_three_variants_single_dispatching_impl() {
    let input = three_variant_enum();
    let out = derive_io_read(&input).unwrap();
    let placeholder =
        "<() as derive_io::IsSupported<&'static dyn std::io::Read>>::Type: std::io::Read, ";
    let mut expected = String::from("impl std::io::Read for Either where ");
    expected.push_str(placeholder);
    expected.push_str(placeholder);
    expected.push_str(placeholder);
    expected.push_str(
        "{ fn read(&mut self, buf: &mut [u8]) -> std::io::Result<usize> { let this = self; match \
         this { Self::A ( inner, .. ) => { std::io::Read::read(inner, buf) } Self::B ( inner, .. \
         ) => { std::io::Read::read(inner, buf) } Self::C ( inner, .. ) => { \
         std::io::Read::read(inner, buf) } } } }",
    );
    assert_eq!(out, expected);
}

#[test]
fn enum_variant_without_capability_fails() {
    // enum E { A(#[read] R1), B }
    let mut v = Vec::new();
    v.push(id("enum"));
    v.push(id("E"));
    v.push(open(Delim::Brace));
    v.push(id("A"));
    v.push(open(Delim::Paren));
    attr(&mut v, "read");
    v.push(id("R1"));
    v.push(close(Delim::Paren));
    v.push(p(','));
    v.push(id("B"));
    v.push(p(','));
    v.push(close(Delim::Brace));
    let err = derive_io_read(&v).unwrap_err();
    match &err {
        Diag::MissingCapability(cap) => assert_eq!(cap, "read"),
        other => panic!("expected missing capability, got {:?}", other),
    }
    assert_eq!(err.message(), "No #[read] field found");
}

#[test]
fn invalid_attribute_key_fails() {
    // struct I { #[read(bogus = f, bogus2)] r: R1 } -- unknown keys
    let mut v = Vec::new();
    v.push(id("struct"));
    v.push(id("I"));
    v.push(open(Delim::Brace));
    attr_args(&mut v, "read", vec![id("bogus")]);
    v.push(id("r"));
    v.push(p(':'));
    v.push(id("R1"));
    v.push(close(Delim::Brace));
    let err = derive_io_read(&v).unwrap_err();
    assert!(matches!(err, Diag::InvalidAttribute(_)));
    assert_eq!(err.message(), "Invalid #read ( bogus ) attribute");
}

#[test]
fn two_delegation_keys_at_once_are_rejected() {
    // struct I { #[read(as_ref, deref)] r: R1 } -- mutually exclusive
    let mut v = Vec::new();
    v.push(id("struct"));
    v.push(id("I"));
    v.push(open(Delim::Brace));
    attr_args(&mut v, "read", vec![id("as_ref"), p(','), id("deref")]);
    v.push(id("r"));
    v.push(p(':'));
    v.push(id("R1"));
    v.push(close(Delim::Brace));
    let err = derive_io_read(&v).unwrap_err();
    assert_eq!(err.message(), "Invalid #read ( as_ref , deref ) attribute");
}

#[test]
fn const_generics_are_rejected() {
    // struct C<const N: usize> { #[read] r: R1 }
    let mut v = Vec::new();
    v.push(id("struct"));
    v.push(id("C"));
    v.push(p('<'));
    v.push(id("const"));
    v.push(id("N"));
    v.push(p(':'));
    v.push(id("usize"));
    v.push(p('>'));
    v.push(open(Delim::Brace));
    attr(&mut v, "read");
    v.push(id("r"));
    v.push(p(':'));
    v.push(id("R1"));
    v.push(close(Delim::Brace));
    let err = derive_io_read(&v).unwrap_err();
    assert!(matches!(err, Diag::ConstNotSupported));
    assert_eq!(err.message(), "const not yet supported");
}

#[test]
fn unsupported_shape_is_rejected() {
    let v = vec![id("union"), id("U"), open(Delim::Brace), close(Delim::Brace)];
    let err = derive_io_read(&v).unwrap_err();
    assert!(matches!(err, Diag::UnsupportedShape));
}

fn one_field_struct(strategy_args: Option<Vec<Tok>>) -> Vec<Tok> {
    let mut v = Vec::new();
    v.push(id("struct"));
    v.push(id("One"));
    v.push(open(Delim::Brace));
    match strategy_args {
        None => attr(&mut v, "read"),
        Some(args) => attr_args(&mut v, "read", args),
    }
    v.push(id("r"));
    v.push(p(':'));
    v.push(id("Inner"));
    v.push(close(Delim::Brace));
    v
}

#[test]
fn direct_strategy_narrows_to_the_field_itself() {
    let out = derive_io_read(&one_field_struct(None)).unwrap();
    // The forwarded call's receiver is the field binding itself: no adapter.
    assert!(out.contains("std::io::Read::read(r, buf)"));
}

#[test]
fn as_ref_strategy_applies_the_reference_conversion() {
    let out = derive_io_read(&one_field_struct(Some(vec![id("as_ref")]))).unwrap();
    assert!(out.contains("std::io::Read::read(r.as_mut(), buf)"));
}

#[test]
fn deref_strategy_applies_the_dereference() {
    let out = derive_io_read(&one_field_struct(Some(vec![id("deref")]))).unwrap();
    assert!(out.contains("std::io::Read::read(std::ops::DerefMut::deref_mut(r), buf)"));
}

#[test]
fn duck_strategy_calls_the_inherent_method() {
    let out = derive_io_read(&one_field_struct(Some(vec![id("duck")]))).unwrap();
    assert!(out.contains("{ let this = self; let Self { r, .. } = this; r.read(buf) }"));
    assert!(!out.contains("std::io::Read::read("));
}

#[test]
fn override_replaces_the_forwarded_poll_call() {
    let input = one_field_struct(Some(vec![id("poll_read"), p('='), id("my_poll")]));
    let out = derive_io_async_read(&input).unwrap();
    assert_eq!(
        out,
        "impl tokio::io::AsyncRead for One where <() as derive_io::IsSupported<&'static dyn \
         tokio::io::AsyncRead>>::Type: tokio::io::AsyncRead, { fn poll_read(self: \
         std::pin::Pin<&mut Self>, cx: &mut std::task::Context<'_>, buf: &mut \
         tokio::io::ReadBuf<'_>) -> std::task::Poll<std::io::Result<()>> { let this = unsafe { \
         self.get_unchecked_mut() }; let Self { r, .. } = this; my_poll(unsafe { \
         std::pin::Pin::new_unchecked(r) }, cx, buf) } }"
    );
    // The default forwarded call never appears.
    assert!(!out.contains("tokio::io::AsyncRead::poll_read("));
}

#[test]
fn override_applies_only_to_its_own_operation() {
    // The poll_read override must not replace the synchronous read call.
    let input = one_field_struct(Some(vec![id("poll_read"), p('='), id("my_poll")]));
    let out = derive_io_read(&input).unwrap();
    assert!(out.contains("std::io::Read::read(r, buf)"));
    assert!(!out.contains("my_poll"));
}

#[test]
fn write_family_accepts_several_overrides() {
    // struct W { #[write(poll_write = w1, poll_flush = w2)] s: S1 }
    let mut v = Vec::new();
    v.push(id("struct"));
    v.push(id("W"));
    v.push(open(Delim::Brace));
    attr_args(
        &mut v,
        "write",
        vec![id("poll_write"), p('='), id("w1"), p(','), id("poll_flush"), p('='), id("w2")],
    );
    v.push(id("s"));
    v.push(p(':'));
    v.push(id("S1"));
    v.push(close(Delim::Brace));
    let out = derive_io_async_write(&v).unwrap();
    assert!(out.contains("w1(unsafe { std::pin::Pin::new_unchecked(s) }, cx, buf)"));
    assert!(out.contains("w2(unsafe { std::pin::Pin::new_unchecked(s) }, cx)"));
    // The remaining operations keep the forwarded default.
    assert!(out.contains("tokio::io::AsyncWrite::poll_shutdown("));
    assert!(out.contains("tokio::io::AsyncWrite::is_write_vectored("));
    assert!(out.contains("tokio::io::AsyncWrite::poll_write_vectored("));
}

#[test]
fn generic_field_type_gets_its_own_bound() {
    // struct Wrap<T> { #[read] f: T }
    let mut v = Vec::new();
    v.push(id("struct"));
    v.push(id("Wrap"));
    v.push(p('<'));
    v.push(id("T"));
    v.push(p('>'));
    v.push(open(Delim::Brace));
    attr(&mut v, "read");
    v.push(id("f"));
    v.push(p(':'));
    v.push(id("T"));
    v.push(close(Delim::Brace));
    let out = derive_io_read(&v).unwrap();
    assert_eq!(
        out,
        "impl<T> std::io::Read for Wrap<T> where T: std::io::Read, { fn read(&mut self, buf: \
         &mut [u8]) -> std::io::Result<usize> { let this = self; let Self { f, .. } = this; \
         std::io::Read::read(f, buf) } }"
    );
}

#[test]
fn concrete_field_type_gets_the_placeholder_bound() {
    // struct Mixed<T> { #[read] s: TcpStream, other: T }
    let mut v = Vec::new();
    v.push(id("struct"));
    v.push(id("Mixed"));
    v.push(p('<'));
    v.push(id("T"));
    v.push(p('>'));
    v.push(open(Delim::Brace));
    attr(&mut v, "read");
    v.push(id("s"));
    v.push(p(':'));
    v.push(id("TcpStream"));
    v.push(p(','));
    v.push(id("other"));
    v.push(p(':'));
    v.push(id("T"));
    v.push(close(Delim::Brace));
    let out = derive_io_read(&v).unwrap();
    assert!(out.contains(
        "where <() as derive_io::IsSupported<&'static dyn std::io::Read>>::Type: std::io::Read,"
    ));
    assert!(!out.contains("TcpStream: std::io::Read"));
}

#[test]
fn inline_bounds_move_to_the_where_clause() {
    // struct S<'a, T: AsRef<[u8]>> { #[read] f: T }
    let mut v = Vec::new();
    v.push(id("struct"));
    v.push(id("S"));
    v.push(p('<'));
    v.push(p('\''));
    v.push(id("a"));
    v.push(p(','));
    v.push(id("T"));
    v.push(p(':'));
    v.push(id("AsRef"));
    v.push(p('<'));
    v.push(open(Delim::Bracket));
    v.push(id("u8"));
    v.push(close(Delim::Bracket));
    v.push(p('>'));
    v.push(p('>'));
    v.push(open(Delim::Brace));
    attr(&mut v, "read");
    v.push(id("f"));
    v.push(p(':'));
    v.push(id("T"));
    v.push(close(Delim::Brace));
    let out = derive_io_read(&v).unwrap();
    assert!(out.starts_with("impl<'a, T> std::io::Read for S<'a, T> where "));
    assert!(out.contains("T: std::io::Read, T: AsRef < [ u8 ] >, {"));
}

#[test]
fn tuple_struct_field_is_reached_by_position() {
    // struct T3(A, B, #[read] C);
    let mut v = Vec::new();
    v.push(id("struct"));
    v.push(id("T3"));
    v.push(open(Delim::Paren));
    v.push(id("A"));
    v.push(p(','));
    v.push(id("B"));
    v.push(p(','));
    attr(&mut v, "read");
    v.push(id("C"));
    v.push(close(Delim::Paren));
    v.push(p(';'));
    let out = derive_io_read(&v).unwrap();
    assert!(out.contains("let Self ( _, _, inner, .. ) = this; std::io::Read::read(inner, buf)"));
}

#[test]
fn struct_level_attribute_delegates_to_the_aggregate() {
    // #[read] struct S2 { x: Q }
    let mut v = Vec::new();
    attr(&mut v, "read");
    v.push(id("struct"));
    v.push(id("S2"));
    v.push(open(Delim::Brace));
    v.push(id("x"));
    v.push(p(':'));
    v.push(id("Q"));
    v.push(close(Delim::Brace));
    let out = derive_io_read(&v).unwrap();
    assert_eq!(
        out,
        "impl std::io::Read for S2 { fn read(&mut self, buf: &mut [u8]) -> \
         std::io::Result<usize> { let this = self; std::io::Read::read(this, buf) } }"
    );
}

#[test]
fn bufread_derives_all_five_operations() {
    let out = derive_io_bufread(&one_field_struct(None)).unwrap();
    assert!(out.contains("impl std::io::BufRead for One"));
    assert!(out.contains("std::io::BufRead::fill_buf(r)"));
    assert!(out.contains("std::io::BufRead::consume(r, amt)"));
    assert!(out.contains("std::io::BufRead::read_until(r, byte, buf)"));
    assert!(out.contains("std::io::BufRead::skip_until(r, byte)"));
    assert!(out.contains("std::io::BufRead::read_line(r, buf)"));
}

#[test]
fn descriptor_derives_both_unix_traits() {
    // struct D { #[descriptor] fd: OwnedFd }
    let mut v = Vec::new();
    v.push(id("struct"));
    v.push(id("D"));
    v.push(open(Delim::Brace));
    attr(&mut v, "descriptor");
    v.push(id("fd"));
    v.push(p(':'));
    v.push(id("OwnedFd"));
    v.push(close(Delim::Brace));
    let out = derive_io_as_file_descriptor(&v).unwrap();
    let parts: Vec<&str> = out.split("\n\n").collect();
    assert_eq!(parts.len(), 2);
    assert!(parts[0].contains("impl std::os::fd::AsFd for D"));
    assert!(parts[0].contains("std::os::fd::AsFd::as_fd(fd)"));
    assert!(parts[1].contains("impl std::os::fd::AsRawFd for D"));
    assert!(parts[1].contains("std::os::fd::AsRawFd::as_raw_fd(fd)"));
}

#[test]
fn rederiving_the_same_declaration_is_identical() {
    let a = derive_io_read(&both_struct()).unwrap();
    let b = derive_io_read(&both_struct()).unwrap();
    assert_eq!(a, b);
}

#[test]
fn first_annotated_field_wins() {
    // struct F { #[read] a: R1, #[read] b: R2 } -- first match in
    // declaration order, the later one is ignored.
    let mut v = Vec::new();
    v.push(id("struct"));
    v.push(id("F"));
    v.push(open(Delim::Brace));
    attr(&mut v, "read");
    v.push(id("a"));
    v.push(p(':'));
    v.push(id("R1"));
    v.push(p(','));
    attr(&mut v, "read");
    v.push(id("b"));
    v.push(p(':'));
    v.push(id("R2"));
    v.push(close(Delim::Brace));
    let out = derive_io_read(&v).unwrap();
    assert!(out.contains("std::io::Read::read(a, buf)"));
    assert!(!out.contains("std::io::Read::read(b, buf)"));
}

#[test]
fn original_where_clause_is_kept() {
    // enum G<T> where T: Clone { A(#[read] T) }
    let mut v = Vec::new();
    v.push(id("enum"));
    v.push(id("G"));
    v.push(p('<'));
    v.push(id("T"));
    v.push(p('>'));
    v.push(id("where"));
    v.push(id("T"));
    v.push(p(':'));
    v.push(id("Clone"));
    v.push(open(Delim::Brace));
    v.push(id("A"));
    v.push(open(Delim::Paren));
    attr(&mut v, "read");
    v.push(id("T"));
    v.push(close(Delim::Paren));
    v.push(p(','));
    v.push(close(Delim::Brace));
    let out = derive_io_read(&v).unwrap();
    assert!(out.starts_with(
        "impl<T> std::io::Read for G<T> where T: std::io::Read, T : Clone { fn read"
    ));
    assert!(out.contains("match this { Self::A ( inner, .. ) => { std::io::Read::read(inner, buf) } }"));
}

#[test]
fn as_ref_strategy_re_pins_through_the_conversion() {
    let input = one_field_struct(Some(vec![id("as_ref")]));
    let out = derive_io_async_read(&input).unwrap();
    assert!(out.contains(
        "tokio::io::AsyncRead::poll_read(std::pin::Pin::new(r.as_mut()), cx, buf)"
    ));
}

#[test]
fn deref_strategy_re_pins_through_the_dereference() {
    let input = one_field_struct(Some(vec![id("deref")]));
    let out = derive_io_async_read(&input).unwrap();
    assert!(out.contains(
        "tokio::io::AsyncRead::poll_read(std::pin::Pin::new(std::ops::DerefMut::deref_mut(r)), \
         cx, buf)"
    ));
}

#[test]
fn borrowing_operations_use_the_plain_receiver() {
    // is_write_vectored takes &self: the arm forwards on the plain binding.
    let mut v = Vec::new();
    v.push(id("struct"));
    v.push(id("WS"));
    v.push(open(Delim::Brace));
    attr(&mut v, "write");
    v.push(id("s"));
    v.push(p(':'));
    v.push(id("S1"));
    v.push(close(Delim::Brace));
    let out = derive_io_async_write(&v).unwrap();
    assert!(out.contains(
        "fn is_write_vectored(&self) -> bool { let this = self; let Self { s, .. } = this; \
         tokio::io::AsyncWrite::is_write_vectored(s) }"
    ));
}
