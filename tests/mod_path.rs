use std::collections::hash_map::DefaultHasher;
use std::hash::{Hash, Hasher};

use hir_expand::known::KnownPath;
use hir_expand::lower::{Hygiene, NameResolution, PathSegment, SegmentKind, SyntaxPath};
use hir_expand::lsp_error::LspError;
use hir_expand::mod_path::{CrateId, ModPath, Name, PathKind};

fn name(s: &str) -> Name {
    Name::new(s.to_string())
}

fn names(v: &[&str]) -> Vec<Name> {
    v.iter().map(|s| name(s)).collect()
}

fn seg(kind: SegmentKind) -> PathSegment {
    PathSegment { kind, coloncolon: false }
}

fn ident(s: &str) -> PathSegment {
    seg(SegmentKind::Name(s.to_string()))
}

fn syntax(segments: Vec<PathSegment>) -> SyntaxPath {
    SyntaxPath { segments, in_macro_call: false }
}

fn texts(p: &ModPath) -> Vec<String> {
    p.segments().iter().map(|n| n.as_str().to_string()).collect()
}

fn hash_of(p: &ModPath) -> u64 {
    let mut h = DefaultHasher::new();
    p.hash(&mut h);
    h.finish()
}

#[test]
fn single_ident_is_ident() {
    let p = ModPath::from_segments(PathKind::Plain, names(&["foo"]));
    assert!(p.is_ident());
    assert_eq!(p.as_ident().map(|n| n.as_str()), Some("foo"));
    let q = ModPath::from(name("bar"));
    assert!(q.is_ident());
    assert_eq!(q.as_ident().map(|n| n.as_str()), Some("bar"));
}

#[test]
fn non_plain_or_longer_is_not_ident() {
    assert!(!ModPath::from_segments(PathKind::Abs, names(&["foo"])).is_ident());
    assert!(!ModPath::from_segments(PathKind::Plain, names(&["a", "b"])).is_ident());
    assert!(ModPath::from_kind(PathKind::Plain).as_ident().is_none());
}

#[test]
fn is_self_only_without_segments() {
    assert!(ModPath::from_kind(PathKind::Super(0)).is_self());
    assert!(!ModPath::from_segments(PathKind::Super(0), names(&["foo"])).is_self());
    assert!(!ModPath::from_kind(PathKind::Super(1)).is_self());
}

#[test]
fn is_self_type() {
    assert!(ModPath::from_segments(PathKind::Plain, names(&["Self"])).is_Self());
    assert!(!ModPath::from_segments(PathKind::Plain, names(&["self"])).is_Self());
    assert!(!ModPath::from_segments(PathKind::Abs, names(&["Self"])).is_Self());
    assert!(!ModPath::from_kind(PathKind::Super(0)).is_Self());
}

#[test]
fn len_counts_anchor_hops() {
    assert_eq!(ModPath::from_segments(PathKind::Super(3), names(&["a", "b"])).len(), 5);
    assert_eq!(ModPath::from_kind(PathKind::Crate).len(), 1);
    assert_eq!(ModPath::from_segments(PathKind::Abs, names(&["a", "b"])).len(), 2);
    assert_eq!(ModPath::from_kind(PathKind::DollarCrate(CrateId(4))).len(), 1);
    assert_eq!(ModPath::from_segments(PathKind::Plain, names(&["a"])).len(), 1);
}

#[test]
fn push_and_pop_at_tail() {
    let mut p = ModPath::from_kind(PathKind::Crate);
    p.push_segment(name("a"));
    p.push_segment(name("b"));
    assert_eq!(texts(&p), vec!["a", "b"]);
    assert_eq!(p.pop_segment().map(|n| n.as_str().to_string()), Some("b".to_string()));
    assert_eq!(texts(&p), vec!["a"]);
    assert_eq!(p.pop_segment().map(|n| n.as_str().to_string()), Some("a".to_string()));
    assert!(p.pop_segment().is_none());
    assert_eq!(p.kind(), PathKind::Crate);
}

#[test]
fn lower_super_super_foo() {
    let path = syntax(vec![seg(SegmentKind::SuperKw), seg(SegmentKind::SuperKw), ident("foo")]);
    let p = ModPath::from_src(&path, &Hygiene::none()).unwrap();
    assert_eq!(p.kind(), PathKind::Super(2));
    assert_eq!(texts(&p), vec!["foo"]);
}

#[test]
fn lower_self_foo_bar() {
    let path = syntax(vec![seg(SegmentKind::SelfKw), ident("foo"), ident("bar")]);
    let p = ModPath::from_src(&path, &Hygiene::none()).unwrap();
    assert_eq!(p.kind(), PathKind::Super(0));
    assert_eq!(texts(&p), vec!["foo", "bar"]);
}

#[test]
fn lower_super_self_fails() {
    let path = syntax(vec![seg(SegmentKind::SuperKw), seg(SegmentKind::SelfKw)]);
    assert!(ModPath::from_src(&path, &Hygiene::none()).is_none());
}

#[test]
fn lower_keywords_after_prefix_fail() {
    let h = Hygiene::none();
    assert!(ModPath::from_src(&syntax(vec![ident("a"), seg(SegmentKind::CrateKw)]), &h).is_none());
    assert!(ModPath::from_src(&syntax(vec![ident("a"), seg(SegmentKind::SelfTypeKw)]), &h).is_none());
    assert!(ModPath::from_src(&syntax(vec![ident("a"), seg(SegmentKind::SuperKw)]), &h).is_none());
    assert!(ModPath::from_src(&syntax(vec![seg(SegmentKind::CrateKw), seg(SegmentKind::SuperKw)]), &h).is_none());
}

#[test]
fn lower_type_segment_fails() {
    let h = Hygiene::none();
    assert!(ModPath::from_src(&syntax(vec![ident("a"), seg(SegmentKind::Type)]), &h).is_none());
    assert!(ModPath::from_src(&syntax(vec![seg(SegmentKind::Type), ident("a")]), &h).is_none());
    assert!(ModPath::from_src(&syntax(vec![]), &h).is_none());
}

#[test]
fn lower_plain_abs_crate_and_self_type() {
    let h = Hygiene::none();
    let p = ModPath::from_src(&syntax(vec![ident("a"), ident("b")]), &h).unwrap();
    assert_eq!(p.kind(), PathKind::Plain);
    assert_eq!(texts(&p), vec!["a", "b"]);
    let first = PathSegment { kind: SegmentKind::Name("std".to_string()), coloncolon: true };
    let p = ModPath::from_src(&syntax(vec![first, ident("vec")]), &h).unwrap();
    assert_eq!(p.kind(), PathKind::Abs);
    assert_eq!(texts(&p), vec!["std", "vec"]);
    let p = ModPath::from_src(&syntax(vec![seg(SegmentKind::CrateKw), ident("m")]), &h).unwrap();
    assert_eq!(p.kind(), PathKind::Crate);
    assert_eq!(texts(&p), vec!["m"]);
    let p = ModPath::from_src(&syntax(vec![seg(SegmentKind::SelfTypeKw)]), &h).unwrap();
    assert!(p.is_Self());
}

#[test]
fn lower_dollar_crate() {
    let h = Hygiene { dollar_crate: Some(CrateId(7)), local_inner: None };
    let p = ModPath::from_src(&syntax(vec![ident("$crate"), ident("foo")]), &h).unwrap();
    assert_eq!(p.kind(), PathKind::DollarCrate(CrateId(7)));
    assert_eq!(texts(&p), vec!["foo"]);
    let p = ModPath::from_src(&syntax(vec![ident("a"), ident("$crate")]), &h).unwrap();
    assert_eq!(p.kind(), PathKind::DollarCrate(CrateId(7)));
    assert!(texts(&p).is_empty());
    let p = ModPath::from_src(&syntax(vec![ident("$crate"), ident("foo")]), &Hygiene::none()).unwrap();
    assert_eq!(p.kind(), PathKind::Plain);
    assert_eq!(texts(&p), vec!["$crate", "foo"]);
}

#[test]
fn lower_local_inner_macro() {
    let h = Hygiene { dollar_crate: None, local_inner: Some(CrateId(9)) };
    let call = SyntaxPath { segments: vec![ident("format_args")], in_macro_call: true };
    let p = ModPath::from_src(&call, &h).unwrap();
    assert_eq!(p.kind(), PathKind::DollarCrate(CrateId(9)));
    assert_eq!(texts(&p), vec!["format_args"]);
    let not_call = syntax(vec![ident("format_args")]);
    assert_eq!(ModPath::from_src(&not_call, &h).unwrap().kind(), PathKind::Plain);
    let longer = SyntaxPath { segments: vec![ident("a"), ident("m")], in_macro_call: true };
    assert_eq!(ModPath::from_src(&longer, &h).unwrap().kind(), PathKind::Plain);
    assert_eq!(ModPath::from_src(&call, &Hygiene::none()).unwrap().kind(), PathKind::Plain);
}

#[test]
fn lower_super_overflow_fails() {
    let mut segments = Vec::new();
    for _ in 0..255 {
        segments.push(seg(SegmentKind::SuperKw));
    }
    let p = ModPath::from_src(&syntax(segments.clone()), &Hygiene::none()).unwrap();
    assert_eq!(p.kind(), PathKind::Super(255));
    segments.push(seg(SegmentKind::SuperKw));
    assert!(ModPath::from_src(&syntax(segments), &Hygiene::none()).is_none());
}

#[test]
fn name_resolution_of_dollar_crate() {
    let h = Hygiene { dollar_crate: Some(CrateId(1)), local_inner: None };
    assert!(matches!(h.name_ref_to_name(&"$crate".to_string()), NameResolution::CrateSubst(CrateId(1))));
    match h.name_ref_to_name(&"foo".to_string()) {
        NameResolution::Ident(n) => assert_eq!(n.as_str(), "foo"),
        NameResolution::CrateSubst(_) => panic!("expected an identifier"),
    }
}

#[test]
fn display_forms() {
    let ab = names(&["a", "b"]);
    assert_eq!(ModPath::from_segments(PathKind::Abs, ab.clone()).to_display_string(), "::a::b");
    assert_eq!(ModPath::from_segments(PathKind::Plain, ab.clone()).to_display_string(), "a::b");
    assert_eq!(ModPath::from_kind(PathKind::Super(2)).to_display_string(), "super::super");
    assert_eq!(ModPath::from_segments(PathKind::Super(0), ab.clone()).to_display_string(), "self::a::b");
    assert_eq!(ModPath::from_segments(PathKind::Crate, ab.clone()).to_display_string(), "crate::a::b");
    assert_eq!(ModPath::from_segments(PathKind::DollarCrate(CrateId(0)), ab).to_display_string(), "$crate::a::b");
    assert_eq!(ModPath::from_kind(PathKind::Plain).to_display_string(), "");
    assert_eq!(ModPath::from_kind(PathKind::Super(0)).to_display_string(), "self");
}

#[test]
fn equal_models_are_equal_and_hash_alike() {
    let direct = ModPath::from_segments(PathKind::Super(0), names(&["foo", "bar"]));
    let lowered = ModPath::from_src(
        &syntax(vec![seg(SegmentKind::SelfKw), ident("foo"), ident("bar")]),
        &Hygiene::none(),
    )
    .unwrap();
    assert!(direct == lowered);
    assert_eq!(hash_of(&direct), hash_of(&lowered));
    let other = ModPath::from_segments(PathKind::Plain, names(&["foo", "bar"]));
    assert!(direct != other);
    assert!(direct != ModPath::from_segments(PathKind::Super(0), names(&["foo", "baz"])));
    assert!(direct != ModPath::from_segments(PathKind::Super(0), names(&["foo"])));
}

#[test]
fn known_paths_are_absolute() {
    let p = KnownPath::Option.path();
    assert_eq!(p.kind(), PathKind::Abs);
    assert_eq!(texts(&p), vec!["core", "option", "Option"]);
    assert_eq!(KnownPath::IntoIterator.path().to_display_string(), "::core::iter::IntoIterator");
    assert_eq!(KnownPath::RangeToInclusive.path().to_display_string(), "::core::ops::RangeToInclusive");
    assert_eq!(KnownPath::Future.path().to_display_string(), "::core::future::Future");
}

#[test]
fn lsp_error_keeps_fields() {
    let e = LspError::new(-32601, "unknown method".to_string());
    assert_eq!(e.code, -32601);
    assert_eq!(e.message, "unknown method");
}
