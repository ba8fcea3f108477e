//! The failure paths: every error kind of the taxonomy reached from a
//! concrete input.

use value_from_type::attr::value_from_type_impl;
use value_from_type::diag::{DiagKind, Severity};
use value_from_type::model::{
    AttrBody, Delim, Generics, Ident, Item, Loc, MetaAttr, ModuleDecl, Record, Tok,
};

fn loc(tag: u64) -> Loc {
    Loc { tag }
}

fn ident(text: &str, tag: u64) -> Ident {
    Ident { text: text.to_string(), loc: loc(tag) }
}

fn word(text: &str, tag: u64) -> Tok {
    Tok::Word(ident(text, tag))
}

fn plain_record(name: &str, tag: u64) -> Record {
    Record {
        ident: ident(name, tag),
        attrs: Vec::new(),
        generics: Generics { params: Vec::new(), where_tokens: Vec::new() },
    }
}

fn braced_module(items: Vec<Item>) -> ModuleDecl {
    ModuleDecl { ident: ident("temp", 1), has_body: true, items }
}

fn marked_record(name: &str, tag: u64, body: AttrBody) -> Record {
    Record {
        ident: ident(name, tag),
        attrs: vec![MetaAttr { path: ident("transitive", tag + 1), body, loc: loc(tag + 1) }],
        generics: Generics { params: Vec::new(), where_tokens: Vec::new() },
    }
}

const CALL_SITE: u64 = 99;

#[test]
fn zero_arguments_fail() {
    let f = value_from_type_impl(&Vec::new(), Ok(braced_module(vec![])), loc(CALL_SITE))
        .expect_err("no argument must fail");
    assert_eq!(f.error.kind, DiagKind::ArgumentSyntaxError);
    assert_eq!(f.error.loc, loc(CALL_SITE));
    assert_eq!(f.warnings.len(), 0);
    assert_eq!(
        f.error.message(),
        "Failed parsing arguments: expected exactly one identifier"
    );
}

#[test]
fn two_arguments_fail() {
    let args = vec![word("Foo", 2), Tok::Mark { ch: ',', loc: loc(3) }, word("Bar", 4)];
    let items = vec![Item::Record(plain_record("X", 10))];
    let f = value_from_type_impl(&args, Ok(braced_module(items)), loc(CALL_SITE))
        .expect_err("two arguments must fail");
    assert_eq!(f.error.kind, DiagKind::ArgumentSyntaxError);
}

#[test]
fn non_identifier_argument_fails() {
    let args = vec![Tok::Quoted { text: "Foo".to_string(), loc: loc(2) }];
    let items = vec![Item::Record(plain_record("X", 10))];
    let f = value_from_type_impl(&args, Ok(braced_module(items)), loc(CALL_SITE))
        .expect_err("a literal argument must fail");
    assert_eq!(f.error.kind, DiagKind::ArgumentSyntaxError);
}

#[test]
fn module_without_records_fails() {
    let items = vec![Item::Other { loc: loc(50) }, Item::Other { loc: loc(51) }];
    let f = value_from_type_impl(&vec![word("Foo", 2)], Ok(braced_module(items)), loc(CALL_SITE))
        .expect_err("no records must fail");
    assert_eq!(f.error.kind, DiagKind::NoRecordsError);
    assert_eq!(f.error.loc, loc(1));
    assert_eq!(f.error.message(), "You have no structs defined in your module");
}

#[test]
fn module_without_body_fails_before_synthesis() {
    let forward = ModuleDecl { ident: ident("temp", 1), has_body: false, items: Vec::new() };
    let f = value_from_type_impl(&vec![word("Foo", 2)], Ok(forward), loc(CALL_SITE))
        .expect_err("a bodyless module must fail");
    assert_eq!(f.error.kind, DiagKind::EmptyModuleError);
    assert_eq!(f.error.loc, loc(1));
    assert_eq!(f.error.message(), "The module has no body to insert items into");
}

#[test]
fn bare_marker_is_a_syntax_error() {
    let items = vec![Item::Record(marked_record("X", 10, AttrBody::Bare))];
    let f = value_from_type_impl(&vec![word("Foo", 2)], Ok(braced_module(items)), loc(CALL_SITE))
        .expect_err("a bare marker must fail");
    assert_eq!(f.error.kind, DiagKind::AttributeSyntaxError);
    assert_eq!(f.error.loc, loc(11));
}

#[test]
fn empty_marker_payload_is_a_syntax_error() {
    let body = AttrBody::Delimited { delim: Delim::Paren, tokens: Vec::new(), loc: loc(60) };
    let items = vec![Item::Record(marked_record("X", 10, body))];
    let f = value_from_type_impl(&vec![word("Foo", 2)], Ok(braced_module(items)), loc(CALL_SITE))
        .expect_err("an empty payload must fail");
    assert_eq!(f.error.kind, DiagKind::AttributeSyntaxError);
}

#[test]
fn bracketed_marker_payload_is_a_syntax_error() {
    let body = AttrBody::Delimited {
        delim: Delim::Bracket,
        tokens: vec![word("a", 61)],
        loc: loc(60),
    };
    let items = vec![Item::Record(marked_record("X", 10, body))];
    let f = value_from_type_impl(&vec![word("Foo", 2)], Ok(braced_module(items)), loc(CALL_SITE))
        .expect_err("a bracketed payload must fail");
    assert_eq!(f.error.kind, DiagKind::AttributeSyntaxError);
}

#[test]
fn assigned_marker_is_a_syntax_error() {
    let body = AttrBody::Assigned {
        value: Tok::Quoted { text: "\"x\"".to_string(), loc: loc(61) },
    };
    let items = vec![Item::Record(marked_record("X", 10, body))];
    let f = value_from_type_impl(&vec![word("Foo", 2)], Ok(braced_module(items)), loc(CALL_SITE))
        .expect_err("an assigned marker must fail");
    assert_eq!(f.error.kind, DiagKind::AttributeSyntaxError);
    assert_eq!(
        f.error.message(),
        "Failed interpreting a transitive marker: expected a non-empty parenthesized payload"
    );
}

#[test]
fn malformed_marker_payload_is_a_build_error() {
    // The payload must open with a path word; a bare punctuation token
    // cannot re-materialize as an attribute.
    let body = AttrBody::Delimited {
        delim: Delim::Paren,
        tokens: vec![Tok::Mark { ch: '#', loc: loc(61) }],
        loc: loc(60),
    };
    let items = vec![Item::Record(marked_record("X", 10, body))];
    let f = value_from_type_impl(&vec![word("Foo", 2)], Ok(braced_module(items)), loc(CALL_SITE))
        .expect_err("a malformed payload must fail");
    assert_eq!(f.error.kind, DiagKind::AttributeBuildError);
    assert_eq!(f.error.loc, loc(60));
    assert_eq!(
        f.error.message(),
        "A transitive payload does not form an attribute: the payload does not form an attribute"
    );
}

#[test]
fn first_malformed_marker_anchors_the_error() {
    // Two markers on one record: the first is fine, the second malformed —
    // then a later record with a malformed first marker never gets a say.
    let good = MetaAttr {
        path: ident("transitive", 30),
        body: AttrBody::Delimited {
            delim: Delim::Paren,
            tokens: vec![word("a", 31)],
            loc: loc(32),
        },
        loc: loc(30),
    };
    let bad = MetaAttr { path: ident("transitive", 33), body: AttrBody::Bare, loc: loc(33) };
    let first = Record {
        ident: ident("X", 10),
        attrs: vec![good, bad],
        generics: Generics { params: Vec::new(), where_tokens: Vec::new() },
    };
    let second = marked_record("Y", 40, AttrBody::Bare);
    let items = vec![Item::Record(first), Item::Record(second)];
    let f = value_from_type_impl(&vec![word("Foo", 2)], Ok(braced_module(items)), loc(CALL_SITE))
        .expect_err("a malformed marker must fail");
    assert_eq!(f.error.kind, DiagKind::AttributeSyntaxError);
    assert_eq!(f.error.loc, loc(33));
}

#[test]
fn union_name_that_is_no_identifier_fails() {
    let args = vec![word("123abc", 2)];
    let items = vec![Item::Record(plain_record("X", 10))];
    let f = value_from_type_impl(&args, Ok(braced_module(items)), loc(CALL_SITE))
        .expect_err("a numeric union name must fail");
    assert_eq!(f.error.kind, DiagKind::EnumBuildError);
    assert_eq!(f.error.loc, loc(2));
    assert_eq!(f.error.detail, "123abc");
    assert_eq!(f.error.message(), "Issue generating the enum: 123abc");
}

#[test]
fn duplicate_record_names_fail_the_union() {
    let items = vec![
        Item::Record(plain_record("X", 10)),
        Item::Record(plain_record("X", 11)),
    ];
    let f = value_from_type_impl(&vec![word("Foo", 2)], Ok(braced_module(items)), loc(CALL_SITE))
        .expect_err("colliding variant names must fail");
    assert_eq!(f.error.kind, DiagKind::EnumBuildError);
    assert_eq!(f.error.severity, Severity::Error);
}

#[test]
fn record_name_that_is_no_identifier_fails() {
    let items = vec![Item::Record(plain_record("not an ident", 10))];
    let f = value_from_type_impl(&vec![word("Foo", 2)], Ok(braced_module(items)), loc(CALL_SITE))
        .expect_err("a bad record name must fail");
    assert_eq!(f.error.kind, DiagKind::EnumBuildError);
}
