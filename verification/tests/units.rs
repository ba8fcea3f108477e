//! The pipeline's pieces, exercised one at a time.

use value_from_type::args::AttrArgs;
use value_from_type::attr::{build_enum, internal_build_impls, is_valid_ident};
use value_from_type::common::{filter_structs, push_into_module, relay_attributes};
use value_from_type::diag::DiagKind;
use value_from_type::model::{
    AttrBody, Delim, GenParam, Generics, Ident, Item, Loc, MetaAttr, ModuleDecl, ParamKind, Record,
    Tok, Variant,
};

fn loc(tag: u64) -> Loc {
    Loc { tag }
}

fn ident(text: &str, tag: u64) -> Ident {
    Ident { text: text.to_string(), loc: loc(tag) }
}

fn word(text: &str, tag: u64) -> Tok {
    Tok::Word(ident(text, tag))
}

fn plain_record(name: &str, tag: u64) -> Record {
    Record {
        ident: ident(name, tag),
        attrs: Vec::new(),
        generics: Generics { params: Vec::new(), where_tokens: Vec::new() },
    }
}

#[test]
fn parse_accepts_one_identifier() {
    let args = AttrArgs::parse(&vec![word("Shape", 2)], loc(9)).expect("one identifier parses");
    let name = args.enum_name();
    assert_eq!(name.text, "Shape");
    assert_eq!(name.loc, loc(2));
}

#[test]
fn parse_rejects_empty_and_extra_tokens() {
    assert!(AttrArgs::parse(&Vec::new(), loc(9)).is_err());
    let extra = vec![word("A", 2), Tok::Mark { ch: ',', loc: loc(3) }, word("B", 4)];
    let d = AttrArgs::parse(&extra, loc(9)).expect_err("two identifiers are too many");
    assert_eq!(d.kind, DiagKind::ArgumentSyntaxError);
    assert_eq!(d.loc, loc(9));
    assert_eq!(d.detail, "expected exactly one identifier");
}

#[test]
fn filter_structs_keeps_records_in_order() {
    let m = ModuleDecl {
        ident: ident("m", 1),
        has_body: true,
        items: vec![
            Item::Other { loc: loc(5) },
            Item::Record(plain_record("B", 10)),
            Item::Other { loc: loc(6) },
            Item::Record(plain_record("A", 11)),
        ],
    };
    let records = filter_structs(&m);
    assert_eq!(records.len(), 2);
    assert_eq!(records[0].ident.text, "B");
    assert_eq!(records[1].ident.text, "A");
}

#[test]
fn push_into_module_appends_or_refuses() {
    let mut braced = ModuleDecl { ident: ident("m", 1), has_body: true, items: Vec::new() };
    push_into_module(&mut braced, Item::Other { loc: loc(7) }).expect("a braced module accepts");
    assert_eq!(braced.items.len(), 1);

    let mut forward = ModuleDecl { ident: ident("m", 3), has_body: false, items: Vec::new() };
    let d = push_into_module(&mut forward, Item::Other { loc: loc(7) })
        .expect_err("a forward declaration refuses");
    assert_eq!(d.kind, DiagKind::EmptyModuleError);
    assert_eq!(d.loc, loc(3));
    assert_eq!(forward.items.len(), 0);
}

#[test]
fn relay_accepts_the_three_payload_shapes() {
    let path_only = AttrBody::Delimited {
        delim: Delim::Paren,
        tokens: vec![word("hidden", 20)],
        loc: loc(21),
    };
    let path_group = AttrBody::Delimited {
        delim: Delim::Paren,
        tokens: vec![
            word("derive", 22),
            Tok::Grouped { delim: Delim::Paren, body: "Debug".to_string(), loc: loc(23) },
        ],
        loc: loc(24),
    };
    let path_value = AttrBody::Delimited {
        delim: Delim::Paren,
        tokens: vec![
            word("doc", 25),
            Tok::Mark { ch: '=', loc: loc(26) },
            Tok::Quoted { text: "\"docs\"".to_string(), loc: loc(27) },
        ],
        loc: loc(28),
    };
    let rec = Record {
        ident: ident("X", 10),
        attrs: vec![
            MetaAttr { path: ident("transitive", 30), body: path_only, loc: loc(30) },
            MetaAttr { path: ident("transitive", 31), body: path_group, loc: loc(31) },
            MetaAttr { path: ident("transitive", 32), body: path_value, loc: loc(32) },
        ],
        generics: Generics { params: Vec::new(), where_tokens: Vec::new() },
    };
    let relayed = relay_attributes(&rec).expect("all three shapes relay");
    assert_eq!(relayed.len(), 3);
    assert_eq!(relayed[0].loc, loc(21));
    assert_eq!(relayed[1].loc, loc(24));
    assert_eq!(relayed[2].loc, loc(28));
    assert!(matches!(&relayed[1].tokens[1], Tok::Grouped { body, .. } if body == "Debug"));
}

#[test]
fn build_enum_uses_the_fixed_derive_set() {
    let variants = vec![
        Variant { ident: ident("X", 10), attrs: Vec::new() },
        Variant { ident: ident("Y", 11), attrs: Vec::new() },
    ];
    let e = build_enum(ident("Shape", 2), variants, loc(99)).expect("a clean union builds");
    assert_eq!(e.derives.len(), 3);
    assert_eq!(e.derives[0].text, "Debug");
    assert_eq!(e.derives[1].text, "Clone");
    assert_eq!(e.derives[2].text, "PartialEq");
    assert_eq!(e.name.text, "Shape");
    assert_eq!(e.name.loc, loc(99));
}

#[test]
fn build_enum_rejects_duplicate_variants() {
    let variants = vec![
        Variant { ident: ident("X", 10), attrs: Vec::new() },
        Variant { ident: ident("X", 11), attrs: Vec::new() },
    ];
    let d = build_enum(ident("Shape", 2), variants, loc(99)).expect_err("duplicates refuse");
    assert_eq!(d.kind, DiagKind::EnumBuildError);
    assert_eq!(d.loc, loc(2));
}

#[test]
fn conversion_impl_reports_bad_record_names() {
    let rec = plain_record("", 10);
    let variant = Variant { ident: ident("X", 11), attrs: Vec::new() };
    let d = internal_build_impls(&rec, &variant, &ident("Shape", 2))
        .expect_err("an empty record name refuses");
    assert_eq!(d.kind, DiagKind::ImplBuildError);
    assert_eq!(d.loc, loc(10));
    assert_eq!(
        d.message(),
        "Issue building the conversion implementation: "
    );
}

#[test]
fn conversion_impl_names_each_generic_parameter() {
    let generics = Generics {
        params: vec![
            GenParam { kind: ParamKind::LifetimeParam, ident: ident("a", 20), rest: Vec::new() },
            GenParam {
                kind: ParamKind::TypeParam,
                ident: ident("T", 21),
                rest: vec![Tok::Mark { ch: ':', loc: loc(22) }, word("Clone", 23)],
            },
        ],
        where_tokens: Vec::new(),
    };
    let rec = Record { ident: ident("Pair", 10), attrs: Vec::new(), generics };
    let variant = Variant { ident: ident("Pair", 11), attrs: Vec::new() };
    let conv = internal_build_impls(&rec, &variant, &ident("Shape", 2)).expect("builds");
    assert_eq!(conv.ty_args.len(), 2);
    assert!(matches!(conv.ty_args[0].kind, ParamKind::LifetimeParam));
    assert_eq!(conv.ty_args[0].ident.text, "a");
    assert!(matches!(conv.ty_args[1].kind, ParamKind::TypeParam));
    assert_eq!(conv.ty_args[1].ident.text, "T");
    assert_eq!(conv.generics.params[1].rest.len(), 2);
}

#[test]
fn identifier_validity_matches_the_language() {
    assert!(is_valid_ident("Shape"));
    assert!(is_valid_ident("_x9"));
    assert!(is_valid_ident("snake_case"));
    assert!(!is_valid_ident(""));
    assert!(!is_valid_ident("9lives"));
    assert!(!is_valid_ident("has space"));
    assert!(!is_valid_ident("dash-ed"));
    assert!(!is_valid_ident("no+plus"));
}
