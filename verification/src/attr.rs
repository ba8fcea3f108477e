//! The synthesis pipeline: union synthesizer, conversion synthesizer, and the
//! orchestrating entry point that parses the invocation, discovers the
//! records, relays their markers, and splices every synthesized item back
//! into the module — deterministically, failing fast with one
//! location-tagged diagnostic on the first step that goes wrong.
//!
//! Naming policy: the user-supplied union name and the record names are used
//! verbatim; only their resolution tag is re-anchored at the invocation site,
//! so later references resolve in the caller's scope. The derive set of the
//! synthesized union is fixed at {Debug, Clone, PartialEq}: relayed
//! attributes are arbitrary, and not every combination upholds the stronger
//! capabilities safely.

use vstd::prelude::*;

use crate::args::{spec_parse_args, AttrArgs};
use crate::common::{
    build_invariants, filter_structs, push_into_module, spec_record_relay_ok, spec_records,
    spec_records_relay_failure, spec_variants,
};
use crate::diag::{Diag, DiagKind, DiagV, Failure, FailureV, Severity};
use crate::model::{
    impls_view, records_view, toks_view, tyargs_view, variants_view, ConvImpl, ConvImplV, EnumDecl,
    EnumDeclV, GenModule, GenModuleV, Ident, IdentV, Item, ItemV, Loc, ModuleDecl, ModuleDeclV,
    Record, RecordV, TyArg, TyArgV, Variant, VariantV,
};

verus! {

/// Whether a character may stand in an identifier: a letter or underscore
/// anywhere, a digit anywhere but first.
pub open spec fn spec_ident_char(c: char, first: bool) -> bool {
    ||| ('a' as u32) <= (c as u32) && (c as u32) <= ('z' as u32)
    ||| ('A' as u32) <= (c as u32) && (c as u32) <= ('Z' as u32)
    ||| c == '_'
    ||| (!first && ('0' as u32) <= (c as u32) && (c as u32) <= ('9' as u32))
}

/// Whether text forms an identifier the host language accepts. A synthesized
/// declaration whose names fail this would not re-parse.
pub open spec fn spec_valid_ident(s: Seq<char>) -> bool {
    s.len() > 0 && forall|i: int| 0 <= i < s.len() ==> spec_ident_char(#[trigger] s[i], i == 0)
}

/// Whether text forms an identifier the host language accepts.
pub fn is_valid_ident(s: &str) -> (b: bool)
    ensures
        b == spec_valid_ident(s@),
{
    let n = s.unicode_len();
    if n == 0 {
        return false;
    }
    let mut i: usize = 0;
    while i < n
        invariant
            n == s@.len(),
            i <= n,
            forall|j: int| 0 <= j < i ==> spec_ident_char(#[trigger] s@[j], j == 0),
        decreases n - i,
    {
        let c = s.get_char(i);
        let v = c as u32;
        let good = (('a' as u32) <= v && v <= ('z' as u32)) || (('A' as u32) <= v && v <= ('Z'
            as u32)) || c == '_' || (i != 0 && ('0' as u32) <= v && v <= ('9' as u32));
        if !good {
            return false;
        }
        i = i + 1;
    }
    true
}

/// The fixed derive set of the synthesized union.
pub open spec fn spec_derives(call_site: Loc) -> Seq<IdentV> {
    seq![
        IdentV { text: "Debug"@, loc: call_site },
        IdentV { text: "Clone"@, loc: call_site },
        IdentV { text: "PartialEq"@, loc: call_site },
    ]
}

/// The union name as it stands in the synthesized declaration: the user's
/// text verbatim, re-resolved to the invocation site.
pub open spec fn spec_enum_ident(name: IdentV, call_site: Loc) -> IdentV {
    IdentV { text: name.text, loc: call_site }
}

/// Whether the synthesized union would re-parse: its name and every variant
/// name an identifier, and no two variants sharing a name.
pub open spec fn spec_enum_ok(name: IdentV, variants: Seq<VariantV>) -> bool {
    &&& spec_valid_ident(name.text)
    &&& forall|i: int|
        0 <= i < variants.len() ==> spec_valid_ident(#[trigger] variants[i].ident.text)
    &&& forall|i: int, j: int|
        0 <= i < j < variants.len() ==> (#[trigger] variants[i].ident.text)
            != (#[trigger] variants[j].ident.text)
}

/// The synthesized union declaration.
pub open spec fn spec_enum_decl(name: IdentV, variants: Seq<VariantV>, call_site: Loc) -> EnumDeclV {
    EnumDeclV {
        derives: spec_derives(call_site),
        name: spec_enum_ident(name, call_site),
        variants,
    }
}

/// The diagnostic for a union that would not re-parse, anchored at the
/// target identifier as the user wrote it.
pub open spec fn spec_enum_diag(name: IdentV) -> DiagV {
    DiagV {
        kind: DiagKind::EnumBuildError,
        severity: Severity::Error,
        loc: name.loc,
        detail: name.text,
    }
}

/// Build the tagged-union declaration: the fixed derive set, the target name
/// re-resolved to the invocation site, and the given variants in order.
/// Fails when the union would not form a valid declaration.
pub fn build_enum(name: Ident, variants: Vec<Variant>, call_site: Loc) -> (r: Result<
    EnumDecl,
    Diag,
>)
    ensures
        r is Ok <==> spec_enum_ok(name@, variants_view(variants@)),
        r is Ok ==> r->Ok_0@ == spec_enum_decl(name@, variants_view(variants@), call_site),
        r is Err ==> r->Err_0@ == spec_enum_diag(name@),
{
    if !is_valid_ident(name.text.as_str()) {
        return Err(
            Diag {
                kind: DiagKind::EnumBuildError,
                severity: Severity::Error,
                loc: name.loc,
                detail: name.text,
            },
        );
    }
    let ghost vs = variants_view(variants@);
    let mut i: usize = 0;
    while i < variants.len()
        invariant
            i <= variants.len(),
            vs == variants_view(variants@),
            vs.len() == variants@.len(),
            forall|k: int| 0 <= k < i ==> spec_valid_ident(#[trigger] vs[k].ident.text),
            forall|a: int, b: int|
                0 <= a < b < i ==> (#[trigger] vs[a].ident.text) != (#[trigger] vs[b].ident.text),
        decreases variants.len() - i,
    {
        if !is_valid_ident(variants[i].ident.text.as_str()) {
            proof {
                assert(vs[i as int] == variants@[i as int]@);
                assert(!spec_valid_ident(vs[i as int].ident.text));
            }
            return Err(
                Diag {
                    kind: DiagKind::EnumBuildError,
                    severity: Severity::Error,
                    loc: name.loc,
                    detail: name.text,
                },
            );
        }
        let mut j: usize = 0;
        while j < i
            invariant
                j <= i < variants@.len(),
                vs == variants_view(variants@),
                vs.len() == variants@.len(),
                forall|a: int|
                    0 <= a < j ==> (#[trigger] vs[a].ident.text) != vs[i as int].ident.text,
            decreases i - j,
        {
            if variants[j].ident.text == variants[i].ident.text {
                proof {
                    assert(vs[j as int] == variants@[j as int]@);
                    assert(vs[i as int] == variants@[i as int]@);
                    assert(vs[j as int].ident.text == vs[i as int].ident.text);
                }
                return Err(
                    Diag {
                        kind: DiagKind::EnumBuildError,
                        severity: Severity::Error,
                        loc: name.loc,
                        detail: name.text,
                    },
                );
            }
            j = j + 1;
        }
        i = i + 1;
    }
    let mut derives: Vec<Ident> = Vec::new();
    derives.push(Ident { text: String::from_str("Debug"), loc: call_site });
    derives.push(Ident { text: String::from_str("Clone"), loc: call_site });
    derives.push(Ident { text: String::from_str("PartialEq"), loc: call_site });
    let decl = EnumDecl {
        derives,
        name: Ident { text: name.text, loc: call_site },
        variants,
    };
    proof {
        assert(decl@.derives =~= spec_derives(call_site));
    }
    Ok(decl)
}

/// One type-argument position per generic parameter of the record.
pub open spec fn spec_ty_args(params: Seq<crate::model::GenParamV>) -> Seq<TyArgV> {
    params.map_values(|p: crate::model::GenParamV| TyArgV { kind: p.kind, ident: p.ident })
}

/// The conversion implementation synthesized for one (record, variant) pair:
/// generic over exactly the record's parameters, bounded by its where-clause
/// verbatim, returning the union value of the matched variant.
pub open spec fn spec_conv_impl(r: RecordV, v: VariantV, enum_ident: IdentV) -> ConvImplV {
    ConvImplV {
        generics: r.generics,
        ty_args: spec_ty_args(r.generics.params),
        record_ident: r.ident,
        enum_ident: enum_ident,
        variant_ident: v.ident,
    }
}

/// The diagnostic for a conversion implementation that would not re-parse,
/// anchored at the record's identifier.
pub open spec fn spec_impl_diag(r: RecordV) -> DiagV {
    DiagV {
        kind: DiagKind::ImplBuildError,
        severity: Severity::Error,
        loc: r.ident.loc,
        detail: r.ident.text,
    }
}

/// Build the conversion implementation for one (record, variant) pair.
/// Fails when the record's name is no identifier, so the implementation
/// header would not re-parse.
pub fn internal_build_impls(struct_item: &Record, variant: &Variant, enum_ident: &Ident) -> (r:
    Result<ConvImpl, Diag>)
    ensures
        r is Ok <==> spec_valid_ident(struct_item@.ident.text),
        r is Ok ==> r->Ok_0@ == spec_conv_impl(struct_item@, variant@, enum_ident@),
        r is Err ==> r->Err_0@ == spec_impl_diag(struct_item@),
{
    if !is_valid_ident(struct_item.ident.text.as_str()) {
        return Err(
            Diag {
                kind: DiagKind::ImplBuildError,
                severity: Severity::Error,
                loc: struct_item.ident.loc,
                detail: struct_item.ident.text.clone(),
            },
        );
    }
    let mut ty_args: Vec<TyArg> = Vec::new();
    let mut i: usize = 0;
    while i < struct_item.generics.params.len()
        invariant
            i <= struct_item.generics.params.len(),
            ty_args@.len() == i,
            forall|k: int|
                0 <= k < i ==> ty_args@[k]@ == (TyArgV {
                    kind: struct_item@.generics.params[k].kind,
                    ident: struct_item@.generics.params[k].ident,
                }),
        decreases struct_item.generics.params.len() - i,
    {
        let p = &struct_item.generics.params[i];
        ty_args.push(TyArg { kind: p.kind, ident: p.ident.duplicate() });
        i = i + 1;
    }
    let c = ConvImpl {
        generics: struct_item.generics.duplicate(),
        ty_args,
        record_ident: struct_item.ident.duplicate(),
        enum_ident: enum_ident.duplicate(),
        variant_ident: variant.ident.duplicate(),
    };
    proof {
        assert(tyargs_view(c.ty_args@) =~= spec_ty_args(struct_item@.generics.params));
    }
    Ok(c)
}

/// The conversion implementations of a record/variant pairing, in order.
pub open spec fn spec_conv_impls(rs: Seq<RecordV>, vs: Seq<VariantV>, enum_ident: IdentV) -> Seq<
    ConvImplV,
> {
    Seq::new(rs.len(), |i: int| spec_conv_impl(rs[i], vs[i], enum_ident))
}

/// A build failure on one record list: the diagnostic belongs to the first
/// record whose name is no identifier.
pub open spec fn spec_impls_failure(rs: Seq<RecordV>, d: DiagV) -> bool {
    exists|i: int|
        {
            &&& 0 <= i < rs.len()
            &&& !spec_valid_ident((#[trigger] rs[i]).ident.text)
            &&& (forall|k: int| 0 <= k < i ==> spec_valid_ident((#[trigger] rs[k]).ident.text))
            &&& d == spec_impl_diag(rs[i])
        }
}

/// Build one conversion implementation per (record, variant) pair, in the
/// shared order. The two streams come from the same discovery pass, so their
/// cardinalities agree; that equality is an internal invariant, not a user
/// input.
pub fn build_implementations(records: &Vec<Record>, variants: &Vec<Variant>, enum_ident: &Ident) -> (r:
    Result<Vec<ConvImpl>, Diag>)
    requires
        records@.len() == variants@.len(),
    ensures
        r is Ok <==> (forall|k: int|
            0 <= k < records@.len() ==> spec_valid_ident(
                (#[trigger] records_view(records@)[k]).ident.text,
            )),
        r is Ok ==> impls_view(r->Ok_0@) == spec_conv_impls(
            records_view(records@),
            variants_view(variants@),
            enum_ident@,
        ),
        r is Err ==> spec_impls_failure(records_view(records@), r->Err_0@),
{
    let mut out: Vec<ConvImpl> = Vec::new();
    let mut i: usize = 0;
    while i < records.len()
        invariant
            records@.len() == variants@.len(),
            i <= records.len(),
            out@.len() == i,
            forall|k: int|
                0 <= k < i ==> spec_valid_ident((#[trigger] records_view(records@)[k]).ident.text),
            forall|k: int|
                0 <= k < i ==> out@[k]@ == spec_conv_impl(
                    records_view(records@)[k],
                    variants_view(variants@)[k],
                    enum_ident@,
                ),
        decreases records.len() - i,
    {
        match internal_build_impls(&records[i], &variants[i], enum_ident) {
            Ok(c) => {
                out.push(c);
            },
            Err(d) => {
                proof {
                    assert(records_view(records@)[i as int] == records@[i as int]@);
                    assert(!spec_valid_ident(records_view(records@)[i as int].ident.text));
                    assert(spec_impls_failure(records_view(records@), d@));
                }
                return Err(d);
            },
        }
        i = i + 1;
    }
    proof {
        assert(impls_view(out@) =~= spec_conv_impls(
            records_view(records@),
            variants_view(variants@),
            enum_ident@,
        ));
    }
    Ok(out)
}

/// The deterministic name of the doc-hidden sub-module that holds the
/// conversion implementations.
pub open spec fn spec_mod_name(name: IdentV, call_site: Loc) -> IdentV {
    IdentV { text: "__from_type_impls_"@ + name.text, loc: call_site }
}

/// The sub-module holding every conversion implementation.
pub open spec fn spec_gen_module(
    name: IdentV,
    records: Seq<RecordV>,
    variants: Seq<VariantV>,
    call_site: Loc,
) -> GenModuleV {
    GenModuleV {
        name: spec_mod_name(name, call_site),
        enum_ident: spec_enum_ident(name, call_site),
        impls: spec_conv_impls(records, variants, spec_enum_ident(name, call_site)),
    }
}

/// The view of the host parser's outcome on the annotated item.
pub open spec fn spec_input_view(input: Result<ModuleDecl, String>) -> Result<
    ModuleDeclV,
    Seq<char>,
> {
    match input {
        Ok(m) => Ok(m@),
        Err(detail) => Err(detail@),
    }
}

/// When the whole pipeline succeeds: the arguments decode, the module parsed
/// and has a body, at least one record stands in it, every marker relays,
/// and the synthesized union re-parses.
pub open spec fn spec_pipeline_ok(
    args: Seq<crate::model::TokV>,
    input: Result<ModuleDeclV, Seq<char>>,
    call_site: Loc,
) -> bool {
    &&& spec_parse_args(args) is Some
    &&& input is Ok
    &&& input->Ok_0.has_body
    &&& spec_records(input->Ok_0.items).len() > 0
    &&& (forall|k: int|
        0 <= k < spec_records(input->Ok_0.items).len() ==> spec_record_relay_ok(
            #[trigger] spec_records(input->Ok_0.items)[k],
        ))
    &&& spec_enum_ok(
        spec_parse_args(args).unwrap(),
        spec_variants(spec_records(input->Ok_0.items), call_site),
    )
}

/// The fully spliced module a successful run hands back: the input module
/// with the synthesized union and the implementation sub-module appended, in
/// that order, everything else untouched.
pub open spec fn spec_success(m: ModuleDeclV, name: IdentV, call_site: Loc) -> ModuleDeclV {
    let records = spec_records(m.items);
    let variants = spec_variants(records, call_site);
    ModuleDeclV {
        ident: m.ident,
        has_body: m.has_body,
        items: m.items.push(ItemV::Union(spec_enum_decl(name, variants, call_site))).push(
            ItemV::Impls(spec_gen_module(name, records, variants, call_site)),
        ),
    }
}

/// What a failed run hands back: exactly one fatal diagnostic for the first
/// step that went wrong, with the raw parser error preserved as a warning
/// when the module itself did not parse.
pub open spec fn spec_failure(
    args: Seq<crate::model::TokV>,
    input: Result<ModuleDeclV, Seq<char>>,
    call_site: Loc,
    f: FailureV,
) -> bool {
    if spec_parse_args(args) is None {
        f.warnings.len() == 0 && f.error == (DiagV {
            kind: DiagKind::ArgumentSyntaxError,
            severity: Severity::Error,
            loc: call_site,
            detail: "expected exactly one identifier"@,
        })
    } else if input is Err {
        f.warnings.len() == 1 && f.warnings[0] == (DiagV {
            kind: DiagKind::ModuleSyntaxError,
            severity: Severity::Warning,
            loc: call_site,
            detail: input->Err_0,
        }) && f.error == (DiagV {
            kind: DiagKind::ModuleSyntaxError,
            severity: Severity::Error,
            loc: call_site,
            detail: Seq::<char>::empty(),
        })
    } else if !input->Ok_0.has_body {
        f.warnings.len() == 0 && f.error == (DiagV {
            kind: DiagKind::EmptyModuleError,
            severity: Severity::Error,
            loc: input->Ok_0.ident.loc,
            detail: Seq::<char>::empty(),
        })
    } else if spec_records(input->Ok_0.items).len() == 0 {
        f.warnings.len() == 0 && f.error == (DiagV {
            kind: DiagKind::NoRecordsError,
            severity: Severity::Error,
            loc: input->Ok_0.ident.loc,
            detail: Seq::<char>::empty(),
        })
    } else if !(forall|k: int|
        0 <= k < spec_records(input->Ok_0.items).len() ==> spec_record_relay_ok(
            #[trigger] spec_records(input->Ok_0.items)[k],
        )) {
        f.warnings.len() == 0 && spec_records_relay_failure(
            spec_records(input->Ok_0.items),
            f.error,
        )
    } else {
        f.warnings.len() == 0 && f.error == spec_enum_diag(spec_parse_args(args).unwrap())
    }
}

/// The orchestrating entry point. `args` is the invocation's argument token
/// stream, `input` the host parser's outcome on the annotated item, and
/// `call_site` the invocation site's resolution tag. On success it hands
/// back the fully spliced module; on any failure, the diagnostics to emit,
/// fail-fast with no partial output.
pub fn value_from_type_impl(
    args: &Vec<crate::model::Tok>,
    input: Result<ModuleDecl, String>,
    call_site: Loc,
) -> (r: Result<ModuleDecl, Failure>)
    ensures
        r is Ok <==> spec_pipeline_ok(toks_view(args@), spec_input_view(input), call_site),
        r is Ok ==> r->Ok_0@ == spec_success(
            spec_input_view(input)->Ok_0,
            spec_parse_args(toks_view(args@)).unwrap(),
            call_site,
        ),
        r is Err ==> spec_failure(
            toks_view(args@),
            spec_input_view(input),
            call_site,
            r->Err_0@,
        ),
{
    // Decode the macro arguments.
    let parsed = match AttrArgs::parse(args, call_site) {
        Ok(p) => p,
        Err(d) => {
            return Err(Failure { warnings: Vec::new(), error: d });
        },
    };
    // Take over the parsed module; surface the raw parser error as a warning
    // for context, then fail hard: the directive applies to valid modules
    // only.
    let mut module_def = match input {
        Ok(m) => m,
        Err(detail) => {
            let mut warnings: Vec<Diag> = Vec::new();
            warnings.push(
                Diag {
                    kind: DiagKind::ModuleSyntaxError,
                    severity: Severity::Warning,
                    loc: call_site,
                    detail,
                },
            );
            return Err(
                Failure {
                    warnings,
                    error: Diag {
                        kind: DiagKind::ModuleSyntaxError,
                        severity: Severity::Error,
                        loc: call_site,
                        detail: String::new(),
                    },
                },
            );
        },
    };
    // A module without a declaration-list body cannot take synthesized
    // items: refuse it before any synthesis is attempted.
    if !module_def.has_body {
        return Err(
            Failure {
                warnings: Vec::new(),
                error: Diag {
                    kind: DiagKind::EmptyModuleError,
                    severity: Severity::Error,
                    loc: module_def.ident.loc,
                    detail: String::new(),
                },
            },
        );
    }
    // Discover the records; a module with none is a user error, not a
    // silent no-op.
    let structs = filter_structs(&module_def);
    if structs.len() == 0 {
        return Err(
            Failure {
                warnings: Vec::new(),
                error: Diag {
                    kind: DiagKind::NoRecordsError,
                    severity: Severity::Error,
                    loc: module_def.ident.loc,
                    detail: String::new(),
                },
            },
        );
    }
    // Relay each record's markers into its variant descriptor.
    let enum_invariants = match build_invariants(&structs, call_site) {
        Ok(vs) => vs,
        Err(d) => {
            proof {
                let rs = records_view(structs@);
                let i = choose|i: int|
                    0 <= i < rs.len() && !spec_record_relay_ok(#[trigger] rs[i]);
                assert(!spec_record_relay_ok(spec_records(module_def@.items)[i]));
            }
            return Err(Failure { warnings: Vec::new(), error: d });
        },
    };
    // Synthesize the union declaration.
    let enum_name = parsed.enum_name();
    proof {
        assert(enum_name@ == spec_parse_args(toks_view(args@)).unwrap());
        assert(variants_view(enum_invariants@) == spec_variants(
            spec_records(module_def@.items),
            call_site,
        ));
    }
    let enum_item = match build_enum(enum_name, enum_invariants, call_site) {
        Ok(e) => e,
        Err(d) => {
            return Err(Failure { warnings: Vec::new(), error: d });
        },
    };
    proof {
        assert(variants_view(enum_item.variants@) == spec_variants(
            records_view(structs@),
            call_site,
        ));
        assert(variants_view(enum_item.variants@).len() == enum_item.variants@.len());
        assert(spec_variants(records_view(structs@), call_site).len() == records_view(
            structs@,
        ).len());
        assert(structs@.len() == enum_item.variants@.len());
    }
    // Synthesize one conversion implementation per record. The union already
    // re-parsed, and its variant names are the record names, so this step
    // cannot fail here.
    let impls = match build_implementations(&structs, &enum_item.variants, &enum_item.name) {
        Ok(cs) => cs,
        Err(_) => {
            proof {
                let rs = records_view(structs@);
                let vs = variants_view(enum_item.variants@);
                let i = choose|i: int|
                    0 <= i < rs.len() && !spec_valid_ident((#[trigger] rs[i]).ident.text);
                assert(vs[i] == spec_variants(rs, call_site)[i]);
                assert(vs[i].ident.text == rs[i].ident.text);
                assert(spec_valid_ident(vs[i].ident.text));
                assert(false);
            }
            unreached()
        },
    };
    // Name the doc-hidden sub-module deterministically from the union name.
    let mod_name = String::from_str("__from_type_impls_").concat(enum_item.name.text.as_str());
    let gen_module = GenModule {
        name: Ident { text: mod_name, loc: call_site },
        enum_ident: enum_item.name.duplicate(),
        impls,
    };
    let ghost m0 = module_def@;
    // Splice the union, then the implementation sub-module, through the one
    // append primitive. The body check above makes both appends succeed.
    match push_into_module(&mut module_def, Item::Union(enum_item)) {
        Ok(_) => {},
        Err(_) => {
            return unreached();
        },
    }
    match push_into_module(&mut module_def, Item::Impls(gen_module)) {
        Ok(_) => {},
        Err(_) => {
            return unreached();
        },
    }
    proof {
        let name = spec_parse_args(toks_view(args@)).unwrap();
        assert(module_def@.items =~= spec_success(m0, name, call_site).items);
        assert(module_def@ == spec_success(m0, name, call_site));
    }
    Ok(module_def)
}

} // verus!
