//! The general laws of the generator, stated over the same spec functions
//! its contracts use, and proved once and for all.

use vstd::prelude::*;

use crate::args::spec_parse_args;
use crate::attr::{spec_failure, spec_pipeline_ok, spec_success};
use crate::common::{
    spec_bad_marker_diag, spec_is_marker, spec_marker_failure, spec_marker_good, spec_record_relay_ok,
    spec_records, spec_records_relay_failure, spec_relay, spec_relayed_of,
};
use crate::diag::{DiagKind, DiagV, FailureV};
use crate::model::{IdentV, Loc, MetaAttrV, ModuleDeclV, RecordV, TokV};

verus! {

/// One variant per record: on any module, the synthesized union carries
/// exactly as many variants as the module has records, one per record in
/// source declaration order, each named after its record.
pub proof fn lemma_one_variant_per_record(m: ModuleDeclV, name: IdentV, call_site: Loc)
    ensures
        ({
            let records = spec_records(m.items);
            let out = spec_success(m, name, call_site);
            &&& out.items.len() == m.items.len() + 2
            &&& out.items[m.items.len() as int] is Union
            &&& out.items[m.items.len() as int]->Union_0.variants.len() == records.len()
            &&& forall|i: int|
                0 <= i < records.len()
                    ==> (#[trigger] out.items[m.items.len() as int]->Union_0.variants[i]).ident.text
                    == records[i].ident.text
            &&& forall|i: int|
                0 <= i < records.len()
                    ==> (#[trigger] out.items[m.items.len() as int]->Union_0.variants[i]).attrs
                    == spec_relay(records[i].attrs)
        }),
{
    let records = spec_records(m.items);
    let out = spec_success(m, name, call_site);
    assert(out.items[m.items.len() as int] is Union);
    assert(forall|i: int|
        0 <= i < records.len()
            ==> (#[trigger] out.items[m.items.len() as int]->Union_0.variants[i]).ident.text
            == records[i].ident.text);
    assert(forall|i: int|
        0 <= i < records.len()
            ==> (#[trigger] out.items[m.items.len() as int]->Union_0.variants[i]).attrs
            == spec_relay(records[i].attrs));
}

/// Conversion matches variant: on any module, the synthesized conversion
/// implementations pair up with the union's variants index by index — the
/// implementation for record i targets the union type by name, returns the
/// value of variant i, and is generic over exactly record i's parameters
/// with its where-clause carried verbatim.
pub proof fn lemma_conversion_matches_variant(m: ModuleDeclV, name: IdentV, call_site: Loc)
    ensures
        ({
            let records = spec_records(m.items);
            let out = spec_success(m, name, call_site);
            let union_item = out.items[m.items.len() as int]->Union_0;
            let gen = out.items[m.items.len() as int + 1]->Impls_0;
            &&& out.items[m.items.len() as int + 1] is Impls
            &&& gen.impls.len() == records.len()
            &&& gen.enum_ident == union_item.name
            &&& forall|i: int|
                0 <= i < records.len() ==> {
                    &&& (#[trigger] gen.impls[i]).record_ident == records[i].ident
                    &&& gen.impls[i].enum_ident == union_item.name
                    &&& gen.impls[i].variant_ident == union_item.variants[i].ident
                    &&& gen.impls[i].generics == records[i].generics
                }
        }),
{
    let records = spec_records(m.items);
    let out = spec_success(m, name, call_site);
    let union_item = out.items[m.items.len() as int]->Union_0;
    let gen = out.items[m.items.len() as int + 1]->Impls_0;
    assert(forall|i: int|
        0 <= i < records.len() ==> {
            &&& (#[trigger] gen.impls[i]).record_ident == records[i].ident
            &&& gen.impls[i].enum_ident == union_item.name
            &&& gen.impls[i].variant_ident == union_item.variants[i].ident
            &&& gen.impls[i].generics == records[i].generics
        });
}

/// A module with zero eligible records never succeeds, and — once the
/// arguments decode and the module itself parsed with a body — the failure
/// is the no-records diagnostic, whatever else the module holds.
pub proof fn lemma_no_records_always_fails(
    args: Seq<TokV>,
    input: Result<ModuleDeclV, Seq<char>>,
    call_site: Loc,
    f: FailureV,
)
    requires
        spec_parse_args(args) is Some,
        input is Ok,
        input->Ok_0.has_body,
        spec_records(input->Ok_0.items).len() == 0,
        spec_failure(args, input, call_site, f),
    ensures
        !spec_pipeline_ok(args, input, call_site),
        f.error.kind == DiagKind::NoRecordsError,
{
}

/// An invocation with zero arguments, or with more than one, never
/// succeeds: the failure is the argument-syntax diagnostic.
pub proof fn lemma_bad_arity_always_fails(
    args: Seq<TokV>,
    input: Result<ModuleDeclV, Seq<char>>,
    call_site: Loc,
    f: FailureV,
)
    requires
        args.len() == 0 || args.len() > 1,
        spec_failure(args, input, call_site, f),
    ensures
        !spec_pipeline_ok(args, input, call_site),
        f.error.kind == DiagKind::ArgumentSyntaxError,
{
}

/// The relay marker predicate, as a value.
pub open spec fn marker_pred() -> spec_fn(MetaAttrV) -> bool {
    |a: MetaAttrV| spec_is_marker(a)
}

/// The relayed payload of a marker, as a value.
pub open spec fn relayed_fn() -> spec_fn(MetaAttrV) -> crate::model::RelayedAttrV {
    |a: MetaAttrV| spec_relayed_of(a)
}

/// Relay order: what a record's markers relay is exactly the marker
/// payloads, one per marker, in marker order — a record with two markers
/// yields their two payloads in that order, a record with none yields none.
pub proof fn lemma_relay_keeps_marker_order(attrs: Seq<MetaAttrV>)
    ensures
        spec_relay(attrs) == attrs.filter(marker_pred()).map_values(relayed_fn()),
    decreases attrs.len(),
{
    reveal(Seq::filter);
    if attrs.len() == 0 {
        assert(spec_relay(attrs) =~= attrs.filter(marker_pred()).map_values(relayed_fn()));
    } else {
        lemma_relay_keeps_marker_order(attrs.drop_last());
        let sub = attrs.drop_last().filter(marker_pred());
        if spec_is_marker(attrs.last()) {
            assert(marker_pred()(attrs.last()));
            assert(attrs.filter(marker_pred()) == sub.push(attrs.last()));
            assert(sub.push(attrs.last()).map_values(relayed_fn()) =~= sub.map_values(
                relayed_fn(),
            ).push(spec_relayed_of(attrs.last())));
        } else {
            assert(!marker_pred()(attrs.last()));
            assert(attrs.filter(marker_pred()) == sub);
        }
    }
}

/// A record carrying no markers relays nothing.
pub proof fn lemma_no_markers_no_attrs(attrs: Seq<MetaAttrV>)
    requires
        forall|j: int| 0 <= j < attrs.len() ==> !spec_is_marker(#[trigger] attrs[j]),
    ensures
        spec_relay(attrs).len() == 0,
    decreases attrs.len(),
{
    if attrs.len() > 0 {
        lemma_no_markers_no_attrs(attrs.drop_last());
    }
}

/// The first-malformed-marker diagnostic is unique: any two diagnostics the
/// relay-failure relation admits for one attribute list are equal.
pub proof fn lemma_marker_failure_unique(attrs: Seq<MetaAttrV>, d1: DiagV, d2: DiagV)
    requires
        spec_marker_failure(attrs, d1),
        spec_marker_failure(attrs, d2),
    ensures
        d1 == d2,
{
    let j1 = choose|j: int|
        {
            &&& 0 <= j < attrs.len()
            &&& spec_is_marker(#[trigger] attrs[j])
            &&& !spec_marker_good(attrs[j])
            &&& (forall|k: int|
                0 <= k < j ==> (spec_is_marker(#[trigger] attrs[k]) ==> spec_marker_good(attrs[k])))
            &&& d1 == spec_bad_marker_diag(attrs[j])
        };
    let j2 = choose|j: int|
        {
            &&& 0 <= j < attrs.len()
            &&& spec_is_marker(#[trigger] attrs[j])
            &&& !spec_marker_good(attrs[j])
            &&& (forall|k: int|
                0 <= k < j ==> (spec_is_marker(#[trigger] attrs[k]) ==> spec_marker_good(attrs[k])))
            &&& d2 == spec_bad_marker_diag(attrs[j])
        };
    assert(j1 == j2);
}

/// The first-failing-record diagnostic is unique as well.
pub proof fn lemma_records_relay_failure_unique(rs: Seq<RecordV>, d1: DiagV, d2: DiagV)
    requires
        spec_records_relay_failure(rs, d1),
        spec_records_relay_failure(rs, d2),
    ensures
        d1 == d2,
{
    let i1 = choose|i: int|
        {
            &&& 0 <= i < rs.len()
            &&& !spec_record_relay_ok(#[trigger] rs[i])
            &&& (forall|k: int| 0 <= k < i ==> spec_record_relay_ok(#[trigger] rs[k]))
            &&& spec_marker_failure(rs[i].attrs, d1)
        };
    let i2 = choose|i: int|
        {
            &&& 0 <= i < rs.len()
            &&& !spec_record_relay_ok(#[trigger] rs[i])
            &&& (forall|k: int| 0 <= k < i ==> spec_record_relay_ok(#[trigger] rs[k]))
            &&& spec_marker_failure(rs[i].attrs, d2)
        };
    assert(i1 == i2);
    lemma_marker_failure_unique(rs[i1].attrs, d1, d2);
}

/// Determinism: the generator's outcome is a function of its input. On
/// success the spliced module is literally a spec function of the input —
/// equal inputs give equal generated names by construction — and on failure
/// any two outcomes the failure relation admits carry the same fatal
/// diagnostic and the same warnings.
pub proof fn lemma_generation_deterministic(
    args: Seq<TokV>,
    input: Result<ModuleDeclV, Seq<char>>,
    call_site: Loc,
    f1: FailureV,
    f2: FailureV,
)
    requires
        spec_failure(args, input, call_site, f1),
        spec_failure(args, input, call_site, f2),
    ensures
        f1.error == f2.error,
        f1.warnings =~= f2.warnings,
{
    if spec_parse_args(args) is None {
    } else if input is Err {
        assert(f1.warnings =~= f2.warnings);
    } else if !input->Ok_0.has_body {
    } else if spec_records(input->Ok_0.items).len() == 0 {
    } else if !(forall|k: int|
        0 <= k < spec_records(input->Ok_0.items).len() ==> spec_record_relay_ok(
            #[trigger] spec_records(input->Ok_0.items)[k],
        )) {
        lemma_records_relay_failure_unique(spec_records(input->Ok_0.items), f1.error, f2.error);
    } else {
    }
}

} // verus!
