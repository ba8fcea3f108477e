//! Record discovery, the attribute relay, and the module splicer: the steps
//! the synthesis pipeline shares.
//!
//! Discovery walks the direct children of the annotated module and keeps
//! every record, in declaration order. The relay reads each record's
//! `transitive(...)` markers and rehydrates their payloads as attributes for
//! the generated variant, in marker order. The splicer appends one item to
//! the module's declaration list, and is the single place that refuses a
//! module without a body.

use vstd::prelude::*;

use crate::diag::{Diag, DiagKind, DiagV, Severity};
use crate::model::{
    records_view, relayed_view, toks_view, variants_view, AttrBody, Delim, Ident,
    IdentV, Item, ItemV, Loc, MetaAttr, MetaAttrV, ModuleDecl, Record, RecordV, RelayedAttr,
    RelayedAttrV, Tok, TokV, Variant, VariantV,
};

verus! {

/// The records among a module's items, in declaration order.
pub open spec fn spec_records(items: Seq<ItemV>) -> Seq<RecordV>
    decreases items.len(),
{
    if items.len() == 0 {
        Seq::empty()
    } else {
        let rest = spec_records(items.drop_last());
        if items.last() is Record {
            rest.push(items.last()->Record_0)
        } else {
            rest
        }
    }
}

/// Collect every record (struct-like) declaration standing directly in the
/// module, preserving declaration order. Nested modules, unions, and other
/// items are skipped and not recursed into.
pub fn filter_structs(module_def: &ModuleDecl) -> (r: Vec<Record>)
    ensures
        records_view(r@) == spec_records(module_def@.items),
{
    let mut out: Vec<Record> = Vec::new();
    let mut i: usize = 0;
    while i < module_def.items.len()
        invariant
            i <= module_def.items.len(),
            records_view(out@) =~= spec_records(
                module_def@.items.subrange(0, i as int),
            ),
        decreases module_def.items.len() - i,
    {
        let ghost pre = module_def@.items.subrange(0, i as int);
        let ghost cur = module_def@.items.subrange(0, i as int + 1);
        proof {
            assert(cur.drop_last() =~= pre);
            assert(cur.last() == module_def@.items[i as int]);
        }
        match &module_def.items[i] {
            Item::Record(rec) => {
                out.push(rec.duplicate());
            },
            _ => {},
        }
        i = i + 1;
        proof {
            assert(records_view(out@) =~= spec_records(cur));
        }
    }
    proof {
        assert(module_def@.items.subrange(0, module_def@.items.len() as int) =~= module_def@.items);
    }
    out
}

/// Append one synthesized item to the module's declaration list. The
/// primitive knows nothing of what kind of item it appends; it only refuses
/// a module without a declaration-list body.
pub fn push_into_module(module_def: &mut ModuleDecl, item: Item) -> (r: Result<(), Diag>)
    ensures
        old(module_def)@.has_body ==> r is Ok
            && final(module_def)@.items == old(module_def)@.items.push(item@)
            && final(module_def)@.ident == old(module_def)@.ident
            && final(module_def)@.has_body,
        !old(module_def)@.has_body ==> r is Err && final(module_def)@ == old(module_def)@
            && r->Err_0@
            == (DiagV {
            kind: DiagKind::EmptyModuleError,
            severity: Severity::Error,
            loc: old(module_def)@.ident.loc,
            detail: Seq::<char>::empty(),
        }),
{
    if module_def.has_body {
        module_def.items.push(item);
        proof {
            assert(final(module_def)@.items =~= old(module_def)@.items.push(item@));
        }
        Ok(())
    } else {
        Err(
            Diag {
                kind: DiagKind::EmptyModuleError,
                severity: Severity::Error,
                loc: module_def.ident.loc,
                detail: String::new(),
            },
        )
    }
}

/// Whether an attribute is the relay marker: its path is the literal
/// `transitive`.
pub open spec fn spec_is_marker(a: MetaAttrV) -> bool {
    a.path.text == "transitive"@
}

/// Whether a marker's payload can be interpreted at all: the marker must
/// carry a non-empty parenthesized payload.
pub open spec fn spec_marker_interpretable(a: MetaAttrV) -> bool {
    &&& a.body is Delimited
    &&& a.body->Delimited_delim == Delim::Paren
    &&& a.body->Delimited_tokens.len() > 0
}

/// Whether payload tokens re-materialize as one well-formed attribute: a
/// path word, either alone, or followed by one delimited group, or assigned
/// one literal or word value.
pub open spec fn spec_valid_meta(toks: Seq<TokV>) -> bool {
    &&& toks.len() >= 1
    &&& toks[0] is Word
    &&& (toks.len() == 1 || (toks.len() == 2 && toks[1] is Grouped) || (toks.len() == 3
        && toks[1] is Mark && toks[1]->Mark_ch == '=' && (toks[2] is Quoted || toks[2] is Word)))
}

/// A marker that both interprets and re-materializes.
pub open spec fn spec_marker_good(a: MetaAttrV) -> bool {
    spec_marker_interpretable(a) && spec_valid_meta(a.body->Delimited_tokens)
}

/// The attribute relayed from a good marker: its payload tokens, tagged with
/// the payload's own location.
pub open spec fn spec_relayed_of(a: MetaAttrV) -> RelayedAttrV {
    RelayedAttrV { tokens: a.body->Delimited_tokens, loc: a.body->Delimited_loc }
}

/// The relayed attributes of a record: one per marker, in marker order.
pub open spec fn spec_relay(attrs: Seq<MetaAttrV>) -> Seq<RelayedAttrV>
    decreases attrs.len(),
{
    if attrs.len() == 0 {
        Seq::empty()
    } else {
        let rest = spec_relay(attrs.drop_last());
        if spec_is_marker(attrs.last()) {
            rest.push(spec_relayed_of(attrs.last()))
        } else {
            rest
        }
    }
}

/// Every marker on the record relays cleanly.
pub open spec fn spec_record_relay_ok(r: RecordV) -> bool {
    forall|j: int|
        0 <= j < r.attrs.len() ==> (spec_is_marker(#[trigger] r.attrs[j]) ==> spec_marker_good(
            r.attrs[j],
        ))
}

/// The diagnostic for a malformed marker: an interpretation failure is
/// anchored at the marker itself, a re-materialization failure at the
/// payload's own location.
pub open spec fn spec_bad_marker_diag(a: MetaAttrV) -> DiagV {
    if !spec_marker_interpretable(a) {
        DiagV {
            kind: DiagKind::AttributeSyntaxError,
            severity: Severity::Error,
            loc: a.loc,
            detail: "expected a non-empty parenthesized payload"@,
        }
    } else {
        DiagV {
            kind: DiagKind::AttributeBuildError,
            severity: Severity::Error,
            loc: a.body->Delimited_loc,
            detail: "the payload does not form an attribute"@,
        }
    }
}

/// A relay failure on one attribute list: the diagnostic belongs to the
/// first malformed marker.
pub open spec fn spec_marker_failure(attrs: Seq<MetaAttrV>, d: DiagV) -> bool {
    exists|j: int|
        {
            &&& 0 <= j < attrs.len()
            &&& spec_is_marker(#[trigger] attrs[j])
            &&& !spec_marker_good(attrs[j])
            &&& (forall|k: int|
                0 <= k < j ==> (spec_is_marker(#[trigger] attrs[k]) ==> spec_marker_good(attrs[k])))
            &&& d == spec_bad_marker_diag(attrs[j])
        }
}

/// Whether an attribute is the `transitive` relay marker.
fn is_marker_attr(a: &MetaAttr) -> (b: bool)
    ensures
        b == spec_is_marker(a@),
{
    let marker = String::from_str("transitive");
    a.path.text == marker
}

/// Whether payload tokens form one well-formed attribute.
fn is_valid_meta(tokens: &Vec<Tok>) -> (b: bool)
    ensures
        b == spec_valid_meta(toks_view(tokens@)),
{
    if tokens.len() == 0 {
        return false;
    }
    let head_is_word = match &tokens[0] {
        Tok::Word(_) => true,
        _ => false,
    };
    if !head_is_word {
        return false;
    }
    if tokens.len() == 1 {
        return true;
    }
    if tokens.len() == 2 {
        return match &tokens[1] {
            Tok::Grouped { .. } => true,
            _ => false,
        };
    }
    if tokens.len() == 3 {
        let second_assigns = match &tokens[1] {
            Tok::Mark { ch, .. } => *ch == '=',
            _ => false,
        };
        let third_is_value = match &tokens[2] {
            Tok::Quoted { .. } => true,
            Tok::Word(_) => true,
            _ => false,
        };
        return second_assigns && third_is_value;
    }
    false
}

/// Scan a record for `transitive(...)` markers and rehydrate each payload as
/// an attribute for the generated variant, in marker order. Fails on the
/// first malformed marker found.
pub fn relay_attributes(record: &Record) -> (r: Result<Vec<RelayedAttr>, Diag>)
    ensures
        match r {
            Ok(rel) => {
                &&& spec_record_relay_ok(record@)
                &&& relayed_view(rel@) == spec_relay(record@.attrs)
            },
            Err(d) => {
                &&& !spec_record_relay_ok(record@)
                &&& spec_marker_failure(record@.attrs, d@)
            },
        },
{
    let mut out: Vec<RelayedAttr> = Vec::new();
    let mut i: usize = 0;
    while i < record.attrs.len()
        invariant
            i <= record.attrs.len(),
            forall|k: int|
                0 <= k < i ==> (spec_is_marker(#[trigger] record@.attrs[k])
                    ==> spec_marker_good(record@.attrs[k])),
            relayed_view(out@) =~= spec_relay(record@.attrs.subrange(0, i as int)),
        decreases record.attrs.len() - i,
    {
        let ghost pre = record@.attrs.subrange(0, i as int);
        let ghost cur = record@.attrs.subrange(0, i as int + 1);
        proof {
            assert(cur.drop_last() =~= pre);
            assert(cur.last() == record@.attrs[i as int]);
        }
        let a = &record.attrs[i];
        if is_marker_attr(a) {
            match &a.body {
                AttrBody::Delimited { delim, tokens, loc } => {
                    let is_paren = match delim {
                        Delim::Paren => true,
                        _ => false,
                    };
                    if !is_paren || tokens.len() == 0 {
                        return Err(
                            Diag {
                                kind: DiagKind::AttributeSyntaxError,
                                severity: Severity::Error,
                                loc: a.loc,
                                detail: String::from_str(
                                    "expected a non-empty parenthesized payload",
                                ),
                            },
                        );
                    }
                    if !is_valid_meta(tokens) {
                        return Err(
                            Diag {
                                kind: DiagKind::AttributeBuildError,
                                severity: Severity::Error,
                                loc: *loc,
                                detail: String::from_str("the payload does not form an attribute"),
                            },
                        );
                    }
                    out.push(
                        RelayedAttr { tokens: crate::model::duplicate_toks(tokens), loc: *loc },
                    );
                },
                _ => {
                    return Err(
                        Diag {
                            kind: DiagKind::AttributeSyntaxError,
                            severity: Severity::Error,
                            loc: a.loc,
                            detail: String::from_str("expected a non-empty parenthesized payload"),
                        },
                    );
                },
            }
        }
        i = i + 1;
        proof {
            assert(relayed_view(out@) =~= spec_relay(cur));
        }
    }
    proof {
        assert(record@.attrs.subrange(0, record@.attrs.len() as int) =~= record@.attrs);
    }
    Ok(out)
}

/// The variant descriptor a record gives rise to: the record's own name,
/// re-resolved to the invocation site, carrying the record's relayed
/// attributes in marker order.
pub open spec fn spec_variant_of(r: RecordV, call_site: Loc) -> VariantV {
    VariantV {
        ident: IdentV { text: r.ident.text, loc: call_site },
        attrs: spec_relay(r.attrs),
    }
}

/// The variant descriptors of a record list, in the same order.
pub open spec fn spec_variants(rs: Seq<RecordV>, call_site: Loc) -> Seq<VariantV> {
    rs.map_values(|r: RecordV| spec_variant_of(r, call_site))
}

/// A relay failure on one record list: the diagnostic belongs to the first
/// record with a malformed marker.
pub open spec fn spec_records_relay_failure(rs: Seq<RecordV>, d: DiagV) -> bool {
    exists|i: int|
        {
            &&& 0 <= i < rs.len()
            &&& !spec_record_relay_ok(#[trigger] rs[i])
            &&& (forall|k: int| 0 <= k < i ==> spec_record_relay_ok(#[trigger] rs[k]))
            &&& spec_marker_failure(rs[i].attrs, d)
        }
}

/// Build one variant descriptor per record, in declaration order: relay each
/// record's markers and re-anchor the record's name at the invocation site.
pub fn build_invariants(records: &Vec<Record>, call_site: Loc) -> (r: Result<Vec<Variant>, Diag>)
    ensures
        match r {
            Ok(vs) => {
                &&& (forall|k: int|
                    0 <= k < records@.len() ==> spec_record_relay_ok(
                        #[trigger] records_view(records@)[k],
                    ))
                &&& variants_view(vs@) == spec_variants(records_view(records@), call_site)
            },
            Err(d) => spec_records_relay_failure(records_view(records@), d@),
        },
{
    let mut out: Vec<Variant> = Vec::new();
    let mut i: usize = 0;
    while i < records.len()
        invariant
            i <= records.len(),
            out@.len() == i,
            forall|k: int|
                0 <= k < i ==> spec_record_relay_ok(#[trigger] records_view(records@)[k]),
            forall|k: int|
                0 <= k < i ==> out@[k]@ == spec_variant_of(records_view(records@)[k], call_site),
        decreases records.len() - i,
    {
        let rec = &records[i];
        match relay_attributes(rec) {
            Ok(rel) => {
                out.push(
                    Variant {
                        ident: Ident { text: rec.ident.text.clone(), loc: call_site },
                        attrs: rel,
                    },
                );
            },
            Err(d) => {
                proof {
                    assert(records_view(records@)[i as int] == rec@);
                    assert(spec_records_relay_failure(records_view(records@), d@));
                }
                return Err(d);
            },
        }
        i = i + 1;
    }
    proof {
        assert(variants_view(out@) =~= spec_variants(records_view(records@), call_site));
    }
    Ok(out)
}

} // verus!
