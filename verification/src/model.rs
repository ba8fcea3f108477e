//! The declaration model: the plain-value syntax that the generator reads and
//! writes. Identifiers carry a resolution tag (`Loc`) standing for the host
//! toolchain's source-location/hygiene mark; token sequences that the
//! generator only carries verbatim keep their rendered text unread.

use vstd::prelude::*;

verus! {

/// A source-location / resolution tag handed out by the host toolchain.
/// The generator never interprets it; it only copies it onto diagnostics
/// (anchoring) and re-resolves generated identifiers to the invocation site.
#[derive(Clone, Copy, Debug, PartialEq, Eq, Structural)]
pub struct Loc {
    pub tag: u64,
}

/// The delimiter of a token group.
#[derive(Clone, Copy, Debug, PartialEq, Eq, Structural)]
pub enum Delim {
    Paren,
    Bracket,
    Brace,
}

/// The kind of a generic parameter of a record.
#[derive(Clone, Copy, Debug, PartialEq, Eq, Structural)]
pub enum ParamKind {
    LifetimeParam,
    TypeParam,
    ConstParam,
}

/// An identifier with its resolution tag.
#[derive(Debug)]
pub struct Ident {
    pub text: String,
    pub loc: Loc,
}

/// Mathematical image of an [`Ident`].
pub struct IdentV {
    pub text: Seq<char>,
    pub loc: Loc,
}

impl View for Ident {
    type V = IdentV;

    open spec fn view(&self) -> IdentV {
        IdentV { text: self.text@, loc: self.loc }
    }
}

impl Ident {
    /// An exact copy; `String::clone` keeps the value, so the copy is equal.
    pub fn duplicate(&self) -> (r: Ident)
        ensures
            r@ == self@,
    {
        Ident { text: self.text.clone(), loc: self.loc }
    }
}

/// One token as the host tokenizer hands it over. A `Grouped` token keeps
/// the text between its delimiters as the host rendered it: the generator
/// never reads inside a group, it only carries groups verbatim.
#[derive(Debug)]
pub enum Tok {
    Word(Ident),
    Mark { ch: char, loc: Loc },
    Quoted { text: String, loc: Loc },
    Grouped { delim: Delim, body: String, loc: Loc },
}

/// Mathematical image of a [`Tok`].
pub enum TokV {
    Word(IdentV),
    Mark { ch: char, loc: Loc },
    Quoted { text: Seq<char>, loc: Loc },
    Grouped { delim: Delim, body: Seq<char>, loc: Loc },
}

impl View for Tok {
    type V = TokV;

    open spec fn view(&self) -> TokV {
        match self {
            Tok::Word(id) => TokV::Word(id@),
            Tok::Mark { ch, loc } => TokV::Mark { ch: *ch, loc: *loc },
            Tok::Quoted { text, loc } => TokV::Quoted { text: text@, loc: *loc },
            Tok::Grouped { delim, body, loc } => TokV::Grouped {
                delim: *delim,
                body: body@,
                loc: *loc,
            },
        }
    }
}

/// The image of a token sequence.
pub open spec fn toks_view(s: Seq<Tok>) -> Seq<TokV> {
    s.map_values(|t: Tok| t@)
}

impl Tok {
    /// An exact copy of one token.
    pub fn duplicate(&self) -> (r: Tok)
        ensures
            r@ == self@,
    {
        match self {
            Tok::Word(id) => Tok::Word(id.duplicate()),
            Tok::Mark { ch, loc } => Tok::Mark { ch: *ch, loc: *loc },
            Tok::Quoted { text, loc } => Tok::Quoted { text: text.clone(), loc: *loc },
            Tok::Grouped { delim, body, loc } => Tok::Grouped {
                delim: *delim,
                body: body.clone(),
                loc: *loc,
            },
        }
    }
}

/// An exact copy of a token sequence.
pub fn duplicate_toks(v: &Vec<Tok>) -> (r: Vec<Tok>)
    ensures
        toks_view(r@) == toks_view(v@),
{
    let mut r: Vec<Tok> = Vec::new();
    let mut i: usize = 0;
    while i < v.len()
        invariant
            i <= v.len(),
            r@.len() == i,
            forall|j: int| 0 <= j < i ==> r@[j]@ == v@[j]@,
        decreases v.len() - i,
    {
        r.push(v[i].duplicate());
        i = i + 1;
    }
    proof {
        assert(toks_view(r@) =~= toks_view(v@));
    }
    r
}

/// What follows an attribute's path: nothing, a delimited token group, or an
/// assigned single value token.
#[derive(Debug)]
pub enum AttrBody {
    Bare,
    Delimited { delim: Delim, tokens: Vec<Tok>, loc: Loc },
    Assigned { value: Tok },
}

/// Mathematical image of an [`AttrBody`].
pub enum AttrBodyV {
    Bare,
    Delimited { delim: Delim, tokens: Seq<TokV>, loc: Loc },
    Assigned { value: TokV },
}

impl View for AttrBody {
    type V = AttrBodyV;

    open spec fn view(&self) -> AttrBodyV {
        match self {
            AttrBody::Bare => AttrBodyV::Bare,
            AttrBody::Delimited { delim, tokens, loc } => AttrBodyV::Delimited {
                delim: *delim,
                tokens: toks_view(tokens@),
                loc: *loc,
            },
            AttrBody::Assigned { value } => AttrBodyV::Assigned { value: value@ },
        }
    }
}

/// One attribute of a record, as the host parser saw it: a path (kept as its
/// rendered text, a single identifier for single-segment paths) and its body.
#[derive(Debug)]
pub struct MetaAttr {
    pub path: Ident,
    pub body: AttrBody,
    pub loc: Loc,
}

/// Mathematical image of a [`MetaAttr`].
pub struct MetaAttrV {
    pub path: IdentV,
    pub body: AttrBodyV,
    pub loc: Loc,
}

impl View for MetaAttr {
    type V = MetaAttrV;

    open spec fn view(&self) -> MetaAttrV {
        MetaAttrV { path: self.path@, body: self.body@, loc: self.loc }
    }
}

/// The image of an attribute list.
pub open spec fn attrs_view(s: Seq<MetaAttr>) -> Seq<MetaAttrV> {
    s.map_values(|a: MetaAttr| a@)
}

/// One generic parameter of a record: its kind, its identifier, and whatever
/// follows the identifier (bounds, defaults) carried verbatim.
#[derive(Debug)]
pub struct GenParam {
    pub kind: ParamKind,
    pub ident: Ident,
    pub rest: Vec<Tok>,
}

/// Mathematical image of a [`GenParam`].
pub struct GenParamV {
    pub kind: ParamKind,
    pub ident: IdentV,
    pub rest: Seq<TokV>,
}

impl View for GenParam {
    type V = GenParamV;

    open spec fn view(&self) -> GenParamV {
        GenParamV { kind: self.kind, ident: self.ident@, rest: toks_view(self.rest@) }
    }
}

/// The image of a generic-parameter list.
pub open spec fn params_view(s: Seq<GenParam>) -> Seq<GenParamV> {
    s.map_values(|p: GenParam| p@)
}

/// A record's generic-parameter list and where-clause (the latter verbatim).
#[derive(Debug)]
pub struct Generics {
    pub params: Vec<GenParam>,
    pub where_tokens: Vec<Tok>,
}

/// Mathematical image of [`Generics`].
pub struct GenericsV {
    pub params: Seq<GenParamV>,
    pub where_tokens: Seq<TokV>,
}

impl View for Generics {
    type V = GenericsV;

    open spec fn view(&self) -> GenericsV {
        GenericsV {
            params: params_view(self.params@),
            where_tokens: toks_view(self.where_tokens@),
        }
    }
}

/// A discovered record (struct-like) declaration: what the generator reads of
/// it. Its fields and visibility stay with the host syntax tree untouched.
#[derive(Debug)]
pub struct Record {
    pub ident: Ident,
    pub attrs: Vec<MetaAttr>,
    pub generics: Generics,
}

/// Mathematical image of a [`Record`].
pub struct RecordV {
    pub ident: IdentV,
    pub attrs: Seq<MetaAttrV>,
    pub generics: GenericsV,
}

impl View for Record {
    type V = RecordV;

    open spec fn view(&self) -> RecordV {
        RecordV { ident: self.ident@, attrs: attrs_view(self.attrs@), generics: self.generics@ }
    }
}

/// The image of a record list.
pub open spec fn records_view(s: Seq<Record>) -> Seq<RecordV> {
    s.map_values(|r: Record| r@)
}

/// An attribute relayed from a record's marker onto a generated variant:
/// the marker's payload tokens, plus the payload's own location tag.
#[derive(Debug)]
pub struct RelayedAttr {
    pub tokens: Vec<Tok>,
    pub loc: Loc,
}

/// Mathematical image of a [`RelayedAttr`].
pub struct RelayedAttrV {
    pub tokens: Seq<TokV>,
    pub loc: Loc,
}

impl View for RelayedAttr {
    type V = RelayedAttrV;

    open spec fn view(&self) -> RelayedAttrV {
        RelayedAttrV { tokens: toks_view(self.tokens@), loc: self.loc }
    }
}

/// The image of a relayed-attribute list.
pub open spec fn relayed_view(s: Seq<RelayedAttr>) -> Seq<RelayedAttrV> {
    s.map_values(|a: RelayedAttr| a@)
}

/// One variant of the synthesized union: its identifier (the record's, with
/// its resolution re-anchored at the invocation site) and its relayed
/// attributes, in relay order.
#[derive(Debug)]
pub struct Variant {
    pub ident: Ident,
    pub attrs: Vec<RelayedAttr>,
}

/// Mathematical image of a [`Variant`].
pub struct VariantV {
    pub ident: IdentV,
    pub attrs: Seq<RelayedAttrV>,
}

impl View for Variant {
    type V = VariantV;

    open spec fn view(&self) -> VariantV {
        VariantV { ident: self.ident@, attrs: relayed_view(self.attrs@) }
    }
}

/// The image of a variant list.
pub open spec fn variants_view(s: Seq<Variant>) -> Seq<VariantV> {
    s.map_values(|v: Variant| v@)
}

/// The synthesized tagged-union declaration: a fixed derive set, the target
/// name, and one variant per record in declaration order.
#[derive(Debug)]
pub struct EnumDecl {
    pub derives: Vec<Ident>,
    pub name: Ident,
    pub variants: Vec<Variant>,
}

/// Mathematical image of an [`EnumDecl`].
pub struct EnumDeclV {
    pub derives: Seq<IdentV>,
    pub name: IdentV,
    pub variants: Seq<VariantV>,
}

/// The image of an identifier list.
pub open spec fn idents_view(s: Seq<Ident>) -> Seq<IdentV> {
    s.map_values(|i: Ident| i@)
}

impl View for EnumDecl {
    type V = EnumDeclV;

    open spec fn view(&self) -> EnumDeclV {
        EnumDeclV {
            derives: idents_view(self.derives@),
            name: self.name@,
            variants: variants_view(self.variants@),
        }
    }
}

/// One type argument position of a conversion implementation: the record's
/// generic parameter named back, with its kind (so a lifetime renders as a
/// lifetime).
#[derive(Debug)]
pub struct TyArg {
    pub kind: ParamKind,
    pub ident: Ident,
}

/// Mathematical image of a [`TyArg`].
pub struct TyArgV {
    pub kind: ParamKind,
    pub ident: IdentV,
}

impl View for TyArg {
    type V = TyArgV;

    open spec fn view(&self) -> TyArgV {
        TyArgV { kind: self.kind, ident: self.ident@ }
    }
}

/// The image of a type-argument list.
pub open spec fn tyargs_view(s: Seq<TyArg>) -> Seq<TyArgV> {
    s.map_values(|t: TyArg| t@)
}

/// One synthesized conversion implementation: for the record named
/// `record_ident`, instantiated at `ty_args`, the external capability's
/// method returns the union value `enum_ident::variant_ident`. The record's
/// generic parameters and where-clause are carried verbatim.
#[derive(Debug)]
pub struct ConvImpl {
    pub generics: Generics,
    pub ty_args: Vec<TyArg>,
    pub record_ident: Ident,
    pub enum_ident: Ident,
    pub variant_ident: Ident,
}

/// Mathematical image of a [`ConvImpl`].
pub struct ConvImplV {
    pub generics: GenericsV,
    pub ty_args: Seq<TyArgV>,
    pub record_ident: IdentV,
    pub enum_ident: IdentV,
    pub variant_ident: IdentV,
}

impl View for ConvImpl {
    type V = ConvImplV;

    open spec fn view(&self) -> ConvImplV {
        ConvImplV {
            generics: self.generics@,
            ty_args: tyargs_view(self.ty_args@),
            record_ident: self.record_ident@,
            enum_ident: self.enum_ident@,
            variant_ident: self.variant_ident@,
        }
    }
}

/// The image of a conversion-implementation list.
pub open spec fn impls_view(s: Seq<ConvImpl>) -> Seq<ConvImplV> {
    s.map_values(|c: ConvImpl| c@)
}

/// The doc-hidden sub-module that holds every conversion implementation. It
/// is named deterministically from the union identifier and carries a
/// back-reference to the union type it serves.
#[derive(Debug)]
pub struct GenModule {
    pub name: Ident,
    pub enum_ident: Ident,
    pub impls: Vec<ConvImpl>,
}

/// Mathematical image of a [`GenModule`].
pub struct GenModuleV {
    pub name: IdentV,
    pub enum_ident: IdentV,
    pub impls: Seq<ConvImplV>,
}

impl View for GenModule {
    type V = GenModuleV;

    open spec fn view(&self) -> GenModuleV {
        GenModuleV {
            name: self.name@,
            enum_ident: self.enum_ident@,
            impls: impls_view(self.impls@),
        }
    }
}

/// One direct child of the annotated module. Declarations the generator never
/// reads stay `Other`, identified by their location tag; the host adapter
/// keeps their syntax and renders them back unchanged.
#[derive(Debug)]
pub enum Item {
    Record(Record),
    Union(EnumDecl),
    Impls(GenModule),
    Other { loc: Loc },
}

/// Mathematical image of an [`Item`].
pub enum ItemV {
    Record(RecordV),
    Union(EnumDeclV),
    Impls(GenModuleV),
    Other { loc: Loc },
}

impl View for Item {
    type V = ItemV;

    open spec fn view(&self) -> ItemV {
        match self {
            Item::Record(r) => ItemV::Record(r@),
            Item::Union(e) => ItemV::Union(e@),
            Item::Impls(g) => ItemV::Impls(g@),
            Item::Other { loc } => ItemV::Other { loc: *loc },
        }
    }
}

/// The image of an item list.
pub open spec fn items_view(s: Seq<Item>) -> Seq<ItemV> {
    s.map_values(|i: Item| i@)
}

/// The annotated module: its identifier, whether it has a declaration-list
/// body (a braced module), and its direct children in declaration order. A
/// forward declaration (`mod m;`) has no body and an empty item list.
#[derive(Debug)]
pub struct ModuleDecl {
    pub ident: Ident,
    pub has_body: bool,
    pub items: Vec<Item>,
}

/// Mathematical image of a [`ModuleDecl`].
pub struct ModuleDeclV {
    pub ident: IdentV,
    pub has_body: bool,
    pub items: Seq<ItemV>,
}

impl View for ModuleDecl {
    type V = ModuleDeclV;

    open spec fn view(&self) -> ModuleDeclV {
        ModuleDeclV { ident: self.ident@, has_body: self.has_body, items: items_view(self.items@) }
    }
}

impl GenParam {
    /// An exact copy of one generic parameter.
    pub fn duplicate(&self) -> (r: GenParam)
        ensures
            r@ == self@,
    {
        GenParam {
            kind: self.kind,
            ident: self.ident.duplicate(),
            rest: duplicate_toks(&self.rest),
        }
    }
}

impl Generics {
    /// An exact copy of a record's generics.
    pub fn duplicate(&self) -> (r: Generics)
        ensures
            r@ == self@,
    {
        let mut params: Vec<GenParam> = Vec::new();
        let mut i: usize = 0;
        while i < self.params.len()
            invariant
                i <= self.params.len(),
                params@.len() == i,
                forall|j: int| 0 <= j < i ==> params@[j]@ == self.params@[j]@,
            decreases self.params.len() - i,
        {
            params.push(self.params[i].duplicate());
            i = i + 1;
        }
        proof {
            assert(params_view(params@) =~= params_view(self.params@));
        }
        Generics { params, where_tokens: duplicate_toks(&self.where_tokens) }
    }
}

impl AttrBody {
    /// An exact copy of an attribute body.
    pub fn duplicate(&self) -> (r: AttrBody)
        ensures
            r@ == self@,
    {
        match self {
            AttrBody::Bare => AttrBody::Bare,
            AttrBody::Delimited { delim, tokens, loc } => AttrBody::Delimited {
                delim: *delim,
                tokens: duplicate_toks(tokens),
                loc: *loc,
            },
            AttrBody::Assigned { value } => AttrBody::Assigned { value: value.duplicate() },
        }
    }
}

impl MetaAttr {
    /// An exact copy of one attribute.
    pub fn duplicate(&self) -> (r: MetaAttr)
        ensures
            r@ == self@,
    {
        MetaAttr { path: self.path.duplicate(), body: self.body.duplicate(), loc: self.loc }
    }
}

impl Record {
    /// An exact copy of one record declaration.
    pub fn duplicate(&self) -> (r: Record)
        ensures
            r@ == self@,
    {
        let mut attrs: Vec<MetaAttr> = Vec::new();
        let mut i: usize = 0;
        while i < self.attrs.len()
            invariant
                i <= self.attrs.len(),
                attrs@.len() == i,
                forall|j: int| 0 <= j < i ==> attrs@[j]@ == self.attrs@[j]@,
            decreases self.attrs.len() - i,
        {
            attrs.push(self.attrs[i].duplicate());
            i = i + 1;
        }
        proof {
            assert(attrs_view(attrs@) =~= attrs_view(self.attrs@));
        }
        Record { ident: self.ident.duplicate(), attrs, generics: self.generics.duplicate() }
    }
}

} // verus!
