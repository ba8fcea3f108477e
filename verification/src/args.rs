//! The argument parser: decodes the macro invocation's argument tokens into
//! the structured request. Exactly one identifier — the name of the union
//! type to generate — is required; zero tokens or anything more is a
//! user-facing argument-syntax failure.

use vstd::prelude::*;

use crate::diag::{Diag, DiagKind, Severity};
use crate::model::{idents_view, toks_view, Ident, IdentV, Loc, Tok, TokV};

verus! {

/// What the argument tokens decode to: the single identifier, if they hold
/// exactly one and nothing else.
pub open spec fn spec_parse_args(toks: Seq<TokV>) -> Option<IdentV> {
    if toks.len() == 1 && toks[0] is Word {
        Some(toks[0]->Word_0)
    } else {
        None
    }
}

/// The parsed macro arguments: the knowledge base the synthesis steps draw
/// the target union name from.
#[derive(Debug)]
pub struct AttrArgs {
    pub args: Vec<Ident>,
}

impl View for AttrArgs {
    type V = Seq<IdentV>;

    open spec fn view(&self) -> Seq<IdentV> {
        idents_view(self.args@)
    }
}

impl AttrArgs {
    /// The request is well-formed when exactly one identifier was supplied.
    pub open spec fn wf(&self) -> bool {
        self@.len() == 1
    }

    /// Decode the invocation's argument tokens. Accepts exactly one
    /// identifier; an empty token list, several arguments, or any non-word
    /// token is rejected with an argument-syntax diagnostic anchored at the
    /// invocation site.
    pub fn parse(tokens: &Vec<Tok>, call_site: Loc) -> (r: Result<AttrArgs, Diag>)
        ensures
            match r {
                Ok(a) => {
                    &&& spec_parse_args(toks_view(tokens@)) == Some(a@[0])
                    &&& a.wf()
                },
                Err(d) => {
                    &&& spec_parse_args(toks_view(tokens@)) is None
                    &&& d@.kind == DiagKind::ArgumentSyntaxError
                    &&& d@.severity == Severity::Error
                    &&& d@.loc == call_site
                    &&& d@.detail == "expected exactly one identifier"@
                },
            },
    {
        if tokens.len() == 1 {
            match &tokens[0] {
                Tok::Word(id) => {
                    let mut args: Vec<Ident> = Vec::new();
                    args.push(id.duplicate());
                    let r = AttrArgs { args };
                    proof {
                        assert(r@ =~= seq![tokens@[0]@->Word_0]);
                    }
                    return Ok(r);
                },
                _ => {},
            }
        }
        Err(
            Diag {
                kind: DiagKind::ArgumentSyntaxError,
                severity: Severity::Error,
                loc: call_site,
                detail: String::from_str("expected exactly one identifier"),
            },
        )
    }

    /// The name chosen by the user for the generated union type.
    pub fn enum_name(&self) -> (r: Ident)
        requires
            self@.len() >= 1,
        ensures
            r@ == self@[0],
    {
        self.args[0].duplicate()
    }
}

} // verus!
