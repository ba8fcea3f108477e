//! Location-tagged diagnostics. Every fallible step of the pipeline returns
//! one of these instead of an unlabeled failure; the host adapter is the sole
//! place that reports them through the toolchain's diagnostic channel.

use vstd::prelude::*;

use crate::model::Loc;

verus! {

/// The failure taxonomy of the generator.
#[derive(Clone, Copy, Debug, PartialEq, Eq, Structural)]
pub enum DiagKind {
    /// Malformed or missing macro argument.
    ArgumentSyntaxError,
    /// The annotated item is not a valid declaration-list-bearing module.
    ModuleSyntaxError,
    /// Zero eligible records found; nothing to mirror.
    NoRecordsError,
    /// A `transitive` marker's payload could not be interpreted.
    AttributeSyntaxError,
    /// A `transitive` marker's payload could not be re-materialized as an
    /// attribute.
    AttributeBuildError,
    /// The synthesized tagged-union would not form a valid declaration
    /// (a variant name collision, or a name that is no identifier).
    EnumBuildError,
    /// A synthesized conversion implementation would not form a valid
    /// declaration (a record name that is no identifier).
    ImplBuildError,
    /// The target module has no body to splice into.
    EmptyModuleError,
}

/// How a diagnostic is surfaced.
#[derive(Clone, Copy, Debug, PartialEq, Eq, Structural)]
pub enum Severity {
    Warning,
    Error,
}

/// One diagnostic: its taxonomy kind, severity, the most specific location
/// available as its anchor, and detail text (an upstream parser's own words,
/// or the offending name) spliced into the rendered message.
#[derive(Debug)]
pub struct Diag {
    pub kind: DiagKind,
    pub severity: Severity,
    pub loc: Loc,
    pub detail: String,
}

/// Mathematical image of a [`Diag`].
pub struct DiagV {
    pub kind: DiagKind,
    pub severity: Severity,
    pub loc: Loc,
    pub detail: Seq<char>,
}

impl View for Diag {
    type V = DiagV;

    open spec fn view(&self) -> DiagV {
        DiagV {
            kind: self.kind,
            severity: self.severity,
            loc: self.loc,
            detail: self.detail@,
        }
    }
}

/// The fixed text that opens the rendered message of a diagnostic.
pub open spec fn spec_prefix(kind: DiagKind, severity: Severity) -> Seq<char> {
    match kind {
        DiagKind::ArgumentSyntaxError => "Failed parsing arguments: "@,
        DiagKind::ModuleSyntaxError => if severity is Warning {
            "You have syntax errors: "@
        } else {
            "This macro can ONLY be applied to valid modules"@
        },
        DiagKind::NoRecordsError => "You have no structs defined in your module"@,
        DiagKind::AttributeSyntaxError => "Failed interpreting a transitive marker: "@,
        DiagKind::AttributeBuildError => "A transitive payload does not form an attribute: "@,
        DiagKind::EnumBuildError => "Issue generating the enum: "@,
        DiagKind::ImplBuildError => "Issue building the conversion implementation: "@,
        DiagKind::EmptyModuleError => "The module has no body to insert items into"@,
    }
}

impl Diag {
    /// The rendered, human-readable message: the fixed text for the kind,
    /// followed by the diagnostic's detail text.
    pub fn message(&self) -> (r: String)
        ensures
            r@ == spec_prefix(self.kind, self.severity) + self.detail@,
    {
        let p: String = match (self.kind, self.severity) {
            (DiagKind::ArgumentSyntaxError, _) => String::from_str("Failed parsing arguments: "),
            (DiagKind::ModuleSyntaxError, Severity::Warning) => String::from_str(
                "You have syntax errors: ",
            ),
            (DiagKind::ModuleSyntaxError, Severity::Error) => String::from_str(
                "This macro can ONLY be applied to valid modules",
            ),
            (DiagKind::NoRecordsError, _) => String::from_str(
                "You have no structs defined in your module",
            ),
            (DiagKind::AttributeSyntaxError, _) => String::from_str(
                "Failed interpreting a transitive marker: ",
            ),
            (DiagKind::AttributeBuildError, _) => String::from_str(
                "A transitive payload does not form an attribute: ",
            ),
            (DiagKind::EnumBuildError, _) => String::from_str("Issue generating the enum: "),
            (DiagKind::ImplBuildError, _) => String::from_str(
                "Issue building the conversion implementation: ",
            ),
            (DiagKind::EmptyModuleError, _) => String::from_str(
                "The module has no body to insert items into",
            ),
        };
        p.concat(self.detail.as_str())
    }
}

/// What the orchestrator hands back on failure: the fatal diagnostic, plus
/// any non-fatal context diagnostics (the raw parser error preserved as a
/// warning) that must be surfaced before it.
#[derive(Debug)]
pub struct Failure {
    pub warnings: Vec<Diag>,
    pub error: Diag,
}

/// The image of a diagnostic list.
pub open spec fn diags_view(s: Seq<Diag>) -> Seq<DiagV> {
    s.map_values(|d: Diag| d@)
}

/// Mathematical image of a [`Failure`].
pub struct FailureV {
    pub warnings: Seq<DiagV>,
    pub error: DiagV,
}

impl View for Failure {
    type V = FailureV;

    open spec fn view(&self) -> FailureV {
        FailureV { warnings: diags_view(self.warnings@), error: self.error@ }
    }
}

} // verus!
