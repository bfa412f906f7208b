use vstd::prelude::*;
use vstd::string::*;

verus! {

/// Severity of a reported diagnostic. This pipeline only ever reports errors:
/// no warnings are modeled.
#[derive(Clone, Copy, Debug, PartialEq, Eq)]
pub enum Severity {
    Error,
}

/// The location in the consuming program at which the embedding operation was
/// invoked. Supplied by the host build tool; the pipeline only anchors
/// diagnostics to it.
#[derive(Debug, PartialEq, Eq)]
pub struct CallSite {
    pub file: String,
    pub line: u32,
    pub column: u32,
}

/// Mathematical model of a [`CallSite`].
pub struct CallSiteModel {
    pub file: Seq<char>,
    pub line: u32,
    pub column: u32,
}

impl View for CallSite {
    type V = CallSiteModel;

    open spec fn view(&self) -> CallSiteModel {
        CallSiteModel { file: self.file@, line: self.line, column: self.column }
    }
}

/// Where a diagnostic is anchored: at the invoking call site (load failures,
/// where the resolved path may not even exist and the call site is the most
/// meaningful place to point at), or within the erroring resource file (parse
/// and validation failures, whose messages carry the toolchain's own span
/// rendering).
#[derive(Debug, PartialEq, Eq)]
pub enum Anchor {
    AtCallSite(CallSite),
    InResourceFile,
}

/// Mathematical model of an [`Anchor`].
pub enum AnchorModel {
    AtCallSite(CallSiteModel),
    InResourceFile,
}

impl View for Anchor {
    type V = AnchorModel;

    open spec fn view(&self) -> AnchorModel {
        match self {
            Anchor::AtCallSite(cs) => AnchorModel::AtCallSite(cs@),
            Anchor::InResourceFile => AnchorModel::InResourceFile,
        }
    }
}

/// A build-time error report: severity, message, and the place it is anchored
/// to. Reported to the host build tool instead of an artifact whenever a
/// pipeline stage fails.
#[derive(Debug, PartialEq, Eq)]
pub struct Diagnostic {
    pub severity: Severity,
    pub message: String,
    pub anchor: Anchor,
}

/// Mathematical model of a [`Diagnostic`].
pub struct DiagnosticModel {
    pub severity: Severity,
    pub message: Seq<char>,
    pub anchor: AnchorModel,
}

impl View for Diagnostic {
    type V = DiagnosticModel;

    open spec fn view(&self) -> DiagnosticModel {
        DiagnosticModel { severity: self.severity, message: self.message@, anchor: self.anchor@ }
    }
}

impl DeepView for Diagnostic {
    type V = DiagnosticModel;

    open spec fn deep_view(&self) -> DiagnosticModel {
        self.view()
    }
}

/// Message of the diagnostic for a file that could not be read.
pub open spec fn load_failure_message(reference: Seq<char>, io_error: Seq<char>) -> Seq<char> {
    "couldn't read "@ + reference + ": "@ + io_error
}

/// Message of the summary diagnostic for a file that failed to parse; the
/// toolchain's own span-annotated rendering follows in a second diagnostic.
pub open spec fn parse_failure_message(reference: Seq<char>) -> Seq<char> {
    "Unable to parse "@ + reference + ":"@
}

/// Message of the diagnostic for a module that parsed but failed validation.
pub open spec fn validation_failure_message(reference: Seq<char>, error: Seq<char>) -> Seq<char> {
    reference + ": "@ + error
}

/// Message reported when the SPIR-V backend rejects a validated module. This
/// failure is fatal to the build rather than a recoverable diagnostic.
pub open spec fn codegen_failure_message(error: Seq<char>) -> Seq<char> {
    "Could not generate SPV array: "@ + error
}

/// Builds the diagnostic for a load failure: the one stage anchored at the
/// call site rather than in the resource file, since the resolved path may
/// not exist and means less to the user than the invoking location.
pub fn load_failure_diagnostic(call_site: CallSite, reference: &str, io_error: &str) -> (d:
    Diagnostic)
    ensures
        d@ == (DiagnosticModel {
            severity: Severity::Error,
            message: load_failure_message(reference@, io_error@),
            anchor: AnchorModel::AtCallSite(call_site@),
        }),
{
    let mut m = String::from_str("couldn't read ");
    m.append(reference);
    m.append(": ");
    m.append(io_error);
    Diagnostic { severity: Severity::Error, message: m, anchor: Anchor::AtCallSite(call_site) }
}

/// Builds the summary diagnostic for a parse failure, anchored in the
/// resource file.
pub fn parse_summary_diagnostic(reference: &str) -> (d: Diagnostic)
    ensures
        d@ == (DiagnosticModel {
            severity: Severity::Error,
            message: parse_failure_message(reference@),
            anchor: AnchorModel::InResourceFile,
        }),
{
    let mut m = String::from_str("Unable to parse ");
    m.append(reference);
    m.append(":");
    Diagnostic { severity: Severity::Error, message: m, anchor: Anchor::InResourceFile }
}

/// Builds the single diagnostic for a validation failure: the reference label
/// followed by the validator's own error text.
pub fn validation_failure_diagnostic(reference: &str, error: &str) -> (d: Diagnostic)
    ensures
        d@ == (DiagnosticModel {
            severity: Severity::Error,
            message: validation_failure_message(reference@, error@),
            anchor: AnchorModel::InResourceFile,
        }),
{
    let mut m = reference.to_owned();
    m.append(": ");
    m.append(error);
    Diagnostic { severity: Severity::Error, message: m, anchor: Anchor::InResourceFile }
}

} // verus!
