use vstd::prelude::*;
use vstd::string::*;
use crate::diagnostic::Anchor;
use crate::diagnostic::AnchorModel;
use crate::diagnostic::CallSite;
use crate::diagnostic::CallSiteModel;
use crate::diagnostic::Diagnostic;
use crate::diagnostic::DiagnosticModel;
use crate::diagnostic::Severity;
use crate::diagnostic::codegen_failure_message;
use crate::diagnostic::load_failure_diagnostic;
use crate::diagnostic::load_failure_message;
use crate::diagnostic::parse_failure_message;
use crate::diagnostic::parse_summary_diagnostic;
use crate::diagnostic::validation_failure_diagnostic;
use crate::diagnostic::validation_failure_message;
use crate::toolchain::ValidatedModule;
use crate::toolchain::compile_spv;
use crate::toolchain::parse_wgsl;
use crate::toolchain::validate_wgsl;
use crate::toolchain::wgsl_parse_result;
use crate::toolchain::wgsl_spv_result;
use crate::toolchain::wgsl_validate_result;

verus! {

/// Which artifact the embedder is asked to produce: the validated source
/// text itself, or SPIR-V bytecode cross-compiled from it.
#[derive(Clone, Copy, Debug, PartialEq, Eq)]
pub enum OutputMode {
    Text,
    Spirv,
}

/// The payload that is embedded into the compiled program when every stage
/// succeeds.
#[derive(Debug, PartialEq, Eq)]
pub enum Artifact {
    Text(String),
    Spirv(Vec<u32>),
}

/// Mathematical model of an [`Artifact`].
pub enum ArtifactModel {
    Text(Seq<char>),
    Spirv(Seq<u32>),
}

impl View for Artifact {
    type V = ArtifactModel;

    open spec fn view(&self) -> ArtifactModel {
        match self {
            Artifact::Text(s) => ArtifactModel::Text(s@),
            Artifact::Spirv(w) => ArtifactModel::Spirv(w@),
        }
    }
}

/// The result of one pipeline run: an artifact to embed, a rejection carrying
/// the diagnostics to report (the build goes on with other units), or a fatal
/// backend failure that aborts the whole build.
#[derive(Debug, PartialEq, Eq)]
pub enum PipelineOutcome {
    Embedded(Artifact),
    Rejected(Vec<Diagnostic>),
    Fatal(String),
}

/// Mathematical model of a [`PipelineOutcome`].
pub enum OutcomeModel {
    Embedded(ArtifactModel),
    Rejected(Seq<DiagnosticModel>),
    Fatal(Seq<char>),
}

impl View for PipelineOutcome {
    type V = OutcomeModel;

    open spec fn view(&self) -> OutcomeModel {
        match self {
            PipelineOutcome::Embedded(a) => OutcomeModel::Embedded(a@),
            PipelineOutcome::Rejected(ds) => OutcomeModel::Rejected(ds.deep_view()),
            PipelineOutcome::Fatal(m) => OutcomeModel::Fatal(m@),
        }
    }
}

/// The load outcome handed over by the host: the file's UTF-8 contents, or
/// the I/O error's display text.
pub open spec fn loaded_view(loaded: Result<String, String>) -> Result<Seq<char>, Seq<char>> {
    match loaded {
        Ok(text) => Ok(text@),
        Err(io_error) => Err(io_error@),
    }
}

/// The two diagnostics reported for a parse failure: a summary naming the
/// reference, then the toolchain's own span-annotated rendering.
pub open spec fn parse_failure_diags(reference: Seq<char>, detail: Seq<char>) -> Seq<
    DiagnosticModel,
> {
    seq![
        DiagnosticModel {
            severity: Severity::Error,
            message: parse_failure_message(reference),
            anchor: AnchorModel::InResourceFile,
        },
        DiagnosticModel {
            severity: Severity::Error,
            message: detail,
            anchor: AnchorModel::InResourceFile,
        },
    ]
}

/// The single call-site-anchored diagnostic reported for a load failure.
pub open spec fn load_failure_diags(
    call_site: CallSiteModel,
    reference: Seq<char>,
    io_error: Seq<char>,
) -> Seq<DiagnosticModel> {
    seq![
        DiagnosticModel {
            severity: Severity::Error,
            message: load_failure_message(reference, io_error),
            anchor: AnchorModel::AtCallSite(call_site),
        },
    ]
}

/// The single diagnostic reported for a validation failure.
pub open spec fn validation_failure_diags(reference: Seq<char>, error: Seq<char>) -> Seq<
    DiagnosticModel,
> {
    seq![
        DiagnosticModel {
            severity: Severity::Error,
            message: validation_failure_message(reference, error),
            anchor: AnchorModel::InResourceFile,
        },
    ]
}

/// The whole pipeline as a function of its inputs: load outcome, then parse,
/// then validate, then — in bytecode mode — codegen. Each stage either hands
/// its result on or stops the run with its diagnostics; backend failure is
/// fatal rather than reported.
pub open spec fn pipeline_spec(
    call_site: CallSiteModel,
    reference: Seq<char>,
    loaded: Result<Seq<char>, Seq<char>>,
    mode: OutputMode,
) -> OutcomeModel {
    match loaded {
        Err(io_error) => OutcomeModel::Rejected(load_failure_diags(call_site, reference, io_error)),
        Ok(text) => match wgsl_parse_result(text) {
            Err(detail) => OutcomeModel::Rejected(parse_failure_diags(reference, detail)),
            Ok(_) => match wgsl_validate_result(text) {
                Err(error) => OutcomeModel::Rejected(validation_failure_diags(reference, error)),
                Ok(_) => match mode {
                    OutputMode::Text => OutcomeModel::Embedded(ArtifactModel::Text(text)),
                    OutputMode::Spirv => match wgsl_spv_result(text) {
                        Ok(words) => OutcomeModel::Embedded(ArtifactModel::Spirv(words)),
                        Err(error) => OutcomeModel::Fatal(codegen_failure_message(error)),
                    },
                },
            },
        },
    }
}

/// Hands the text to the external parser, then the parsed module to the
/// external validator. Parse and validate stay distinct failure points: a
/// parse failure reports a summary plus the toolchain's own rendering, a
/// validation failure reports one structured message.
pub fn parse_and_validate(text: &str, reference: &str) -> (r: Result<
    ValidatedModule,
    Vec<Diagnostic>,
>)
    ensures
        r is Ok <==> (wgsl_parse_result(text@) is Ok && wgsl_validate_result(text@) is Ok),
        (r matches Ok(vm) ==> vm.source_view() == text@),
        (wgsl_parse_result(text@) matches Err(detail) ==> (r matches Err(ds) && ds.deep_view()
            == parse_failure_diags(reference@, detail))),
        ((wgsl_parse_result(text@) is Ok && wgsl_validate_result(text@) is Err) ==> (
        r matches Err(ds) && ds.deep_view() == validation_failure_diags(
            reference@,
            wgsl_validate_result(text@)->Err_0,
        ))),
{
    match parse_wgsl(text) {
        Err(detail) => {
            let summary = parse_summary_diagnostic(reference);
            let detail_diag = Diagnostic {
                severity: Severity::Error,
                message: detail,
                anchor: Anchor::InResourceFile,
            };
            let mut ds: Vec<Diagnostic> = Vec::new();
            ds.push(summary);
            ds.push(detail_diag);
            proof {
                assert(ds.deep_view() =~= parse_failure_diags(
                    reference@,
                    wgsl_parse_result(text@)->Err_0,
                ));
            }
            Err(ds)
        },
        Ok(parsed) => match validate_wgsl(parsed) {
            Err(error) => {
                let d = validation_failure_diagnostic(reference, error.as_str());
                let mut ds: Vec<Diagnostic> = Vec::new();
                ds.push(d);
                proof {
                    assert(ds.deep_view() =~= validation_failure_diags(
                        reference@,
                        wgsl_validate_result(text@)->Err_0,
                    ));
                }
                Err(ds)
            },
            Ok(validated) => Ok(validated),
        },
    }
}

/// One full pipeline run for one call site. The host resolves the path and
/// performs the one file read; this takes that load outcome and sequences
/// parse, validate and — in bytecode mode — codegen, embedding the artifact
/// only when every stage succeeded.
pub fn run(call_site: CallSite, reference: &str, loaded: Result<String, String>, mode: OutputMode)
    -> (r: PipelineOutcome)
    ensures
        r@ == pipeline_spec(call_site@, reference@, loaded_view(loaded), mode),
{
    match loaded {
        Err(io_error) => {
            let d = load_failure_diagnostic(call_site, reference, io_error.as_str());
            let mut ds: Vec<Diagnostic> = Vec::new();
            ds.push(d);
            proof {
                assert(ds.deep_view() =~= load_failure_diags(call_site@, reference@, io_error@));
            }
            PipelineOutcome::Rejected(ds)
        },
        Ok(text) => match parse_and_validate(text.as_str(), reference) {
            Err(ds) => PipelineOutcome::Rejected(ds),
            Ok(validated) => match mode {
                OutputMode::Text => PipelineOutcome::Embedded(Artifact::Text(text)),
                OutputMode::Spirv => match compile_spv(&validated) {
                    Ok(words) => PipelineOutcome::Embedded(Artifact::Spirv(words)),
                    Err(error) => {
                        let mut m = String::from_str("Could not generate SPV array: ");
                        m.append(error.as_str());
                        PipelineOutcome::Fatal(m)
                    },
                },
            },
        },
    }
}

/// Text-mode embedding: the artifact is the validated source text itself,
/// byte for byte.
pub fn embed_wgsl(call_site: CallSite, reference: &str, loaded: Result<String, String>) -> (r:
    PipelineOutcome)
    ensures
        r@ == pipeline_spec(call_site@, reference@, loaded_view(loaded), OutputMode::Text),
{
    run(call_site, reference, loaded, OutputMode::Text)
}

/// Bytecode-mode embedding: the artifact is the SPIR-V bytecode the backend
/// produces from the validated module, as 32-bit words.
pub fn embed_wgsl_to_spv(call_site: CallSite, reference: &str, loaded: Result<String, String>)
    -> (r: PipelineOutcome)
    ensures
        r@ == pipeline_spec(call_site@, reference@, loaded_view(loaded), OutputMode::Spirv),
{
    run(call_site, reference, loaded, OutputMode::Spirv)
}

} // verus!
