use vstd::prelude::*;
use crate::diagnostic::AnchorModel;
use crate::diagnostic::CallSiteModel;
use crate::diagnostic::Severity;
use crate::diagnostic::load_failure_message;
use crate::diagnostic::parse_failure_message;
use crate::diagnostic::validation_failure_message;
use crate::pipeline::ArtifactModel;
use crate::pipeline::OutcomeModel;
use crate::pipeline::OutputMode;
use crate::pipeline::pipeline_spec;
use crate::toolchain::wgsl_parse_result;
use crate::toolchain::wgsl_validate_result;

verus! {

/// For every call site and reference whose file loads, parses and validates,
/// text-mode embedding produces an artifact whose content is the file's
/// contents, byte for byte.
pub proof fn lemma_text_mode_embeds_exact_contents(
    call_site: CallSiteModel,
    reference: Seq<char>,
    text: Seq<char>,
)
    requires
        wgsl_parse_result(text) is Ok,
        wgsl_validate_result(text) is Ok,
    ensures
        pipeline_spec(call_site, reference, Ok(text), OutputMode::Text) == OutcomeModel::Embedded(
            ArtifactModel::Text(text),
        ),
{
}

/// Whenever the referenced file cannot be read, the pipeline — in either
/// mode — produces exactly one diagnostic, anchored at the call site, and no
/// artifact.
pub proof fn lemma_missing_file_one_call_site_diagnostic(
    call_site: CallSiteModel,
    reference: Seq<char>,
    io_error: Seq<char>,
    mode: OutputMode,
)
    ensures
        ({
            let r = pipeline_spec(call_site, reference, Err(io_error), mode);
            &&& r matches OutcomeModel::Rejected(ds)
            &&& ds.len() == 1
            &&& ds[0].severity == Severity::Error
            &&& ds[0].message == load_failure_message(reference, io_error)
            &&& ds[0].anchor == AnchorModel::AtCallSite(call_site)
        }),
{
}

/// Whenever the file loads but fails to parse, the pipeline — in either
/// mode — produces diagnostics (a summary whose message carries the reference
/// path, then the toolchain's own rendering) and no artifact.
pub proof fn lemma_parse_failure_rejects(
    call_site: CallSiteModel,
    reference: Seq<char>,
    text: Seq<char>,
    mode: OutputMode,
)
    requires
        wgsl_parse_result(text) is Err,
    ensures
        ({
            let r = pipeline_spec(call_site, reference, Ok(text), mode);
            &&& r matches OutcomeModel::Rejected(ds)
            &&& ds.len() == 2
            &&& ds[0].message == parse_failure_message(reference)
            &&& seq_contains_at(ds[0].message, reference, 16)
            &&& ds[1].message == wgsl_parse_result(text)->Err_0
        }),
{
    lemma_parse_failure_message_carries_reference(reference);
}

/// Whenever the file parses but fails validation, the pipeline — in either
/// mode — produces exactly one diagnostic, whose message carries the
/// reference path and then the validator's own error text, and no artifact.
pub proof fn lemma_validation_failure_one_diagnostic(
    call_site: CallSiteModel,
    reference: Seq<char>,
    text: Seq<char>,
    mode: OutputMode,
)
    requires
        wgsl_parse_result(text) is Ok,
        wgsl_validate_result(text) is Err,
    ensures
        ({
            let r = pipeline_spec(call_site, reference, Ok(text), mode);
            let error = wgsl_validate_result(text)->Err_0;
            &&& r matches OutcomeModel::Rejected(ds)
            &&& ds.len() == 1
            &&& ds[0].message == validation_failure_message(reference, error)
            &&& seq_contains_at(ds[0].message, reference, 0)
            &&& seq_contains_at(ds[0].message, error, reference.len() as int + 2)
        }),
{
    lemma_validation_failure_message_carries_parts(
        reference,
        wgsl_validate_result(text)->Err_0,
    );
}

/// Running the pipeline twice on the same call site, reference, file
/// contents and mode gives the same outcome: the pipeline keeps no hidden
/// state between runs. Together with the contract of
/// [`crate::pipeline::run`], which pins each run's result to
/// [`pipeline_spec`] of its inputs, two such runs return equal outcomes.
pub proof fn lemma_pipeline_idempotent(
    call_site: CallSiteModel,
    reference: Seq<char>,
    loaded: Result<Seq<char>, Seq<char>>,
    mode: OutputMode,
    first: OutcomeModel,
    second: OutcomeModel,
)
    requires
        first == pipeline_spec(call_site, reference, loaded, mode),
        second == pipeline_spec(call_site, reference, loaded, mode),
    ensures
        first == second,
{
}

/// `needle` occurs in `hay` starting at position `at`.
pub open spec fn seq_contains_at(hay: Seq<char>, needle: Seq<char>, at: int) -> bool {
    &&& 0 <= at
    &&& at + needle.len() <= hay.len()
    &&& hay.subrange(at, at + needle.len()) == needle
}

/// The parse-failure summary message carries the reference path verbatim,
/// right after its fixed prefix.
pub proof fn lemma_parse_failure_message_carries_reference(reference: Seq<char>)
    ensures
        seq_contains_at(parse_failure_message(reference), reference, 16),
{
    reveal_strlit("Unable to parse ");
    assert(parse_failure_message(reference).subrange(16, 16 + reference.len() as int)
        =~= reference);
}

/// The validation-failure message carries the reference path verbatim at its
/// start and the validator's error text verbatim after the separator.
pub proof fn lemma_validation_failure_message_carries_parts(reference: Seq<char>, error: Seq<char>)
    ensures
        seq_contains_at(validation_failure_message(reference, error), reference, 0),
        seq_contains_at(validation_failure_message(reference, error), error, reference.len() as int + 2),
{
    reveal_strlit(": ");
    let m = validation_failure_message(reference, error);
    assert(m.subrange(0, reference.len() as int) =~= reference);
    assert(m.subrange(
        reference.len() as int + 2,
        reference.len() as int + 2 + error.len() as int,
    ) =~= error);
}

} // verus!
