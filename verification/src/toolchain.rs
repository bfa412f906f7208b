use vstd::prelude::*;

verus! {

#[verifier::external_type_specification]
#[verifier::external_body]
pub struct ExModule(naga::Module);

#[verifier::external_type_specification]
#[verifier::external_body]
pub struct ExModuleInfo(naga::valid::ModuleInfo);

/// What naga's WGSL front end makes of a given source text: `Ok` when the
/// text parses, otherwise the front end's own rendering of the parse error
/// against that text (span-annotated, possibly multi-line). The front end is
/// stateless, so the outcome is a function of the text alone.
pub uninterp spec fn wgsl_parse_result(text: Seq<char>) -> Result<(), Seq<char>>;

/// What naga's validator makes of the module parsed from a given source
/// text, when run with every validation flag and the full capability set:
/// `Ok` when the module validates, otherwise the validator error's display
/// text. The validator is stateless, and the module a text parses to is
/// determined by the text, so the outcome is a function of the text alone.
pub uninterp spec fn wgsl_validate_result(text: Seq<char>) -> Result<(), Seq<char>>;

/// What naga's SPIR-V backend makes of the validated module of a given
/// source text, under default target options and with no entry-point
/// restriction: `Ok` with the bytecode words, otherwise the backend error's
/// display text. The backend is stateless, so the outcome is a function of
/// the text alone.
pub uninterp spec fn wgsl_spv_result(text: Seq<char>) -> Result<Seq<u32>, Seq<char>>;

/// A structurally well-formed shader module, paired with the exact source
/// text it was parsed from. Values are only ever constructed by
/// [`parse_wgsl`], so the module inside is always the front end's parse of
/// `source`.
pub struct ParsedModule {
    module: naga::Module,
    source: String,
}

impl ParsedModule {
    /// The source text this module was parsed from.
    pub closed spec fn source_view(&self) -> Seq<char> {
        self.source@
    }
}

/// A module that passed validation, carrying the validation metadata the
/// backend needs, still paired with the source text it came from. Values are
/// only ever constructed by [`validate_wgsl`].
pub struct ValidatedModule {
    module: naga::Module,
    info: naga::valid::ModuleInfo,
    source: String,
}

impl ValidatedModule {
    /// The source text this module was parsed and validated from.
    pub closed spec fn source_view(&self) -> Seq<char> {
        self.source@
    }
}

/// Relies on `naga::front::wgsl::parse_str` to parse the text, and on
/// `naga::front::wgsl::ParseError::emit_to_string` to render a failure
/// against the source text. Both depend on the text alone, so the outcome is
/// the one named by [`wgsl_parse_result`].
#[verifier::external_body]
pub(crate) fn parse_wgsl(text: &str) -> (r: Result<ParsedModule, String>)
    ensures
        r is Ok <==> wgsl_parse_result(text@) is Ok,
        (r matches Ok(pm) ==> pm.source_view() == text@),
        (r matches Err(detail) ==> (wgsl_parse_result(text@) matches Err(m) && detail@ == m)),
{
    match naga::front::wgsl::parse_str(text) {
        Ok(module) => Ok(ParsedModule { module, source: text.to_string() }),
        Err(e) => Err(e.emit_to_string(text)),
    }
}

/// Relies on `naga::valid::Validator::new` and `Validator::validate`, run
/// with `ValidationFlags::all()` and `Capabilities::all()` so that no legal
/// module is rejected merely for want of a target capability. A failure is
/// the validator error's display text. Every [`ParsedModule`] carries the
/// text its module was parsed from, so the outcome is the one named by
/// [`wgsl_validate_result`] at that text.
#[verifier::external_body]
pub(crate) fn validate_wgsl(parsed: ParsedModule) -> (r: Result<ValidatedModule, String>)
    ensures
        r is Ok <==> wgsl_validate_result(parsed.source_view()) is Ok,
        (r matches Ok(vm) ==> vm.source_view() == parsed.source_view()),
        (r matches Err(msg) ==> (wgsl_validate_result(parsed.source_view()) matches Err(m)
            && msg@ == m)),
{
    let mut validator = naga::valid::Validator::new(
        naga::valid::ValidationFlags::all(),
        naga::valid::Capabilities::all(),
    );
    match validator.validate(&parsed.module) {
        Ok(info) => Ok(ValidatedModule { module: parsed.module, info, source: parsed.source }),
        Err(e) => Err(format!("{}", e)),
    }
}

/// Relies on `naga::back::spv::write_vec`, run with default options and no
/// pipeline options, so the whole validated module is compiled. A failure is
/// the backend error's display text. Every [`ValidatedModule`] carries the
/// text it came from, so the outcome is the one named by [`wgsl_spv_result`]
/// at that text.
#[verifier::external_body]
pub(crate) fn compile_spv(validated: &ValidatedModule) -> (r: Result<Vec<u32>, String>)
    ensures
        r is Ok <==> wgsl_spv_result(validated.source_view()) is Ok,
        (r matches Ok(words) ==> (wgsl_spv_result(validated.source_view()) matches Ok(w)
            && words@ == w)),
        (r matches Err(msg) ==> (wgsl_spv_result(validated.source_view()) matches Err(m)
            && msg@ == m)),
{
    match naga::back::spv::write_vec(
        &validated.module,
        &validated.info,
        &naga::back::spv::Options::default(),
        None,
    ) {
        Ok(words) => Ok(words),
        Err(e) => Err(format!("{}", e)),
    }
}

} // verus!
