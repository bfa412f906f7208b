use wgsl_embed::diagnostic::{Anchor, CallSite, Severity};
use wgsl_embed::path_resolve::resolve;
use wgsl_embed::pipeline::{embed_wgsl, embed_wgsl_to_spv, run, Artifact, OutputMode, PipelineOutcome};

fn call_site() -> CallSite {
    CallSite { file: String::from("src/lib.rs"), line: 7, column: 3 }
}

const VALID_SHADER: &str = "@compute @workgroup_size(1)\nfn main() {}\n";

#[test]
fn resolve_joins_parent_dir_and_reference() {
    let r = resolve("src/lib.rs", "sub/shader.wgsl");
    assert_eq!(r, "src/sub/shader.wgsl");
}

#[test]
fn resolve_uses_last_separator() {
    let r = resolve("shaders/entry/main.rs", "common.wgsl");
    assert_eq!(r, "shaders/entry/common.wgsl");
}

#[test]
fn resolve_keeps_parent_segments_in_reference() {
    let r = resolve("shaders/entry/main.rs", "../common.wgsl");
    assert_eq!(r, "shaders/entry/../common.wgsl");
}

#[test]
fn resolve_absolute_reference_replaces_directory() {
    let r = resolve("src/lib.rs", "/abs/shader.wgsl");
    assert_eq!(r, "/abs/shader.wgsl");
}

#[test]
fn text_mode_embeds_exact_contents() {
    let outcome = run(
        call_site(),
        "basic.shader",
        Ok(String::from(VALID_SHADER)),
        OutputMode::Text,
    );
    match outcome {
        PipelineOutcome::Embedded(Artifact::Text(text)) => assert_eq!(text, VALID_SHADER),
        other => panic!("expected embedded text, got {:?}", other),
    }
}

#[test]
fn spv_mode_embeds_nonempty_word_sequence() {
    let outcome = run(
        call_site(),
        "basic.shader",
        Ok(String::from(VALID_SHADER)),
        OutputMode::Spirv,
    );
    match outcome {
        PipelineOutcome::Embedded(Artifact::Spirv(words)) => assert!(!words.is_empty()),
        other => panic!("expected embedded bytecode, got {:?}", other),
    }
}

#[test]
fn missing_file_reports_single_call_site_diagnostic() {
    let outcome = run(
        call_site(),
        "missing.shader",
        Err(String::from("No such file or directory (os error 2)")),
        OutputMode::Text,
    );
    match outcome {
        PipelineOutcome::Rejected(ds) => {
            assert_eq!(ds.len(), 1);
            assert_eq!(ds[0].severity, Severity::Error);
            assert_eq!(
                ds[0].message,
                "couldn't read missing.shader: No such file or directory (os error 2)"
            );
            assert!(ds[0].message.contains("couldn't read missing.shader"));
            assert_eq!(ds[0].anchor, Anchor::AtCallSite(call_site()));
        }
        other => panic!("expected rejection, got {:?}", other),
    }
}

#[test]
fn parse_failure_reports_summary_and_toolchain_detail() {
    let outcome = run(
        call_site(),
        "basic.shader",
        Ok(String::from("fn main() {")),
        OutputMode::Text,
    );
    match outcome {
        PipelineOutcome::Rejected(ds) => {
            assert_eq!(ds.len(), 2);
            assert_eq!(ds[0].message, "Unable to parse basic.shader:");
            assert!(ds[0].message.contains("Unable to parse basic.shader"));
            assert_eq!(ds[0].anchor, Anchor::InResourceFile);
            assert!(!ds[1].message.is_empty());
            assert_ne!(ds[1].message, "fn main() {");
            assert_eq!(ds[1].anchor, Anchor::InResourceFile);
        }
        other => panic!("expected rejection, got {:?}", other),
    }
}

#[test]
fn validation_failure_reports_single_labelled_diagnostic() {
    let outcome = run(
        call_site(),
        "bad.shader",
        Ok(String::from("@compute @workgroup_size(0)\nfn main() {}\n")),
        OutputMode::Text,
    );
    match outcome {
        PipelineOutcome::Rejected(ds) => {
            assert_eq!(ds.len(), 1);
            assert!(ds[0].message.starts_with("bad.shader: "));
            assert!(ds[0].message.len() > "bad.shader: ".len());
            assert_eq!(ds[0].anchor, Anchor::InResourceFile);
        }
        other => panic!("expected rejection, got {:?}", other),
    }
}

#[test]
fn pipeline_runs_are_identical_on_same_input() {
    let first = run(
        call_site(),
        "basic.shader",
        Ok(String::from(VALID_SHADER)),
        OutputMode::Text,
    );
    let second = run(
        call_site(),
        "basic.shader",
        Ok(String::from(VALID_SHADER)),
        OutputMode::Text,
    );
    assert_eq!(first, second);

    let first_bad = run(
        call_site(),
        "basic.shader",
        Ok(String::from("fn main() {")),
        OutputMode::Spirv,
    );
    let second_bad = run(
        call_site(),
        "basic.shader",
        Ok(String::from("fn main() {")),
        OutputMode::Spirv,
    );
    assert_eq!(first_bad, second_bad);
}

#[test]
fn embed_entry_points_match_run_by_mode() {
    let via_entry = embed_wgsl(call_site(), "basic.shader", Ok(String::from(VALID_SHADER)));
    let via_run = run(
        call_site(),
        "basic.shader",
        Ok(String::from(VALID_SHADER)),
        OutputMode::Text,
    );
    assert_eq!(via_entry, via_run);

    let via_spv_entry =
        embed_wgsl_to_spv(call_site(), "basic.shader", Ok(String::from(VALID_SHADER)));
    let via_spv_run = run(
        call_site(),
        "basic.shader",
        Ok(String::from(VALID_SHADER)),
        OutputMode::Spirv,
    );
    assert_eq!(via_spv_entry, via_spv_run);
}

#[test]
fn rejection_in_spv_mode_matches_rejection_in_text_mode() {
    let text_mode = run(
        call_site(),
        "missing.shader",
        Err(String::from("permission denied (os error 13)")),
        OutputMode::Text,
    );
    let spv_mode = run(
        call_site(),
        "missing.shader",
        Err(String::from("permission denied (os error 13)")),
        OutputMode::Spirv,
    );
    assert_eq!(text_mode, spv_mode);
}
