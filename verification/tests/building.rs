//! Planning a build and assembling its result.

use rustw_build::builder::{
    candidate_dirs, rustflags, split_tokens, BuildError, BuildResult, Builder, Config,
};

fn builder(command: &str, save_analysis: bool) -> Builder {
    Builder::from_config(Config { build_command: command.to_owned(), save_analysis })
}

#[test]
fn split_drops_extra_whitespace() {
    assert_eq!(split_tokens("cargo build --verbose"), vec!["cargo", "build", "--verbose"]);
    assert_eq!(split_tokens("  cargo   build "), vec!["cargo", "build"]);
    assert_eq!(split_tokens("one"), vec!["one"]);
    assert_eq!(split_tokens(""), Vec::<String>::new());
}

#[test]
fn whitespace_only_command_is_no_command() {
    let b = builder("   ", false);
    assert_eq!(b.plan().err(), Some(BuildError::NoCommand));
    let b = builder("", true);
    assert_eq!(b.plan().err(), Some(BuildError::NoCommand));
    let b = builder(" \t \n ", false);
    assert_eq!(b.plan().err(), Some(BuildError::NoCommand));
}

#[test]
fn plan_keeps_the_full_argument_list() {
    let b = builder("echo ok now", false);
    let p = b.plan().expect("a program is named");
    assert_eq!(p.program, "echo");
    assert_eq!(p.args, vec!["ok", "now"]);
    assert_eq!(p.env_var, "RUSTFLAGS");
    assert_eq!(p.env_value, "-Zunstable-options --error-format json");
}

#[test]
fn analysis_flag_is_appended_only_when_enabled() {
    assert_eq!(rustflags(false), "-Zunstable-options --error-format json");
    assert_eq!(rustflags(true), "-Zunstable-options --error-format json -Zsave-analysis");
    let b = builder("cargo build", true);
    let p = b.plan().expect("a program is named");
    assert_eq!(p.env_value, "-Zunstable-options --error-format json -Zsave-analysis");
}

#[test]
fn candidate_dirs_scan_primary_first() {
    assert_eq!(
        candidate_dirs(),
        vec!["target/debug/save-analysis", "target/debug/deps/save-analysis"]
    );
}

#[test]
fn process_output_becomes_a_result() {
    let r = BuildResult::from_process_output(Some(0), b"ok\n".to_vec(), Vec::new(), vec![])
        .expect("both streams are text");
    assert_eq!(r.status, Some(0));
    assert_eq!(r.stdout, "ok\n");
    assert_eq!(r.stderr, "");
    assert!(r.analysis.is_empty());
}

#[test]
fn non_text_output_is_fatal() {
    let bad = vec![0xff, 0xfe];
    assert_eq!(
        BuildResult::from_process_output(Some(0), bad.clone(), Vec::new(), vec![]).err(),
        Some(BuildError::NonTextOutput)
    );
    assert_eq!(
        BuildResult::from_process_output(None, Vec::new(), bad, vec![]).err(),
        Some(BuildError::NonTextOutput)
    );
}

#[test]
fn utf8_output_survives_verbatim() {
    let r = BuildResult::from_process_output(
        Some(1),
        "naïve — ok".as_bytes().to_vec(),
        "warnung: überlauf".as_bytes().to_vec(),
        vec![],
    )
    .expect("both streams are text");
    assert_eq!(r.status, Some(1));
    assert_eq!(r.stdout, "naïve — ok");
    assert_eq!(r.stderr, "warnung: überlauf");
}

#[test]
fn canned_result_reports_a_finished_build() {
    let r = BuildResult::test_result();
    assert_eq!(r.status, Some(0));
    assert!(r.stdout.contains("Compiling zero v0.1.2"));
    assert!(r.stderr.contains("unused variable"));
    assert!(r.analysis.is_empty());
}
