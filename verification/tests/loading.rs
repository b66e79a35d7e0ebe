//! The analysis loader on whole batches of artifact files.

use rustw_build::loader::{load_analyses, ArtifactFile, LoadDiagnostic, LoadFailure};
use rustw_build::decode::DecodeError;
use rustw_build::model::DefKind;

const EMPTY_ARTIFACT: &str =
    "{\"defs\":[],\"imports\":[],\"macro_refs\":[],\"prelude\":null,\"refs\":[]}";

fn one_def_artifact(kind: &str) -> String {
    let span = "{\"byte_end\":10,\"byte_start\":5,\"column_end\":6,\"column_start\":1,\
                \"file_name\":\"src/main.rs\",\"line_end\":2,\"line_start\":2}";
    format!(
        "{{\"defs\":[{{\"id\":{{\"container_id\":0,\"local_index\":3}},\"kind\":\"{}\",\
         \"name\":\"main\",\"qualified_name\":\"demo::main\",\"span\":{},\"value\":\"fn main()\"}}],\
         \"imports\":[],\"macro_refs\":[],\"prelude\":null,\"refs\":[]}}",
        kind, span
    )
}

#[test]
fn empty_batch_loads_to_nothing() {
    let (loaded, diagnostics) = load_analyses(&vec![]);
    assert!(loaded.is_empty());
    assert!(diagnostics.is_empty());
}

#[test]
fn valid_artifacts_load_in_input_order() {
    let files = vec![
        ArtifactFile { path: "primary/a.json".to_owned(), content: Some(EMPTY_ARTIFACT.to_owned()) },
        ArtifactFile { path: "deps/b.json".to_owned(), content: Some(one_def_artifact("Function")) },
    ];
    let (loaded, diagnostics) = load_analyses(&files);
    assert_eq!(loaded.len(), 2);
    assert!(diagnostics.is_empty());
    assert!(loaded[0].defs.is_empty());
    assert_eq!(loaded[1].defs.len(), 1);
    assert_eq!(loaded[1].defs[0].kind, DefKind::Function);
    assert_eq!(loaded[1].defs[0].name, "main");
}

#[test]
fn bad_kind_skips_only_that_file() {
    let files = vec![
        ArtifactFile { path: "a.json".to_owned(), content: Some(one_def_artifact("Function")) },
        ArtifactFile { path: "b.json".to_owned(), content: Some(one_def_artifact("Bogus")) },
        ArtifactFile { path: "c.json".to_owned(), content: Some(EMPTY_ARTIFACT.to_owned()) },
    ];
    let (loaded, diagnostics) = load_analyses(&files);
    assert_eq!(loaded.len(), 2);
    assert_eq!(loaded[0].defs.len(), 1);
    assert!(loaded[1].defs.is_empty());
    assert_eq!(
        diagnostics,
        vec![LoadDiagnostic {
            path: "b.json".to_owned(),
            failure: LoadFailure::Decode(DecodeError::UnknownVariant {
                field: "kind".to_owned(),
                value: "Bogus".to_owned(),
            }),
        }]
    );
}

#[test]
fn unreadable_file_is_reported_and_skipped() {
    let files = vec![
        ArtifactFile { path: "gone.json".to_owned(), content: None },
        ArtifactFile { path: "ok.json".to_owned(), content: Some(EMPTY_ARTIFACT.to_owned()) },
    ];
    let (loaded, diagnostics) = load_analyses(&files);
    assert_eq!(loaded.len(), 1);
    assert_eq!(
        diagnostics,
        vec![LoadDiagnostic { path: "gone.json".to_owned(), failure: LoadFailure::Unreadable }]
    );
}

#[test]
fn malformed_text_is_reported_and_skipped() {
    let files = vec![
        ArtifactFile { path: "broken.json".to_owned(), content: Some("{not json".to_owned()) },
    ];
    let (loaded, diagnostics) = load_analyses(&files);
    assert!(loaded.is_empty());
    assert_eq!(
        diagnostics,
        vec![LoadDiagnostic { path: "broken.json".to_owned(), failure: LoadFailure::Parse }]
    );
}

#[test]
fn artifact_keys_may_arrive_in_any_text_order() {
    let reordered =
        "{\"refs\":[],\"prelude\":null,\"macro_refs\":[],\"imports\":[],\"defs\":[]}";
    let files = vec![
        ArtifactFile { path: "r.json".to_owned(), content: Some(reordered.to_owned()) },
    ];
    let (loaded, diagnostics) = load_analyses(&files);
    assert_eq!(loaded.len(), 1);
    assert!(diagnostics.is_empty());
}

#[test]
fn fractional_number_in_a_field_is_skipped() {
    let bad = one_def_artifact("Function").replace("\"byte_end\":10", "\"byte_end\":10.5");
    let files = vec![ArtifactFile { path: "f.json".to_owned(), content: Some(bad) }];
    let (loaded, diagnostics) = load_analyses(&files);
    assert!(loaded.is_empty());
    assert_eq!(
        diagnostics,
        vec![LoadDiagnostic {
            path: "f.json".to_owned(),
            failure: LoadFailure::Decode(DecodeError::Structure),
        }]
    );
}

#[test]
fn boolean_in_a_field_is_skipped() {
    let bad = one_def_artifact("Function").replace("\"fn main()\"", "true");
    let files = vec![ArtifactFile { path: "b.json".to_owned(), content: Some(bad) }];
    let (loaded, diagnostics) = load_analyses(&files);
    assert!(loaded.is_empty());
    assert_eq!(
        diagnostics,
        vec![LoadDiagnostic {
            path: "b.json".to_owned(),
            failure: LoadFailure::Decode(DecodeError::Structure),
        }]
    );
}

#[test]
fn oversized_number_in_a_field_is_skipped() {
    let bad = one_def_artifact("Function").replace("\"byte_end\":10", "\"byte_end\":4294967296");
    let files = vec![ArtifactFile { path: "n.json".to_owned(), content: Some(bad) }];
    let (loaded, diagnostics) = load_analyses(&files);
    assert!(loaded.is_empty());
    assert_eq!(
        diagnostics,
        vec![LoadDiagnostic {
            path: "n.json".to_owned(),
            failure: LoadFailure::Decode(DecodeError::Structure),
        }]
    );
}
