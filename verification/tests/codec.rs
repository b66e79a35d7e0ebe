//! Decoding and encoding of artifact JSON: round trips, tagged-enum
//! decoders, and shape errors.

use rustw_build::decode::{
    decode_analysis, decode_def, decode_span, def_kind_from_str, import_kind_from_str,
    ref_kind_from_str, DecodeError,
};
use rustw_build::encode::{encode_analysis, encode_def, encode_span};
use rustw_build::json::Json;
use rustw_build::model::{
    Analysis, CompilerId, CratePreludeData, Def, DefKind, ExternalCrateData, Import, ImportKind,
    MacroRef, Ref, RefKind, SpanData,
};

fn sample_span() -> SpanData {
    SpanData {
        file_name: "src/main.rs".to_owned(),
        byte_start: 5,
        byte_end: 10,
        line_start: 2,
        line_end: 2,
        column_start: 1,
        column_end: 6,
    }
}

fn sample_analysis() -> Analysis {
    Analysis {
        prelude: Some(CratePreludeData {
            crate_name: "demo".to_owned(),
            crate_root: "src/lib.rs".to_owned(),
            external_crates: vec![ExternalCrateData {
                name: "serde".to_owned(),
                ordinal: 1,
                file_name: "serde/src/lib.rs".to_owned(),
            }],
            span: sample_span(),
        }),
        imports: vec![Import {
            kind: ImportKind::Use,
            id: CompilerId { container_id: 0, local_index: 7 },
            span: sample_span(),
            name: "Vec".to_owned(),
            value: "std::vec::Vec".to_owned(),
        }],
        defs: vec![Def {
            kind: DefKind::Function,
            id: CompilerId { container_id: 0, local_index: 3 },
            span: sample_span(),
            name: "main".to_owned(),
            qualified_name: "demo::main".to_owned(),
            value: "fn main()".to_owned(),
        }],
        refs: vec![Ref {
            kind: RefKind::Function,
            span: sample_span(),
            ref_id: CompilerId { container_id: 0, local_index: 3 },
        }],
        macro_refs: vec![MacroRef {
            span: sample_span(),
            qualified_name: "std::println".to_owned(),
            callee_span: sample_span(),
        }],
    }
}

#[test]
fn span_round_trips_through_json() {
    let s = sample_span();
    let j = encode_span(&s);
    assert_eq!(decode_span(&j), Ok(s));
}

#[test]
fn def_round_trips_through_json() {
    let d = sample_analysis().defs.remove(0);
    let j = encode_def(&d);
    assert_eq!(decode_def(&j), Ok(d));
}

#[test]
fn analysis_round_trips_through_json() {
    let a = sample_analysis();
    let j = encode_analysis(&a);
    assert_eq!(decode_analysis(&j), Ok(a));
}

#[test]
fn def_kind_tags_decode_exactly() {
    assert_eq!(def_kind_from_str("Enum"), Some(DefKind::Enum));
    assert_eq!(def_kind_from_str("Tuple"), Some(DefKind::Tuple));
    assert_eq!(def_kind_from_str("Struct"), Some(DefKind::Struct));
    assert_eq!(def_kind_from_str("Trait"), Some(DefKind::Trait));
    assert_eq!(def_kind_from_str("Function"), Some(DefKind::Function));
    assert_eq!(def_kind_from_str("Macro"), Some(DefKind::Macro));
    assert_eq!(def_kind_from_str("Mod"), Some(DefKind::Mod));
    assert_eq!(def_kind_from_str("Type"), Some(DefKind::Type));
    assert_eq!(def_kind_from_str("Variable"), Some(DefKind::Variable));
    assert_eq!(def_kind_from_str("Bogus"), None);
    assert_eq!(def_kind_from_str("enum"), None);
    assert_eq!(def_kind_from_str(""), None);
}

#[test]
fn ref_kind_tags_decode_exactly() {
    assert_eq!(ref_kind_from_str("Function"), Some(RefKind::Function));
    assert_eq!(ref_kind_from_str("Mod"), Some(RefKind::Mod));
    assert_eq!(ref_kind_from_str("Type"), Some(RefKind::Type));
    assert_eq!(ref_kind_from_str("Variable"), Some(RefKind::Variable));
    assert_eq!(ref_kind_from_str("Struct"), None);
}

#[test]
fn import_kind_tags_decode_exactly() {
    assert_eq!(import_kind_from_str("ExternCrate"), Some(ImportKind::ExternCrate));
    assert_eq!(import_kind_from_str("Use"), Some(ImportKind::Use));
    assert_eq!(import_kind_from_str("GlobUse"), Some(ImportKind::GlobUse));
    assert_eq!(import_kind_from_str("Import"), None);
}

#[test]
fn unknown_def_kind_is_a_typed_error() {
    let d = sample_analysis().defs.remove(0);
    let j = encode_def(&d);
    let bad = match j {
        Json::Obj(mut es) => {
            es[1].1 = Json::Str("Bogus".to_owned());
            Json::Obj(es)
        }
        other => other,
    };
    assert_eq!(
        decode_def(&bad),
        Err(DecodeError::UnknownVariant { field: "kind".to_owned(), value: "Bogus".to_owned() })
    );
}

#[test]
fn wrong_shape_is_a_structure_error() {
    assert_eq!(decode_span(&Json::Null), Err(DecodeError::Structure));
    assert_eq!(decode_analysis(&Json::Arr(vec![])), Err(DecodeError::Structure));
    let s = sample_span();
    let j = encode_span(&s);
    let bad = match j {
        Json::Obj(mut es) => {
            es[0].1 = Json::UInt(u64::MAX);
            Json::Obj(es)
        }
        other => other,
    };
    assert_eq!(decode_span(&bad), Err(DecodeError::Structure));
}
