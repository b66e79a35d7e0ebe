//! Strict decoding of a parsed JSON tree into the record model.
//!
//! Every decoder is total over [`Json`] and mirrors a specification function
//! over [`JsonV`] exactly. An object must hold exactly the record's fields,
//! in sorted key order — the order in which the JSON parser hands entries
//! out. Enum-tagged fields are bare strings matched against the closed
//! variant set; an unknown tag is an [`DecodeError::UnknownVariant`], any
//! other shape surprise a [`DecodeError::Structure`].

use vstd::prelude::*;

use crate::json::{Json, JsonV};
use crate::model::{
    Analysis, AnalysisV, CompilerId, CratePreludeData, CratePreludeDataV, Def, DefKind, DefV,
    ExternalCrateData, ExternalCrateDataV, Import, ImportKind, ImportV, MacroRef, MacroRefV, Ref,
    RefKind, RefV, SpanData, SpanDataV,
};
use crate::strutil::str_eq;

verus! {

broadcast use {vstd::seq::group_seq_axioms, vstd::std_specs::vec::group_vec_axioms};

/// Why one artifact failed to decode.
#[derive(Debug, Clone, PartialEq)]
pub enum DecodeError {
    /// An enum-tagged field held a string outside the closed variant set.
    UnknownVariant { field: String, value: String },
    /// The tree did not have the shape the schema asks for.
    Structure,
}

/// Mathematical mirror of [`DecodeError`].
#[verifier::ext_equal]
pub enum DecodeErrorV {
    UnknownVariant { field: Seq<char>, value: Seq<char> },
    Structure,
}

impl DeepView for DecodeError {
    type V = DecodeErrorV;

    open spec fn deep_view(&self) -> DecodeErrorV {
        match self {
            DecodeError::UnknownVariant { field, value } => DecodeErrorV::UnknownVariant {
                field: field@,
                value: value@,
            },
            DecodeError::Structure => DecodeErrorV::Structure,
        }
    }
}

// ---------------------------------------------------------------------------
// Leaf values
// ---------------------------------------------------------------------------

/// A 32-bit unsigned field value, where the JSON value holds one.
pub open spec fn spec_u32(v: JsonV) -> Option<u32> {
    match v {
        JsonV::UInt(n) => if n <= u32::MAX as u64 {
            Some(n as u32)
        } else {
            None
        },
        _ => None,
    }
}

/// A pointer-sized unsigned field value, where the JSON value holds one.
pub open spec fn spec_usize(v: JsonV) -> Option<usize> {
    match v {
        JsonV::UInt(n) => if n <= usize::MAX as u64 {
            Some(n as usize)
        } else {
            None
        },
        _ => None,
    }
}

/// A string field value, where the JSON value holds one.
pub open spec fn spec_str(v: JsonV) -> Option<Seq<char>> {
    match v {
        JsonV::Str(s) => Some(s),
        _ => None,
    }
}

fn get_u32(v: &Json) -> (r: Option<u32>)
    ensures
        r == spec_u32(v.deep_view()),
{
    match v {
        Json::UInt(n) => if *n <= u32::MAX as u64 {
            Some(*n as u32)
        } else {
            None
        },
        _ => None,
    }
}

fn get_usize(v: &Json) -> (r: Option<usize>)
    ensures
        r == spec_usize(v.deep_view()),
{
    match v {
        Json::UInt(n) => if *n <= usize::MAX as u64 {
            Some(*n as usize)
        } else {
            None
        },
        _ => None,
    }
}

fn get_str_ref<'a>(v: &'a Json) -> (r: Option<&'a String>)
    ensures
        r is Some <==> spec_str(v.deep_view()) is Some,
        r matches Some(s) ==> spec_str(v.deep_view()) == Some(s@),
{
    match v {
        Json::Str(s) => Some(s),
        _ => None,
    }
}

fn get_string(v: &Json) -> (r: Option<String>)
    ensures
        r is Some <==> spec_str(v.deep_view()) is Some,
        r matches Some(s) ==> spec_str(v.deep_view()) == Some(s@),
{
    match v {
        Json::Str(s) => Some(s.clone()),
        _ => None,
    }
}

// ---------------------------------------------------------------------------
// Tagged enums
// ---------------------------------------------------------------------------

/// The definition kind a tag string names, if any.
pub open spec fn spec_def_kind(s: Seq<char>) -> Option<DefKind> {
    if s == "Enum"@ {
        Some(DefKind::Enum)
    } else if s == "Tuple"@ {
        Some(DefKind::Tuple)
    } else if s == "Struct"@ {
        Some(DefKind::Struct)
    } else if s == "Trait"@ {
        Some(DefKind::Trait)
    } else if s == "Function"@ {
        Some(DefKind::Function)
    } else if s == "Macro"@ {
        Some(DefKind::Macro)
    } else if s == "Mod"@ {
        Some(DefKind::Mod)
    } else if s == "Type"@ {
        Some(DefKind::Type)
    } else if s == "Variable"@ {
        Some(DefKind::Variable)
    } else {
        None
    }
}

/// The reference kind a tag string names, if any.
pub open spec fn spec_ref_kind(s: Seq<char>) -> Option<RefKind> {
    if s == "Function"@ {
        Some(RefKind::Function)
    } else if s == "Mod"@ {
        Some(RefKind::Mod)
    } else if s == "Type"@ {
        Some(RefKind::Type)
    } else if s == "Variable"@ {
        Some(RefKind::Variable)
    } else {
        None
    }
}

/// The import kind a tag string names, if any.
pub open spec fn spec_import_kind(s: Seq<char>) -> Option<ImportKind> {
    if s == "ExternCrate"@ {
        Some(ImportKind::ExternCrate)
    } else if s == "Use"@ {
        Some(ImportKind::Use)
    } else if s == "GlobUse"@ {
        Some(ImportKind::GlobUse)
    } else {
        None
    }
}

/// The error a rejected tag string decodes to: the field is always `kind`.
pub open spec fn spec_unknown_kind(s: Seq<char>) -> DecodeErrorV {
    DecodeErrorV::UnknownVariant { field: "kind"@, value: s }
}

fn unknown_kind(s: &String) -> (r: DecodeError)
    ensures
        r.deep_view() == spec_unknown_kind(s@),
{
    DecodeError::UnknownVariant { field: "kind".to_owned(), value: s.clone() }
}

/// Decodes a definition-kind tag string.
pub fn def_kind_from_str(s: &str) -> (r: Option<DefKind>)
    ensures
        r == spec_def_kind(s@),
{
    if str_eq(s, "Enum") {
        Some(DefKind::Enum)
    } else if str_eq(s, "Tuple") {
        Some(DefKind::Tuple)
    } else if str_eq(s, "Struct") {
        Some(DefKind::Struct)
    } else if str_eq(s, "Trait") {
        Some(DefKind::Trait)
    } else if str_eq(s, "Function") {
        Some(DefKind::Function)
    } else if str_eq(s, "Macro") {
        Some(DefKind::Macro)
    } else if str_eq(s, "Mod") {
        Some(DefKind::Mod)
    } else if str_eq(s, "Type") {
        Some(DefKind::Type)
    } else if str_eq(s, "Variable") {
        Some(DefKind::Variable)
    } else {
        None
    }
}

/// Decodes a reference-kind tag string.
pub fn ref_kind_from_str(s: &str) -> (r: Option<RefKind>)
    ensures
        r == spec_ref_kind(s@),
{
    if str_eq(s, "Function") {
        Some(RefKind::Function)
    } else if str_eq(s, "Mod") {
        Some(RefKind::Mod)
    } else if str_eq(s, "Type") {
        Some(RefKind::Type)
    } else if str_eq(s, "Variable") {
        Some(RefKind::Variable)
    } else {
        None
    }
}

/// Decodes an import-kind tag string.
pub fn import_kind_from_str(s: &str) -> (r: Option<ImportKind>)
    ensures
        r == spec_import_kind(s@),
{
    if str_eq(s, "ExternCrate") {
        Some(ImportKind::ExternCrate)
    } else if str_eq(s, "Use") {
        Some(ImportKind::Use)
    } else if str_eq(s, "GlobUse") {
        Some(ImportKind::GlobUse)
    } else {
        None
    }
}

// ---------------------------------------------------------------------------
// Records
// ---------------------------------------------------------------------------

/// Decoding of a compiler identity: an object of exactly `container_id` and
/// `local_index`.
pub open spec fn spec_decode_compiler_id(j: JsonV) -> Result<CompilerId, DecodeErrorV> {
    match j {
        JsonV::Obj(es) => if es.len() == 2 && es[0].0 == "container_id"@ && es[1].0
            == "local_index"@ && spec_u32(es[0].1) is Some && spec_u32(es[1].1) is Some {
            Ok(
                CompilerId {
                    container_id: spec_u32(es[0].1)->0,
                    local_index: spec_u32(es[1].1)->0,
                },
            )
        } else {
            Err(DecodeErrorV::Structure)
        },
        _ => Err(DecodeErrorV::Structure),
    }
}

/// Decodes a compiler identity.
pub fn decode_compiler_id(j: &Json) -> (r: Result<CompilerId, DecodeError>)
    ensures
        r matches Ok(v) ==> spec_decode_compiler_id(j.deep_view()) == Ok::<
            CompilerId,
            DecodeErrorV,
        >(v),
        r matches Err(e) ==> spec_decode_compiler_id(j.deep_view()) == Err::<
            CompilerId,
            DecodeErrorV,
        >(e.deep_view()),
{
    let entries = match j {
        Json::Obj(es) => es,
        _ => { return Err(DecodeError::Structure) },
    };
    if entries.len() != 2 {
        return Err(DecodeError::Structure);
    }
    if !(str_eq(entries[0].0.as_str(), "container_id") && str_eq(
        entries[1].0.as_str(),
        "local_index",
    )) {
        return Err(DecodeError::Structure);
    }
    let container_id = match get_u32(&entries[0].1) {
        Some(n) => n,
        None => { return Err(DecodeError::Structure) },
    };
    let local_index = match get_u32(&entries[1].1) {
        Some(n) => n,
        None => { return Err(DecodeError::Structure) },
    };
    Ok(CompilerId { container_id, local_index })
}

/// Decoding of a span: an object of exactly the seven span fields.
pub open spec fn spec_decode_span(j: JsonV) -> Result<SpanDataV, DecodeErrorV> {
    match j {
        JsonV::Obj(es) => if es.len() == 7 && es[0].0 == "byte_end"@ && es[1].0 == "byte_start"@
            && es[2].0 == "column_end"@ && es[3].0 == "column_start"@ && es[4].0 == "file_name"@
            && es[5].0 == "line_end"@ && es[6].0 == "line_start"@ && spec_u32(es[0].1) is Some
            && spec_u32(es[1].1) is Some && spec_usize(es[2].1) is Some && spec_usize(
            es[3].1,
        ) is Some && spec_str(es[4].1) is Some && spec_usize(es[5].1) is Some && spec_usize(
            es[6].1,
        ) is Some {
            Ok(
                SpanDataV {
                    byte_end: spec_u32(es[0].1)->0,
                    byte_start: spec_u32(es[1].1)->0,
                    column_end: spec_usize(es[2].1)->0,
                    column_start: spec_usize(es[3].1)->0,
                    file_name: spec_str(es[4].1)->0,
                    line_end: spec_usize(es[5].1)->0,
                    line_start: spec_usize(es[6].1)->0,
                },
            )
        } else {
            Err(DecodeErrorV::Structure)
        },
        _ => Err(DecodeErrorV::Structure),
    }
}

/// Decodes a span.
pub fn decode_span(j: &Json) -> (r: Result<SpanData, DecodeError>)
    ensures
        r matches Ok(v) ==> spec_decode_span(j.deep_view()) == Ok::<SpanDataV, DecodeErrorV>(
            v.deep_view(),
        ),
        r matches Err(e) ==> spec_decode_span(j.deep_view()) == Err::<SpanDataV, DecodeErrorV>(
            e.deep_view(),
        ),
{
    let entries = match j {
        Json::Obj(es) => es,
        _ => { return Err(DecodeError::Structure) },
    };
    if entries.len() != 7 {
        return Err(DecodeError::Structure);
    }
    if !(str_eq(entries[0].0.as_str(), "byte_end") && str_eq(entries[1].0.as_str(), "byte_start")
        && str_eq(entries[2].0.as_str(), "column_end") && str_eq(
        entries[3].0.as_str(),
        "column_start",
    ) && str_eq(entries[4].0.as_str(), "file_name") && str_eq(entries[5].0.as_str(), "line_end")
        && str_eq(entries[6].0.as_str(), "line_start")) {
        return Err(DecodeError::Structure);
    }
    let byte_end = match get_u32(&entries[0].1) {
        Some(n) => n,
        None => { return Err(DecodeError::Structure) },
    };
    let byte_start = match get_u32(&entries[1].1) {
        Some(n) => n,
        None => { return Err(DecodeError::Structure) },
    };
    let column_end = match get_usize(&entries[2].1) {
        Some(n) => n,
        None => { return Err(DecodeError::Structure) },
    };
    let column_start = match get_usize(&entries[3].1) {
        Some(n) => n,
        None => { return Err(DecodeError::Structure) },
    };
    let file_name = match get_string(&entries[4].1) {
        Some(s) => s,
        None => { return Err(DecodeError::Structure) },
    };
    let line_end = match get_usize(&entries[5].1) {
        Some(n) => n,
        None => { return Err(DecodeError::Structure) },
    };
    let line_start = match get_usize(&entries[6].1) {
        Some(n) => n,
        None => { return Err(DecodeError::Structure) },
    };
    Ok(
        SpanData {
            file_name,
            byte_start,
            byte_end,
            line_start,
            line_end,
            column_start,
            column_end,
        },
    )
}

// ---------------------------------------------------------------------------
// Sequences of records
// ---------------------------------------------------------------------------

/// Decoding of a whole sequence: every element must decode, and the error of
/// the leftmost failing element is the sequence's error.
pub open spec fn spec_decode_seq<T>(
    items: Seq<JsonV>,
    f: spec_fn(JsonV) -> Result<T, DecodeErrorV>,
) -> Result<Seq<T>, DecodeErrorV>
    decreases items.len(),
{
    if items.len() == 0 {
        Ok(Seq::empty())
    } else {
        match spec_decode_seq(items.drop_last(), f) {
            Err(e) => Err(e),
            Ok(rest) => match f(items.last()) {
                Ok(t) => Ok(rest.push(t)),
                Err(e) => Err(e),
            },
        }
    }
}

/// Once a prefix fails to decode, the whole sequence fails the same way.
pub proof fn lemma_decode_seq_prefix_err<T>(
    items: Seq<JsonV>,
    f: spec_fn(JsonV) -> Result<T, DecodeErrorV>,
    i: int,
)
    requires
        0 <= i <= items.len(),
        spec_decode_seq(items.take(i), f) is Err,
    ensures
        spec_decode_seq(items, f) == spec_decode_seq(items.take(i), f),
    decreases items.len() - i,
{
    if i == items.len() {
        assert(items.take(i) =~= items);
    } else {
        assert(items.take(i + 1).drop_last() =~= items.take(i));
        lemma_decode_seq_prefix_err(items, f, i + 1);
    }
}

/// Decoding of a definition-record array field.
pub open spec fn spec_decode_def_array(v: JsonV) -> Result<Seq<DefV>, DecodeErrorV> {
    match v {
        JsonV::Arr(items) => spec_decode_seq(items, |x: JsonV| spec_decode_def(x)),
        _ => Err(DecodeErrorV::Structure),
    }
}

/// Decoding of a reference-record array field.
pub open spec fn spec_decode_ref_array(v: JsonV) -> Result<Seq<RefV>, DecodeErrorV> {
    match v {
        JsonV::Arr(items) => spec_decode_seq(items, |x: JsonV| spec_decode_ref(x)),
        _ => Err(DecodeErrorV::Structure),
    }
}

/// Decoding of an import-record array field.
pub open spec fn spec_decode_import_array(v: JsonV) -> Result<Seq<ImportV>, DecodeErrorV> {
    match v {
        JsonV::Arr(items) => spec_decode_seq(items, |x: JsonV| spec_decode_import(x)),
        _ => Err(DecodeErrorV::Structure),
    }
}

/// Decoding of a macro-reference-record array field.
pub open spec fn spec_decode_macro_ref_array(v: JsonV) -> Result<Seq<MacroRefV>, DecodeErrorV> {
    match v {
        JsonV::Arr(items) => spec_decode_seq(items, |x: JsonV| spec_decode_macro_ref(x)),
        _ => Err(DecodeErrorV::Structure),
    }
}

/// Decoding of an external-crate-record array field.
pub open spec fn spec_decode_external_crate_array(v: JsonV) -> Result<
    Seq<ExternalCrateDataV>,
    DecodeErrorV,
> {
    match v {
        JsonV::Arr(items) => spec_decode_seq(items, |x: JsonV| spec_decode_external_crate(x)),
        _ => Err(DecodeErrorV::Structure),
    }
}

// ---------------------------------------------------------------------------
// Remaining records
// ---------------------------------------------------------------------------

/// Decoding of one external-crate record: an object of exactly `file_name`,
/// `name` and `ordinal`.
pub open spec fn spec_decode_external_crate(j: JsonV) -> Result<ExternalCrateDataV, DecodeErrorV> {
    match j {
        JsonV::Obj(es) => if es.len() == 3 && es[0].0 == "file_name"@ && es[1].0 == "name"@
            && es[2].0 == "ordinal"@ && spec_str(es[0].1) is Some && spec_str(es[1].1) is Some
            && spec_u32(es[2].1) is Some {
            Ok(
                ExternalCrateDataV {
                    file_name: spec_str(es[0].1)->0,
                    name: spec_str(es[1].1)->0,
                    ordinal: spec_u32(es[2].1)->0,
                },
            )
        } else {
            Err(DecodeErrorV::Structure)
        },
        _ => Err(DecodeErrorV::Structure),
    }
}

/// Decodes one external-crate record.
pub fn decode_external_crate(j: &Json) -> (r: Result<ExternalCrateData, DecodeError>)
    ensures
        r matches Ok(v) ==> spec_decode_external_crate(j.deep_view()) == Ok::<
            ExternalCrateDataV,
            DecodeErrorV,
        >(v.deep_view()),
        r matches Err(e) ==> spec_decode_external_crate(j.deep_view()) == Err::<
            ExternalCrateDataV,
            DecodeErrorV,
        >(e.deep_view()),
{
    let entries = match j {
        Json::Obj(es) => es,
        _ => { return Err(DecodeError::Structure) },
    };
    if entries.len() != 3 {
        return Err(DecodeError::Structure);
    }
    if !(str_eq(entries[0].0.as_str(), "file_name") && str_eq(entries[1].0.as_str(), "name")
        && str_eq(entries[2].0.as_str(), "ordinal")) {
        return Err(DecodeError::Structure);
    }
    let file_name = match get_string(&entries[0].1) {
        Some(s) => s,
        None => { return Err(DecodeError::Structure) },
    };
    let name = match get_string(&entries[1].1) {
        Some(s) => s,
        None => { return Err(DecodeError::Structure) },
    };
    let ordinal = match get_u32(&entries[2].1) {
        Some(n) => n,
        None => { return Err(DecodeError::Structure) },
    };
    Ok(ExternalCrateData { name, ordinal, file_name })
}

/// Decoding of a definition record: an object of exactly `id`, `kind`,
/// `name`, `qualified_name`, `span` and `value`, in that order, where the
/// `kind` tag must name a [`DefKind`].
pub open spec fn spec_decode_def(j: JsonV) -> Result<DefV, DecodeErrorV> {
    match j {
        JsonV::Obj(es) => if es.len() == 6 && es[0].0 == "id"@ && es[1].0 == "kind"@ && es[2].0
            == "name"@ && es[3].0 == "qualified_name"@ && es[4].0 == "span"@ && es[5].0
            == "value"@ {
            match spec_decode_compiler_id(es[0].1) {
                Err(e) => Err(e),
                Ok(id) => match spec_str(es[1].1) {
                    None => Err(DecodeErrorV::Structure),
                    Some(tag) => match spec_def_kind(tag) {
                        None => Err(spec_unknown_kind(tag)),
                        Some(kind) => if spec_str(es[2].1) is Some && spec_str(es[3].1) is Some
                            && spec_str(es[5].1) is Some {
                            match spec_decode_span(es[4].1) {
                                Err(e) => Err(e),
                                Ok(span) => Ok(
                                    DefV {
                                        kind,
                                        id,
                                        span,
                                        name: spec_str(es[2].1)->0,
                                        qualified_name: spec_str(es[3].1)->0,
                                        value: spec_str(es[5].1)->0,
                                    },
                                ),
                            }
                        } else {
                            Err(DecodeErrorV::Structure)
                        },
                    },
                },
            }
        } else {
            Err(DecodeErrorV::Structure)
        },
        _ => Err(DecodeErrorV::Structure),
    }
}

/// Decodes a definition record.
pub fn decode_def(j: &Json) -> (r: Result<Def, DecodeError>)
    ensures
        r matches Ok(v) ==> spec_decode_def(j.deep_view()) == Ok::<DefV, DecodeErrorV>(
            v.deep_view(),
        ),
        r matches Err(e) ==> spec_decode_def(j.deep_view()) == Err::<DefV, DecodeErrorV>(
            e.deep_view(),
        ),
{
    let entries = match j {
        Json::Obj(es) => es,
        _ => { return Err(DecodeError::Structure) },
    };
    if entries.len() != 6 {
        return Err(DecodeError::Structure);
    }
    if !(str_eq(entries[0].0.as_str(), "id") && str_eq(entries[1].0.as_str(), "kind") && str_eq(
        entries[2].0.as_str(),
        "name",
    ) && str_eq(entries[3].0.as_str(), "qualified_name") && str_eq(entries[4].0.as_str(), "span")
        && str_eq(entries[5].0.as_str(), "value")) {
        return Err(DecodeError::Structure);
    }
    let id = match decode_compiler_id(&entries[0].1) {
        Ok(v) => v,
        Err(e) => { return Err(e) },
    };
    let tag = match get_str_ref(&entries[1].1) {
        Some(s) => s,
        None => { return Err(DecodeError::Structure) },
    };
    let kind = match def_kind_from_str(tag.as_str()) {
        Some(k) => k,
        None => { return Err(unknown_kind(tag)) },
    };
    let name = match get_string(&entries[2].1) {
        Some(s) => s,
        None => { return Err(DecodeError::Structure) },
    };
    let qualified_name = match get_string(&entries[3].1) {
        Some(s) => s,
        None => { return Err(DecodeError::Structure) },
    };
    let value = match get_string(&entries[5].1) {
        Some(s) => s,
        None => { return Err(DecodeError::Structure) },
    };
    let span = match decode_span(&entries[4].1) {
        Ok(v) => v,
        Err(e) => { return Err(e) },
    };
    Ok(Def { kind, id, span, name, qualified_name, value })
}

/// Decoding of a reference record: an object of exactly `kind`, `ref_id` and
/// `span`, where the `kind` tag must name a [`RefKind`].
pub open spec fn spec_decode_ref(j: JsonV) -> Result<RefV, DecodeErrorV> {
    match j {
        JsonV::Obj(es) => if es.len() == 3 && es[0].0 == "kind"@ && es[1].0 == "ref_id"@ && es[2].0
            == "span"@ {
            match spec_str(es[0].1) {
                None => Err(DecodeErrorV::Structure),
                Some(tag) => match spec_ref_kind(tag) {
                    None => Err(spec_unknown_kind(tag)),
                    Some(kind) => match spec_decode_compiler_id(es[1].1) {
                        Err(e) => Err(e),
                        Ok(ref_id) => match spec_decode_span(es[2].1) {
                            Err(e) => Err(e),
                            Ok(span) => Ok(RefV { kind, span, ref_id }),
                        },
                    },
                },
            }
        } else {
            Err(DecodeErrorV::Structure)
        },
        _ => Err(DecodeErrorV::Structure),
    }
}

/// Decodes a reference record.
pub fn decode_ref(j: &Json) -> (r: Result<Ref, DecodeError>)
    ensures
        r matches Ok(v) ==> spec_decode_ref(j.deep_view()) == Ok::<RefV, DecodeErrorV>(
            v.deep_view(),
        ),
        r matches Err(e) ==> spec_decode_ref(j.deep_view()) == Err::<RefV, DecodeErrorV>(
            e.deep_view(),
        ),
{
    let entries = match j {
        Json::Obj(es) => es,
        _ => { return Err(DecodeError::Structure) },
    };
    if entries.len() != 3 {
        return Err(DecodeError::Structure);
    }
    if !(str_eq(entries[0].0.as_str(), "kind") && str_eq(entries[1].0.as_str(), "ref_id")
        && str_eq(entries[2].0.as_str(), "span")) {
        return Err(DecodeError::Structure);
    }
    let tag = match get_str_ref(&entries[0].1) {
        Some(s) => s,
        None => { return Err(DecodeError::Structure) },
    };
    let kind = match ref_kind_from_str(tag.as_str()) {
        Some(k) => k,
        None => { return Err(unknown_kind(tag)) },
    };
    let ref_id = match decode_compiler_id(&entries[1].1) {
        Ok(v) => v,
        Err(e) => { return Err(e) },
    };
    let span = match decode_span(&entries[2].1) {
        Ok(v) => v,
        Err(e) => { return Err(e) },
    };
    Ok(Ref { kind, span, ref_id })
}

/// Decoding of a macro-reference record: an object of exactly `callee_span`,
/// `qualified_name` and `span`.
pub open spec fn spec_decode_macro_ref(j: JsonV) -> Result<MacroRefV, DecodeErrorV> {
    match j {
        JsonV::Obj(es) => if es.len() == 3 && es[0].0 == "callee_span"@ && es[1].0
            == "qualified_name"@ && es[2].0 == "span"@ {
            match spec_decode_span(es[0].1) {
                Err(e) => Err(e),
                Ok(callee_span) => if spec_str(es[1].1) is Some {
                    match spec_decode_span(es[2].1) {
                        Err(e) => Err(e),
                        Ok(span) => Ok(
                            MacroRefV { span, qualified_name: spec_str(es[1].1)->0, callee_span },
                        ),
                    }
                } else {
                    Err(DecodeErrorV::Structure)
                },
            }
        } else {
            Err(DecodeErrorV::Structure)
        },
        _ => Err(DecodeErrorV::Structure),
    }
}

/// Decodes a macro-reference record.
pub fn decode_macro_ref(j: &Json) -> (r: Result<MacroRef, DecodeError>)
    ensures
        r matches Ok(v) ==> spec_decode_macro_ref(j.deep_view()) == Ok::<MacroRefV, DecodeErrorV>(
            v.deep_view(),
        ),
        r matches Err(e) ==> spec_decode_macro_ref(j.deep_view()) == Err::<
            MacroRefV,
            DecodeErrorV,
        >(e.deep_view()),
{
    let entries = match j {
        Json::Obj(es) => es,
        _ => { return Err(DecodeError::Structure) },
    };
    if entries.len() != 3 {
        return Err(DecodeError::Structure);
    }
    if !(str_eq(entries[0].0.as_str(), "callee_span") && str_eq(
        entries[1].0.as_str(),
        "qualified_name",
    ) && str_eq(entries[2].0.as_str(), "span")) {
        return Err(DecodeError::Structure);
    }
    let callee_span = match decode_span(&entries[0].1) {
        Ok(v) => v,
        Err(e) => { return Err(e) },
    };
    let qualified_name = match get_string(&entries[1].1) {
        Some(s) => s,
        None => { return Err(DecodeError::Structure) },
    };
    let span = match decode_span(&entries[2].1) {
        Ok(v) => v,
        Err(e) => { return Err(e) },
    };
    Ok(MacroRef { span, qualified_name, callee_span })
}

/// Decoding of an import record: an object of exactly `id`, `kind`, `name`,
/// `span` and `value`, where the `kind` tag must name an [`ImportKind`].
pub open spec fn spec_decode_import(j: JsonV) -> Result<ImportV, DecodeErrorV> {
    match j {
        JsonV::Obj(es) => if es.len() == 5 && es[0].0 == "id"@ && es[1].0 == "kind"@ && es[2].0
            == "name"@ && es[3].0 == "span"@ && es[4].0 == "value"@ {
            match spec_decode_compiler_id(es[0].1) {
                Err(e) => Err(e),
                Ok(id) => match spec_str(es[1].1) {
                    None => Err(DecodeErrorV::Structure),
                    Some(tag) => match spec_import_kind(tag) {
                        None => Err(spec_unknown_kind(tag)),
                        Some(kind) => if spec_str(es[2].1) is Some && spec_str(es[4].1) is Some {
                            match spec_decode_span(es[3].1) {
                                Err(e) => Err(e),
                                Ok(span) => Ok(
                                    ImportV {
                                        kind,
                                        id,
                                        span,
                                        name: spec_str(es[2].1)->0,
                                        value: spec_str(es[4].1)->0,
                                    },
                                ),
                            }
                        } else {
                            Err(DecodeErrorV::Structure)
                        },
                    },
                },
            }
        } else {
            Err(DecodeErrorV::Structure)
        },
        _ => Err(DecodeErrorV::Structure),
    }
}

/// Decodes an import record.
pub fn decode_import(j: &Json) -> (r: Result<Import, DecodeError>)
    ensures
        r matches Ok(v) ==> spec_decode_import(j.deep_view()) == Ok::<ImportV, DecodeErrorV>(
            v.deep_view(),
        ),
        r matches Err(e) ==> spec_decode_import(j.deep_view()) == Err::<ImportV, DecodeErrorV>(
            e.deep_view(),
        ),
{
    let entries = match j {
        Json::Obj(es) => es,
        _ => { return Err(DecodeError::Structure) },
    };
    if entries.len() != 5 {
        return Err(DecodeError::Structure);
    }
    if !(str_eq(entries[0].0.as_str(), "id") && str_eq(entries[1].0.as_str(), "kind") && str_eq(
        entries[2].0.as_str(),
        "name",
    ) && str_eq(entries[3].0.as_str(), "span") && str_eq(entries[4].0.as_str(), "value")) {
        return Err(DecodeError::Structure);
    }
    let id = match decode_compiler_id(&entries[0].1) {
        Ok(v) => v,
        Err(e) => { return Err(e) },
    };
    let tag = match get_str_ref(&entries[1].1) {
        Some(s) => s,
        None => { return Err(DecodeError::Structure) },
    };
    let kind = match import_kind_from_str(tag.as_str()) {
        Some(k) => k,
        None => { return Err(unknown_kind(tag)) },
    };
    let name = match get_string(&entries[2].1) {
        Some(s) => s,
        None => { return Err(DecodeError::Structure) },
    };
    let value = match get_string(&entries[4].1) {
        Some(s) => s,
        None => { return Err(DecodeError::Structure) },
    };
    let span = match decode_span(&entries[3].1) {
        Ok(v) => v,
        Err(e) => { return Err(e) },
    };
    Ok(Import { kind, id, span, name, value })
}
// ---------------------------------------------------------------------------
// Record arrays, the prelude, and the whole artifact
// ---------------------------------------------------------------------------

fn decode_def_vec(v: &Json) -> (r: Result<Vec<Def>, DecodeError>)
    ensures
        r matches Ok(out) ==> spec_decode_def_array(v.deep_view()) == Ok::<Seq<DefV>, DecodeErrorV>(
            out.deep_view(),
        ),
        r matches Err(e) ==> spec_decode_def_array(v.deep_view()) == Err::<
            Seq<DefV>,
            DecodeErrorV,
        >(e.deep_view()),
{
    let items = match v {
        Json::Arr(its) => its,
        _ => { return Err(DecodeError::Structure) },
    };
        let ghost vws = v.deep_view()->Arr_0;
    let mut out: Vec<Def> = Vec::new();
    let mut i: usize = 0;
    proof {
        assert(vws.take(0) =~= Seq::<JsonV>::empty());
        assert(out.deep_view() =~= Seq::<DefV>::empty());
    }
    while i < items.len()
        invariant
            i <= items@.len(),
            vws.len() == items@.len(),
            v.deep_view() == JsonV::Arr(vws),
            forall|k: int| 0 <= k < items@.len() ==> vws[k] == items@[k].deep_view(),
            spec_decode_seq(vws.take(i as int), (|x: JsonV| spec_decode_def(x))) == Ok::<Seq<DefV>, DecodeErrorV>(
                out.deep_view(),
            ),
        decreases items@.len() - i,
    {
        match decode_def(&items[i]) {
            Ok(d) => {
                let ghost prev = out.deep_view();
                out.push(d);
                proof {
                    assert(out.deep_view() =~= prev.push(d.deep_view()));
                    assert(vws.take(i as int + 1).drop_last() =~= vws.take(i as int));
                    assert(vws.take(i as int + 1).last() == vws[i as int]);
                }
            },
            Err(e) => {
                proof {
                    assert(vws.take(i as int + 1).drop_last() =~= vws.take(i as int));
                    assert(vws.take(i as int + 1).last() == vws[i as int]);
                    lemma_decode_seq_prefix_err(vws, |x: JsonV| spec_decode_def(x), i as int + 1);
                }
                return Err(e);
            },
        }
        i += 1;
    }
    proof {
        assert(vws.take(i as int) =~= vws);
    }
    Ok(out)
}

fn decode_ref_vec(v: &Json) -> (r: Result<Vec<Ref>, DecodeError>)
    ensures
        r matches Ok(out) ==> spec_decode_ref_array(v.deep_view()) == Ok::<Seq<RefV>, DecodeErrorV>(
            out.deep_view(),
        ),
        r matches Err(e) ==> spec_decode_ref_array(v.deep_view()) == Err::<
            Seq<RefV>,
            DecodeErrorV,
        >(e.deep_view()),
{
    let items = match v {
        Json::Arr(its) => its,
        _ => { return Err(DecodeError::Structure) },
    };
        let ghost vws = v.deep_view()->Arr_0;
    let mut out: Vec<Ref> = Vec::new();
    let mut i: usize = 0;
    proof {
        assert(vws.take(0) =~= Seq::<JsonV>::empty());
        assert(out.deep_view() =~= Seq::<RefV>::empty());
    }
    while i < items.len()
        invariant
            i <= items@.len(),
            vws.len() == items@.len(),
            v.deep_view() == JsonV::Arr(vws),
            forall|k: int| 0 <= k < items@.len() ==> vws[k] == items@[k].deep_view(),
            spec_decode_seq(vws.take(i as int), (|x: JsonV| spec_decode_ref(x))) == Ok::<Seq<RefV>, DecodeErrorV>(
                out.deep_view(),
            ),
        decreases items@.len() - i,
    {
        match decode_ref(&items[i]) {
            Ok(d) => {
                let ghost prev = out.deep_view();
                out.push(d);
                proof {
                    assert(out.deep_view() =~= prev.push(d.deep_view()));
                    assert(vws.take(i as int + 1).drop_last() =~= vws.take(i as int));
                    assert(vws.take(i as int + 1).last() == vws[i as int]);
                }
            },
            Err(e) => {
                proof {
                    assert(vws.take(i as int + 1).drop_last() =~= vws.take(i as int));
                    assert(vws.take(i as int + 1).last() == vws[i as int]);
                    lemma_decode_seq_prefix_err(vws, |x: JsonV| spec_decode_ref(x), i as int + 1);
                }
                return Err(e);
            },
        }
        i += 1;
    }
    proof {
        assert(vws.take(i as int) =~= vws);
    }
    Ok(out)
}

fn decode_import_vec(v: &Json) -> (r: Result<Vec<Import>, DecodeError>)
    ensures
        r matches Ok(out) ==> spec_decode_import_array(v.deep_view()) == Ok::<
            Seq<ImportV>,
            DecodeErrorV,
        >(out.deep_view()),
        r matches Err(e) ==> spec_decode_import_array(v.deep_view()) == Err::<
            Seq<ImportV>,
            DecodeErrorV,
        >(e.deep_view()),
{
    let items = match v {
        Json::Arr(its) => its,
        _ => { return Err(DecodeError::Structure) },
    };
        let ghost vws = v.deep_view()->Arr_0;
    let mut out: Vec<Import> = Vec::new();
    let mut i: usize = 0;
    proof {
        assert(vws.take(0) =~= Seq::<JsonV>::empty());
        assert(out.deep_view() =~= Seq::<ImportV>::empty());
    }
    while i < items.len()
        invariant
            i <= items@.len(),
            vws.len() == items@.len(),
            v.deep_view() == JsonV::Arr(vws),
            forall|k: int| 0 <= k < items@.len() ==> vws[k] == items@[k].deep_view(),
            spec_decode_seq(vws.take(i as int), (|x: JsonV| spec_decode_import(x))) == Ok::<Seq<ImportV>, DecodeErrorV>(
                out.deep_view(),
            ),
        decreases items@.len() - i,
    {
        match decode_import(&items[i]) {
            Ok(d) => {
                let ghost prev = out.deep_view();
                out.push(d);
                proof {
                    assert(out.deep_view() =~= prev.push(d.deep_view()));
                    assert(vws.take(i as int + 1).drop_last() =~= vws.take(i as int));
                    assert(vws.take(i as int + 1).last() == vws[i as int]);
                }
            },
            Err(e) => {
                proof {
                    assert(vws.take(i as int + 1).drop_last() =~= vws.take(i as int));
                    assert(vws.take(i as int + 1).last() == vws[i as int]);
                    lemma_decode_seq_prefix_err(vws, |x: JsonV| spec_decode_import(x), i as int + 1);
                }
                return Err(e);
            },
        }
        i += 1;
    }
    proof {
        assert(vws.take(i as int) =~= vws);
    }
    Ok(out)
}

fn decode_macro_ref_vec(v: &Json) -> (r: Result<Vec<MacroRef>, DecodeError>)
    ensures
        r matches Ok(out) ==> spec_decode_macro_ref_array(v.deep_view()) == Ok::<
            Seq<MacroRefV>,
            DecodeErrorV,
        >(out.deep_view()),
        r matches Err(e) ==> spec_decode_macro_ref_array(v.deep_view()) == Err::<
            Seq<MacroRefV>,
            DecodeErrorV,
        >(e.deep_view()),
{
    let items = match v {
        Json::Arr(its) => its,
        _ => { return Err(DecodeError::Structure) },
    };
        let ghost vws = v.deep_view()->Arr_0;
    let mut out: Vec<MacroRef> = Vec::new();
    let mut i: usize = 0;
    proof {
        assert(vws.take(0) =~= Seq::<JsonV>::empty());
        assert(out.deep_view() =~= Seq::<MacroRefV>::empty());
    }
    while i < items.len()
        invariant
            i <= items@.len(),
            vws.len() == items@.len(),
            v.deep_view() == JsonV::Arr(vws),
            forall|k: int| 0 <= k < items@.len() ==> vws[k] == items@[k].deep_view(),
            spec_decode_seq(vws.take(i as int), (|x: JsonV| spec_decode_macro_ref(x))) == Ok::<Seq<MacroRefV>, DecodeErrorV>(
                out.deep_view(),
            ),
        decreases items@.len() - i,
    {
        match decode_macro_ref(&items[i]) {
            Ok(d) => {
                let ghost prev = out.deep_view();
                out.push(d);
                proof {
                    assert(out.deep_view() =~= prev.push(d.deep_view()));
                    assert(vws.take(i as int + 1).drop_last() =~= vws.take(i as int));
                    assert(vws.take(i as int + 1).last() == vws[i as int]);
                }
            },
            Err(e) => {
                proof {
                    assert(vws.take(i as int + 1).drop_last() =~= vws.take(i as int));
                    assert(vws.take(i as int + 1).last() == vws[i as int]);
                    lemma_decode_seq_prefix_err(vws, |x: JsonV| spec_decode_macro_ref(x), i as int + 1);
                }
                return Err(e);
            },
        }
        i += 1;
    }
    proof {
        assert(vws.take(i as int) =~= vws);
    }
    Ok(out)
}

fn decode_external_crate_vec(v: &Json) -> (r: Result<Vec<ExternalCrateData>, DecodeError>)
    ensures
        r matches Ok(out) ==> spec_decode_external_crate_array(v.deep_view()) == Ok::<
            Seq<ExternalCrateDataV>,
            DecodeErrorV,
        >(out.deep_view()),
        r matches Err(e) ==> spec_decode_external_crate_array(v.deep_view()) == Err::<
            Seq<ExternalCrateDataV>,
            DecodeErrorV,
        >(e.deep_view()),
{
    let items = match v {
        Json::Arr(its) => its,
        _ => { return Err(DecodeError::Structure) },
    };
        let ghost vws = v.deep_view()->Arr_0;
    let mut out: Vec<ExternalCrateData> = Vec::new();
    let mut i: usize = 0;
    proof {
        assert(vws.take(0) =~= Seq::<JsonV>::empty());
        assert(out.deep_view() =~= Seq::<ExternalCrateDataV>::empty());
    }
    while i < items.len()
        invariant
            i <= items@.len(),
            vws.len() == items@.len(),
            v.deep_view() == JsonV::Arr(vws),
            forall|k: int| 0 <= k < items@.len() ==> vws[k] == items@[k].deep_view(),
            spec_decode_seq(vws.take(i as int), (|x: JsonV| spec_decode_external_crate(x))) == Ok::<Seq<ExternalCrateDataV>, DecodeErrorV>(
                out.deep_view(),
            ),
        decreases items@.len() - i,
    {
        match decode_external_crate(&items[i]) {
            Ok(d) => {
                let ghost prev = out.deep_view();
                out.push(d);
                proof {
                    assert(out.deep_view() =~= prev.push(d.deep_view()));
                    assert(vws.take(i as int + 1).drop_last() =~= vws.take(i as int));
                    assert(vws.take(i as int + 1).last() == vws[i as int]);
                }
            },
            Err(e) => {
                proof {
                    assert(vws.take(i as int + 1).drop_last() =~= vws.take(i as int));
                    assert(vws.take(i as int + 1).last() == vws[i as int]);
                    lemma_decode_seq_prefix_err(vws, |x: JsonV| spec_decode_external_crate(x), i as int + 1);
                }
                return Err(e);
            },
        }
        i += 1;
    }
    proof {
        assert(vws.take(i as int) =~= vws);
    }
    Ok(out)
}

/// Decoding of a crate prelude: an object of exactly `crate_name`,
/// `crate_root`, `external_crates` and `span`.
pub open spec fn spec_decode_prelude(j: JsonV) -> Result<CratePreludeDataV, DecodeErrorV> {
    match j {
        JsonV::Obj(es) => if es.len() == 4 && es[0].0 == "crate_name"@ && es[1].0 == "crate_root"@
            && es[2].0 == "external_crates"@ && es[3].0 == "span"@ {
            if spec_str(es[0].1) is Some && spec_str(es[1].1) is Some {
                match spec_decode_external_crate_array(es[2].1) {
                    Err(e) => Err(e),
                    Ok(external_crates) => match spec_decode_span(es[3].1) {
                        Err(e) => Err(e),
                        Ok(span) => Ok(
                            CratePreludeDataV {
                                crate_name: spec_str(es[0].1)->0,
                                crate_root: spec_str(es[1].1)->0,
                                external_crates,
                                span,
                            },
                        ),
                    },
                }
            } else {
                Err(DecodeErrorV::Structure)
            }
        } else {
            Err(DecodeErrorV::Structure)
        },
        _ => Err(DecodeErrorV::Structure),
    }
}

/// Decodes a crate prelude.
pub fn decode_prelude(j: &Json) -> (r: Result<CratePreludeData, DecodeError>)
    ensures
        r matches Ok(v) ==> spec_decode_prelude(j.deep_view()) == Ok::<
            CratePreludeDataV,
            DecodeErrorV,
        >(v.deep_view()),
        r matches Err(e) ==> spec_decode_prelude(j.deep_view()) == Err::<
            CratePreludeDataV,
            DecodeErrorV,
        >(e.deep_view()),
{
    let entries = match j {
        Json::Obj(es) => es,
        _ => { return Err(DecodeError::Structure) },
    };
    if entries.len() != 4 {
        return Err(DecodeError::Structure);
    }
    if !(str_eq(entries[0].0.as_str(), "crate_name") && str_eq(
        entries[1].0.as_str(),
        "crate_root",
    ) && str_eq(entries[2].0.as_str(), "external_crates") && str_eq(
        entries[3].0.as_str(),
        "span",
    )) {
        return Err(DecodeError::Structure);
    }
    let crate_name = match get_string(&entries[0].1) {
        Some(s) => s,
        None => { return Err(DecodeError::Structure) },
    };
    let crate_root = match get_string(&entries[1].1) {
        Some(s) => s,
        None => { return Err(DecodeError::Structure) },
    };
    let external_crates = match decode_external_crate_vec(&entries[2].1) {
        Ok(v) => v,
        Err(e) => { return Err(e) },
    };
    let span = match decode_span(&entries[3].1) {
        Ok(v) => v,
        Err(e) => { return Err(e) },
    };
    Ok(CratePreludeData { crate_name, crate_root, external_crates, span })
}

/// Decoding of the optional prelude field: JSON `null` stands for none.
pub open spec fn spec_decode_prelude_opt(v: JsonV) -> Result<
    Option<CratePreludeDataV>,
    DecodeErrorV,
> {
    if v == JsonV::Null {
        Ok(None)
    } else {
        match spec_decode_prelude(v) {
            Ok(p) => Ok(Some(p)),
            Err(e) => Err(e),
        }
    }
}

/// Decoding of one whole artifact: an object of exactly `defs`, `imports`,
/// `macro_refs`, `prelude` and `refs`.
pub open spec fn spec_decode_analysis(j: JsonV) -> Result<AnalysisV, DecodeErrorV> {
    match j {
        JsonV::Obj(es) => if es.len() == 5 && es[0].0 == "defs"@ && es[1].0 == "imports"@
            && es[2].0 == "macro_refs"@ && es[3].0 == "prelude"@ && es[4].0 == "refs"@ {
            match spec_decode_def_array(es[0].1) {
                Err(e) => Err(e),
                Ok(defs) => match spec_decode_import_array(es[1].1) {
                    Err(e) => Err(e),
                    Ok(imports) => match spec_decode_macro_ref_array(es[2].1) {
                        Err(e) => Err(e),
                        Ok(macro_refs) => match spec_decode_prelude_opt(es[3].1) {
                            Err(e) => Err(e),
                            Ok(prelude) => match spec_decode_ref_array(es[4].1) {
                                Err(e) => Err(e),
                                Ok(refs) => Ok(
                                    AnalysisV { prelude, imports, defs, refs, macro_refs },
                                ),
                            },
                        },
                    },
                },
            }
        } else {
            Err(DecodeErrorV::Structure)
        },
        _ => Err(DecodeErrorV::Structure),
    }
}

/// Decodes one whole artifact.
pub fn decode_analysis(j: &Json) -> (r: Result<Analysis, DecodeError>)
    ensures
        r matches Ok(v) ==> spec_decode_analysis(j.deep_view()) == Ok::<AnalysisV, DecodeErrorV>(
            v.deep_view(),
        ),
        r matches Err(e) ==> spec_decode_analysis(j.deep_view()) == Err::<AnalysisV, DecodeErrorV>(
            e.deep_view(),
        ),
{
    let entries = match j {
        Json::Obj(es) => es,
        _ => { return Err(DecodeError::Structure) },
    };
    if entries.len() != 5 {
        return Err(DecodeError::Structure);
    }
    if !(str_eq(entries[0].0.as_str(), "defs") && str_eq(entries[1].0.as_str(), "imports")
        && str_eq(entries[2].0.as_str(), "macro_refs") && str_eq(
        entries[3].0.as_str(),
        "prelude",
    ) && str_eq(entries[4].0.as_str(), "refs")) {
        return Err(DecodeError::Structure);
    }
    let defs = match decode_def_vec(&entries[0].1) {
        Ok(v) => v,
        Err(e) => { return Err(e) },
    };
    let imports = match decode_import_vec(&entries[1].1) {
        Ok(v) => v,
        Err(e) => { return Err(e) },
    };
    let macro_refs = match decode_macro_ref_vec(&entries[2].1) {
        Ok(v) => v,
        Err(e) => { return Err(e) },
    };
    let prelude = match &entries[3].1 {
        Json::Null => None,
        pv => match decode_prelude(pv) {
            Ok(p) => Some(p),
            Err(e) => { return Err(e) },
        },
    };
    let refs = match decode_ref_vec(&entries[4].1) {
        Ok(v) => v,
        Err(e) => { return Err(e) },
    };
    Ok(Analysis { prelude, imports, defs, refs, macro_refs })
}

} // verus!
