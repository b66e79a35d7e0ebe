//! Encoding of the record model back into a JSON tree, the exact inverse of
//! decoding: what a record decodes from, it encodes to, field for field.

use vstd::prelude::*;

use crate::decode::{
    spec_decode_analysis, spec_decode_compiler_id, spec_decode_def, spec_decode_external_crate,
    spec_decode_import, spec_decode_macro_ref, spec_decode_prelude, spec_decode_ref,
    spec_decode_seq, spec_decode_span, spec_def_kind, spec_import_kind, spec_ref_kind,
    DecodeErrorV,
};
use crate::json::{json_view, Json, JsonV};
use crate::model::{
    Analysis, AnalysisV, CompilerId, CratePreludeData, CratePreludeDataV, Def, DefKind, DefV,
    ExternalCrateData, ExternalCrateDataV, Import, ImportKind, ImportV, MacroRef, MacroRefV, Ref,
    RefKind, RefV, SpanData, SpanDataV,
};

verus! {

broadcast use {vstd::seq::group_seq_axioms, vstd::std_specs::vec::group_vec_axioms};

/// Encoding of a compiler identity.
pub open spec fn spec_encode_compiler_id(c: CompilerId) -> JsonV {
    JsonV::Obj(
        seq![
            ("container_id"@, JsonV::UInt(c.container_id as u64)),
            ("local_index"@, JsonV::UInt(c.local_index as u64)),
        ],
    )
}

/// Encodes a compiler identity.
pub fn encode_compiler_id(c: &CompilerId) -> (r: Json)
    ensures
        r.deep_view() == spec_encode_compiler_id(*c),
{
    let mut es: Vec<(String, Json)> = Vec::new();
    es.push(("container_id".to_owned(), Json::UInt(c.container_id as u64)));
    es.push(("local_index".to_owned(), Json::UInt(c.local_index as u64)));
    let r = Json::Obj(es);
    proof {
        reveal_with_fuel(json_view, 2);
        assert(r.deep_view()->Obj_0 =~= spec_encode_compiler_id(*c)->Obj_0);
    }
    r
}

/// A compiler identity decodes back from its own encoding.
pub proof fn lemma_compiler_id_round_trip(c: CompilerId)
    ensures
        spec_decode_compiler_id(spec_encode_compiler_id(c)) == Ok::<CompilerId, DecodeErrorV>(c),
{
}

/// Whatever a compiler identity decoded from is exactly its encoding.
pub proof fn lemma_compiler_id_decode_encode(j: JsonV)
    requires
        spec_decode_compiler_id(j) is Ok,
    ensures
        spec_encode_compiler_id(spec_decode_compiler_id(j)->Ok_0) == j,
{
    let es = j->Obj_0;
    assert(spec_encode_compiler_id(spec_decode_compiler_id(j)->Ok_0)->Obj_0 =~= es);
}

/// Encoding of a span.
pub open spec fn spec_encode_span(s: SpanDataV) -> JsonV {
    JsonV::Obj(
        seq![
            ("byte_end"@, JsonV::UInt(s.byte_end as u64)),
            ("byte_start"@, JsonV::UInt(s.byte_start as u64)),
            ("column_end"@, JsonV::UInt(s.column_end as u64)),
            ("column_start"@, JsonV::UInt(s.column_start as u64)),
            ("file_name"@, JsonV::Str(s.file_name)),
            ("line_end"@, JsonV::UInt(s.line_end as u64)),
            ("line_start"@, JsonV::UInt(s.line_start as u64)),
        ],
    )
}

/// Encodes a span.
pub fn encode_span(s: &SpanData) -> (r: Json)
    ensures
        r.deep_view() == spec_encode_span(s.deep_view()),
{
    let mut es: Vec<(String, Json)> = Vec::new();
    es.push(("byte_end".to_owned(), Json::UInt(s.byte_end as u64)));
    es.push(("byte_start".to_owned(), Json::UInt(s.byte_start as u64)));
    es.push(("column_end".to_owned(), Json::UInt(s.column_end as u64)));
    es.push(("column_start".to_owned(), Json::UInt(s.column_start as u64)));
    es.push(("file_name".to_owned(), Json::Str(s.file_name.clone())));
    es.push(("line_end".to_owned(), Json::UInt(s.line_end as u64)));
    es.push(("line_start".to_owned(), Json::UInt(s.line_start as u64)));
    let r = Json::Obj(es);
    proof {
        reveal_with_fuel(json_view, 2);
        assert(r.deep_view()->Obj_0 =~= spec_encode_span(s.deep_view())->Obj_0);
    }
    r
}

/// A span decodes back from its own encoding.
pub proof fn lemma_span_round_trip(s: SpanDataV)
    ensures
        spec_decode_span(spec_encode_span(s)) == Ok::<SpanDataV, DecodeErrorV>(s),
{
    assert(spec_decode_span(spec_encode_span(s))->Ok_0 =~= s);
}

/// Whatever a span decoded from is exactly its encoding.
pub proof fn lemma_span_decode_encode(j: JsonV)
    requires
        spec_decode_span(j) is Ok,
    ensures
        spec_encode_span(spec_decode_span(j)->Ok_0) == j,
{
    let es = j->Obj_0;
    assert(spec_encode_span(spec_decode_span(j)->Ok_0)->Obj_0 =~= es);
}

// ---------------------------------------------------------------------------
// Enum tags
// ---------------------------------------------------------------------------

/// The tag string a definition kind encodes to.
pub open spec fn spec_def_kind_tag(k: DefKind) -> Seq<char> {
    match k {
        DefKind::Enum => "Enum"@,
        DefKind::Tuple => "Tuple"@,
        DefKind::Struct => "Struct"@,
        DefKind::Trait => "Trait"@,
        DefKind::Function => "Function"@,
        DefKind::Macro => "Macro"@,
        DefKind::Mod => "Mod"@,
        DefKind::Type => "Type"@,
        DefKind::Variable => "Variable"@,
    }
}

/// The tag string a reference kind encodes to.
pub open spec fn spec_ref_kind_tag(k: RefKind) -> Seq<char> {
    match k {
        RefKind::Function => "Function"@,
        RefKind::Mod => "Mod"@,
        RefKind::Type => "Type"@,
        RefKind::Variable => "Variable"@,
    }
}

/// The tag string an import kind encodes to.
pub open spec fn spec_import_kind_tag(k: ImportKind) -> Seq<char> {
    match k {
        ImportKind::ExternCrate => "ExternCrate"@,
        ImportKind::Use => "Use"@,
        ImportKind::GlobUse => "GlobUse"@,
    }
}

/// Writes a definition kind as its tag string.
pub fn def_kind_tag(k: DefKind) -> (r: String)
    ensures
        r@ == spec_def_kind_tag(k),
{
    match k {
        DefKind::Enum => "Enum".to_owned(),
        DefKind::Tuple => "Tuple".to_owned(),
        DefKind::Struct => "Struct".to_owned(),
        DefKind::Trait => "Trait".to_owned(),
        DefKind::Function => "Function".to_owned(),
        DefKind::Macro => "Macro".to_owned(),
        DefKind::Mod => "Mod".to_owned(),
        DefKind::Type => "Type".to_owned(),
        DefKind::Variable => "Variable".to_owned(),
    }
}

/// Writes a reference kind as its tag string.
pub fn ref_kind_tag(k: RefKind) -> (r: String)
    ensures
        r@ == spec_ref_kind_tag(k),
{
    match k {
        RefKind::Function => "Function".to_owned(),
        RefKind::Mod => "Mod".to_owned(),
        RefKind::Type => "Type".to_owned(),
        RefKind::Variable => "Variable".to_owned(),
    }
}

/// Writes an import kind as its tag string.
pub fn import_kind_tag(k: ImportKind) -> (r: String)
    ensures
        r@ == spec_import_kind_tag(k),
{
    match k {
        ImportKind::ExternCrate => "ExternCrate".to_owned(),
        ImportKind::Use => "Use".to_owned(),
        ImportKind::GlobUse => "GlobUse".to_owned(),
    }
}

/// Each definition-kind tag names the kind it was written from.
pub proof fn lemma_def_kind_tag_round(k: DefKind)
    ensures
        spec_def_kind(spec_def_kind_tag(k)) == Some(k),
{
    reveal_strlit("Enum");
    reveal_strlit("Tuple");
    reveal_strlit("Struct");
    reveal_strlit("Trait");
    reveal_strlit("Function");
    reveal_strlit("Macro");
    reveal_strlit("Mod");
    reveal_strlit("Type");
    reveal_strlit("Variable");
    let tags = seq!["Enum"@, "Tuple"@, "Struct"@, "Trait"@, "Function"@, "Macro"@, "Mod"@, "Type"@, "Variable"@];
    assert forall|i: int, l: int| 0 <= i < tags.len() && 0 <= l < tags.len() && i != l
        implies tags[i] != tags[l] by {
        assert(tags[i].len() != tags[l].len() || tags[i][0] != tags[l][0] || tags[i][1]
            != tags[l][1]);
    }
    assert(spec_def_kind(spec_def_kind_tag(k)) == Some(k));
}

/// Each reference-kind tag names the kind it was written from.
pub proof fn lemma_ref_kind_tag_round(k: RefKind)
    ensures
        spec_ref_kind(spec_ref_kind_tag(k)) == Some(k),
{
    reveal_strlit("Function");
    reveal_strlit("Mod");
    reveal_strlit("Type");
    reveal_strlit("Variable");
    let tags = seq!["Function"@, "Mod"@, "Type"@, "Variable"@];
    assert forall|i: int, l: int| 0 <= i < tags.len() && 0 <= l < tags.len() && i != l
        implies tags[i] != tags[l] by {
        assert(tags[i].len() != tags[l].len() || tags[i][0] != tags[l][0] || tags[i][1]
            != tags[l][1]);
    }
    assert(spec_ref_kind(spec_ref_kind_tag(k)) == Some(k));
}

/// Each import-kind tag names the kind it was written from.
pub proof fn lemma_import_kind_tag_round(k: ImportKind)
    ensures
        spec_import_kind(spec_import_kind_tag(k)) == Some(k),
{
    reveal_strlit("ExternCrate");
    reveal_strlit("Use");
    reveal_strlit("GlobUse");
    let tags = seq!["ExternCrate"@, "Use"@, "GlobUse"@];
    assert forall|i: int, l: int| 0 <= i < tags.len() && 0 <= l < tags.len() && i != l
        implies tags[i] != tags[l] by {
        assert(tags[i].len() != tags[l].len() || tags[i][0] != tags[l][0] || tags[i][1]
            != tags[l][1]);
    }
    assert(spec_import_kind(spec_import_kind_tag(k)) == Some(k));
}

// ---------------------------------------------------------------------------
// Remaining records
// ---------------------------------------------------------------------------

/// Encoding of an external-crate record.
pub open spec fn spec_encode_external_crate(c: ExternalCrateDataV) -> JsonV {
    JsonV::Obj(
        seq![
            ("file_name"@, JsonV::Str(c.file_name)),
            ("name"@, JsonV::Str(c.name)),
            ("ordinal"@, JsonV::UInt(c.ordinal as u64)),
        ],
    )
}

/// Encodes an external-crate record.
pub fn encode_external_crate(c: &ExternalCrateData) -> (r: Json)
    ensures
        r.deep_view() == spec_encode_external_crate(c.deep_view()),
{
    let mut es: Vec<(String, Json)> = Vec::new();
    es.push(("file_name".to_owned(), Json::Str(c.file_name.clone())));
    es.push(("name".to_owned(), Json::Str(c.name.clone())));
    es.push(("ordinal".to_owned(), Json::UInt(c.ordinal as u64)));
    let r = Json::Obj(es);
    proof {
        reveal_with_fuel(json_view, 2);
        assert(r.deep_view()->Obj_0 =~= spec_encode_external_crate(c.deep_view())->Obj_0);
    }
    r
}

/// An external-crate record decodes back from its own encoding.
pub proof fn lemma_external_crate_round_trip(c: ExternalCrateDataV)
    ensures
        spec_decode_external_crate(spec_encode_external_crate(c)) == Ok::<
            ExternalCrateDataV,
            DecodeErrorV,
        >(c),
{
    assert(spec_decode_external_crate(spec_encode_external_crate(c))->Ok_0 =~= c);
}

/// Whatever an external-crate record decoded from is exactly its encoding.
pub proof fn lemma_external_crate_decode_encode(j: JsonV)
    requires
        spec_decode_external_crate(j) is Ok,
    ensures
        spec_encode_external_crate(spec_decode_external_crate(j)->Ok_0) == j,
{
    let es = j->Obj_0;
    assert(spec_encode_external_crate(spec_decode_external_crate(j)->Ok_0)->Obj_0 =~= es);
}

/// Encoding of a definition record.
pub open spec fn spec_encode_def(d: DefV) -> JsonV {
    JsonV::Obj(
        seq![
            ("id"@, spec_encode_compiler_id(d.id)),
            ("kind"@, JsonV::Str(spec_def_kind_tag(d.kind))),
            ("name"@, JsonV::Str(d.name)),
            ("qualified_name"@, JsonV::Str(d.qualified_name)),
            ("span"@, spec_encode_span(d.span)),
            ("value"@, JsonV::Str(d.value)),
        ],
    )
}

/// Encodes a definition record.
pub fn encode_def(d: &Def) -> (r: Json)
    ensures
        r.deep_view() == spec_encode_def(d.deep_view()),
{
    let mut es: Vec<(String, Json)> = Vec::new();
    es.push(("id".to_owned(), encode_compiler_id(&d.id)));
    es.push(("kind".to_owned(), Json::Str(def_kind_tag(d.kind))));
    es.push(("name".to_owned(), Json::Str(d.name.clone())));
    es.push(("qualified_name".to_owned(), Json::Str(d.qualified_name.clone())));
    es.push(("span".to_owned(), encode_span(&d.span)));
    es.push(("value".to_owned(), Json::Str(d.value.clone())));
    let r = Json::Obj(es);
    proof {
        reveal_with_fuel(json_view, 2);
        assert(r.deep_view()->Obj_0 =~= spec_encode_def(d.deep_view())->Obj_0);
    }
    r
}

/// A definition record decodes back from its own encoding.
pub proof fn lemma_def_round_trip(d: DefV)
    ensures
        spec_decode_def(spec_encode_def(d)) == Ok::<DefV, DecodeErrorV>(d),
{
    lemma_compiler_id_round_trip(d.id);
    lemma_def_kind_tag_round(d.kind);
    lemma_span_round_trip(d.span);
    assert(spec_decode_def(spec_encode_def(d))->Ok_0 =~= d);
}

/// Whatever a definition record decoded from is exactly its encoding.
pub proof fn lemma_def_decode_encode(j: JsonV)
    requires
        spec_decode_def(j) is Ok,
    ensures
        spec_encode_def(spec_decode_def(j)->Ok_0) == j,
{
    let es = j->Obj_0;
    lemma_compiler_id_decode_encode(es[0].1);
    lemma_span_decode_encode(es[4].1);
    assert(spec_encode_def(spec_decode_def(j)->Ok_0)->Obj_0 =~= es);
}

/// Encoding of a reference record.
pub open spec fn spec_encode_ref(d: RefV) -> JsonV {
    JsonV::Obj(
        seq![
            ("kind"@, JsonV::Str(spec_ref_kind_tag(d.kind))),
            ("ref_id"@, spec_encode_compiler_id(d.ref_id)),
            ("span"@, spec_encode_span(d.span)),
        ],
    )
}

/// Encodes a reference record.
pub fn encode_ref(d: &Ref) -> (r: Json)
    ensures
        r.deep_view() == spec_encode_ref(d.deep_view()),
{
    let mut es: Vec<(String, Json)> = Vec::new();
    es.push(("kind".to_owned(), Json::Str(ref_kind_tag(d.kind))));
    es.push(("ref_id".to_owned(), encode_compiler_id(&d.ref_id)));
    es.push(("span".to_owned(), encode_span(&d.span)));
    let r = Json::Obj(es);
    proof {
        reveal_with_fuel(json_view, 2);
        assert(r.deep_view()->Obj_0 =~= spec_encode_ref(d.deep_view())->Obj_0);
    }
    r
}

/// A reference record decodes back from its own encoding.
pub proof fn lemma_ref_round_trip(d: RefV)
    ensures
        spec_decode_ref(spec_encode_ref(d)) == Ok::<RefV, DecodeErrorV>(d),
{
    lemma_compiler_id_round_trip(d.ref_id);
    lemma_ref_kind_tag_round(d.kind);
    lemma_span_round_trip(d.span);
    assert(spec_decode_ref(spec_encode_ref(d))->Ok_0 =~= d);
}

/// Whatever a reference record decoded from is exactly its encoding.
pub proof fn lemma_ref_decode_encode(j: JsonV)
    requires
        spec_decode_ref(j) is Ok,
    ensures
        spec_encode_ref(spec_decode_ref(j)->Ok_0) == j,
{
    let es = j->Obj_0;
    lemma_compiler_id_decode_encode(es[1].1);
    lemma_span_decode_encode(es[2].1);
    assert(spec_encode_ref(spec_decode_ref(j)->Ok_0)->Obj_0 =~= es);
}

/// Encoding of a macro-reference record.
pub open spec fn spec_encode_macro_ref(d: MacroRefV) -> JsonV {
    JsonV::Obj(
        seq![
            ("callee_span"@, spec_encode_span(d.callee_span)),
            ("qualified_name"@, JsonV::Str(d.qualified_name)),
            ("span"@, spec_encode_span(d.span)),
        ],
    )
}

/// Encodes a macro-reference record.
pub fn encode_macro_ref(d: &MacroRef) -> (r: Json)
    ensures
        r.deep_view() == spec_encode_macro_ref(d.deep_view()),
{
    let mut es: Vec<(String, Json)> = Vec::new();
    es.push(("callee_span".to_owned(), encode_span(&d.callee_span)));
    es.push(("qualified_name".to_owned(), Json::Str(d.qualified_name.clone())));
    es.push(("span".to_owned(), encode_span(&d.span)));
    let r = Json::Obj(es);
    proof {
        reveal_with_fuel(json_view, 2);
        assert(r.deep_view()->Obj_0 =~= spec_encode_macro_ref(d.deep_view())->Obj_0);
    }
    r
}

/// A macro-reference record decodes back from its own encoding.
pub proof fn lemma_macro_ref_round_trip(d: MacroRefV)
    ensures
        spec_decode_macro_ref(spec_encode_macro_ref(d)) == Ok::<MacroRefV, DecodeErrorV>(d),
{
    lemma_span_round_trip(d.callee_span);
    lemma_span_round_trip(d.span);
    assert(spec_decode_macro_ref(spec_encode_macro_ref(d))->Ok_0 =~= d);
}

/// Whatever a macro-reference record decoded from is exactly its encoding.
pub proof fn lemma_macro_ref_decode_encode(j: JsonV)
    requires
        spec_decode_macro_ref(j) is Ok,
    ensures
        spec_encode_macro_ref(spec_decode_macro_ref(j)->Ok_0) == j,
{
    let es = j->Obj_0;
    lemma_span_decode_encode(es[0].1);
    lemma_span_decode_encode(es[2].1);
    assert(spec_encode_macro_ref(spec_decode_macro_ref(j)->Ok_0)->Obj_0 =~= es);
}

/// Encoding of an import record.
pub open spec fn spec_encode_import(d: ImportV) -> JsonV {
    JsonV::Obj(
        seq![
            ("id"@, spec_encode_compiler_id(d.id)),
            ("kind"@, JsonV::Str(spec_import_kind_tag(d.kind))),
            ("name"@, JsonV::Str(d.name)),
            ("span"@, spec_encode_span(d.span)),
            ("value"@, JsonV::Str(d.value)),
        ],
    )
}

/// Encodes an import record.
pub fn encode_import(d: &Import) -> (r: Json)
    ensures
        r.deep_view() == spec_encode_import(d.deep_view()),
{
    let mut es: Vec<(String, Json)> = Vec::new();
    es.push(("id".to_owned(), encode_compiler_id(&d.id)));
    es.push(("kind".to_owned(), Json::Str(import_kind_tag(d.kind))));
    es.push(("name".to_owned(), Json::Str(d.name.clone())));
    es.push(("span".to_owned(), encode_span(&d.span)));
    es.push(("value".to_owned(), Json::Str(d.value.clone())));
    let r = Json::Obj(es);
    proof {
        reveal_with_fuel(json_view, 2);
        assert(r.deep_view()->Obj_0 =~= spec_encode_import(d.deep_view())->Obj_0);
    }
    r
}

/// An import record decodes back from its own encoding.
pub proof fn lemma_import_round_trip(d: ImportV)
    ensures
        spec_decode_import(spec_encode_import(d)) == Ok::<ImportV, DecodeErrorV>(d),
{
    lemma_compiler_id_round_trip(d.id);
    lemma_import_kind_tag_round(d.kind);
    lemma_span_round_trip(d.span);
    assert(spec_decode_import(spec_encode_import(d))->Ok_0 =~= d);
}

/// Whatever an import record decoded from is exactly its encoding.
pub proof fn lemma_import_decode_encode(j: JsonV)
    requires
        spec_decode_import(j) is Ok,
    ensures
        spec_encode_import(spec_decode_import(j)->Ok_0) == j,
{
    let es = j->Obj_0;
    lemma_compiler_id_decode_encode(es[0].1);
    lemma_span_decode_encode(es[3].1);
    assert(spec_encode_import(spec_decode_import(j)->Ok_0)->Obj_0 =~= es);
}

// ---------------------------------------------------------------------------
// Record sequences
// ---------------------------------------------------------------------------

/// A sequence of records decodes back from its elementwise encoding, given
/// that each element does.
pub proof fn lemma_seq_round_trip<T>(
    ds: Seq<T>,
    enc: spec_fn(T) -> JsonV,
    dec: spec_fn(JsonV) -> Result<T, DecodeErrorV>,
)
    requires
        forall|d: T| #[trigger] dec(enc(d)) == Ok::<T, DecodeErrorV>(d),
    ensures
        spec_decode_seq(ds.map_values(enc), dec) == Ok::<Seq<T>, DecodeErrorV>(ds),
    decreases ds.len(),
{
    if ds.len() == 0 {
        assert(ds.map_values(enc) =~= Seq::<JsonV>::empty());
        assert(ds =~= Seq::<T>::empty());
    } else {
        lemma_seq_round_trip(ds.drop_last(), enc, dec);
        assert(ds.map_values(enc).drop_last() =~= ds.drop_last().map_values(enc));
        assert(ds.map_values(enc).last() == enc(ds.last()));
        assert(spec_decode_seq(ds.map_values(enc), dec)->Ok_0 =~= ds);
    }
}

/// Whatever a sequence of records decoded from is exactly its elementwise
/// encoding, given that each element's source is.
pub proof fn lemma_seq_decode_encode<T>(
    items: Seq<JsonV>,
    enc: spec_fn(T) -> JsonV,
    dec: spec_fn(JsonV) -> Result<T, DecodeErrorV>,
)
    requires
        spec_decode_seq(items, dec) is Ok,
        forall|v: JsonV| #[trigger] dec(v) is Ok ==> enc(dec(v)->Ok_0) == v,
    ensures
        spec_decode_seq(items, dec)->Ok_0.map_values(enc) == items,
    decreases items.len(),
{
    if items.len() == 0 {
        assert(spec_decode_seq(items, dec)->Ok_0.map_values(enc) =~= items);
    } else {
        lemma_seq_decode_encode(items.drop_last(), enc, dec);
        let rest = spec_decode_seq(items.drop_last(), dec)->Ok_0;
        let t = dec(items.last())->Ok_0;
        assert(spec_decode_seq(items, dec)->Ok_0 == rest.push(t));
        assert(enc(t) == items.last());
        assert(rest.map_values(enc) == items.drop_last());
        assert(rest.len() == items.len() - 1);
        assert forall|k: int| 0 <= k < items.len() implies rest.push(t).map_values(enc)[k]
            == items[k] by {
            if k < items.len() - 1 {
                assert(rest.push(t)[k] == rest[k]);
                assert(rest.map_values(enc)[k] == items.drop_last()[k]);
                assert(items.drop_last()[k] == items[k]);
            } else {
                assert(rest.push(t)[k] == t);
            }
        }
        assert(spec_decode_seq(items, dec)->Ok_0.map_values(enc) =~= items);
    }
}

/// Encoding of a crate prelude.
pub open spec fn spec_encode_prelude(p: CratePreludeDataV) -> JsonV {
    JsonV::Obj(
        seq![
            ("crate_name"@, JsonV::Str(p.crate_name)),
            ("crate_root"@, JsonV::Str(p.crate_root)),
            (
                "external_crates"@,
                JsonV::Arr(p.external_crates.map_values(|c: ExternalCrateDataV| spec_encode_external_crate(c))),
            ),
            ("span"@, spec_encode_span(p.span)),
        ],
    )
}

/// Encodes a crate prelude.
pub fn encode_prelude(p: &CratePreludeData) -> (r: Json)
    ensures
        r.deep_view() == spec_encode_prelude(p.deep_view()),
{
    let mut crates: Vec<Json> = Vec::new();
    let mut i: usize = 0;
    while i < p.external_crates.len()
        invariant
            i <= p.external_crates@.len(),
            crates@.len() == i,
            forall|k: int| 0 <= k < i ==> crates@[k].deep_view() == spec_encode_external_crate(
                p.external_crates@[k].deep_view(),
            ),
        decreases p.external_crates@.len() - i,
    {
        crates.push(encode_external_crate(&p.external_crates[i]));
        i += 1;
    }
    let mut es: Vec<(String, Json)> = Vec::new();
    es.push(("crate_name".to_owned(), Json::Str(p.crate_name.clone())));
    es.push(("crate_root".to_owned(), Json::Str(p.crate_root.clone())));
    es.push(("external_crates".to_owned(), Json::Arr(crates)));
    es.push(("span".to_owned(), encode_span(&p.span)));
    let r = Json::Obj(es);
    proof {
        reveal_with_fuel(json_view, 2);
        assert(es@[2].1.deep_view()->Arr_0 =~= p.external_crates.deep_view().map_values(
            |c: ExternalCrateDataV| spec_encode_external_crate(c),
        ));
        assert(r.deep_view()->Obj_0 =~= spec_encode_prelude(p.deep_view())->Obj_0);
    }
    r
}

/// A crate prelude decodes back from its own encoding.
pub proof fn lemma_prelude_round_trip(p: CratePreludeDataV)
    ensures
        spec_decode_prelude(spec_encode_prelude(p)) == Ok::<CratePreludeDataV, DecodeErrorV>(p),
{
    assert forall|c: ExternalCrateDataV| #[trigger] spec_decode_external_crate(spec_encode_external_crate(c)) == Ok::<ExternalCrateDataV, DecodeErrorV>(c) by {
        lemma_external_crate_round_trip(c);
    }
    lemma_seq_round_trip(
        p.external_crates,
        |y: ExternalCrateDataV| spec_encode_external_crate(y),
        |x: JsonV| spec_decode_external_crate(x),
    );
    lemma_span_round_trip(p.span);
    assert(p.external_crates.map_values(|y: ExternalCrateDataV| spec_encode_external_crate(y))
        =~= p.external_crates.map_values(|c: ExternalCrateDataV| spec_encode_external_crate(c)));
    assert(spec_decode_prelude(spec_encode_prelude(p))->Ok_0 =~= p);
}

/// Whatever a crate prelude decoded from is exactly its encoding.
pub proof fn lemma_prelude_decode_encode(j: JsonV)
    requires
        spec_decode_prelude(j) is Ok,
    ensures
        spec_encode_prelude(spec_decode_prelude(j)->Ok_0) == j,
{
    let es = j->Obj_0;
    assert forall|v: JsonV| #[trigger] spec_decode_external_crate(v) is Ok
        implies spec_encode_external_crate(spec_decode_external_crate(v)->Ok_0) == v by {
        lemma_external_crate_decode_encode(v);
    }
    lemma_seq_decode_encode(
        es[2].1->Arr_0,
        |y: ExternalCrateDataV| spec_encode_external_crate(y),
        |x: JsonV| spec_decode_external_crate(x),
    );
    lemma_span_decode_encode(es[3].1);
    assert(spec_decode_prelude(j)->Ok_0.external_crates.map_values(
        |c: ExternalCrateDataV| spec_encode_external_crate(c),
    ) =~= es[2].1->Arr_0);
    assert(spec_encode_prelude(spec_decode_prelude(j)->Ok_0)->Obj_0 =~= es);
}

// ---------------------------------------------------------------------------
// The whole artifact
// ---------------------------------------------------------------------------

/// Encoding of the optional prelude field: none stands as JSON `null`.
pub open spec fn spec_encode_prelude_opt(p: Option<CratePreludeDataV>) -> JsonV {
    match p {
        None => JsonV::Null,
        Some(pv) => spec_encode_prelude(pv),
    }
}

/// Encoding of one whole artifact.
pub open spec fn spec_encode_analysis(a: AnalysisV) -> JsonV {
    JsonV::Obj(
        seq![
            ("defs"@, JsonV::Arr(a.defs.map_values(|d: DefV| spec_encode_def(d)))),
            ("imports"@, JsonV::Arr(a.imports.map_values(|d: ImportV| spec_encode_import(d)))),
            (
                "macro_refs"@,
                JsonV::Arr(a.macro_refs.map_values(|d: MacroRefV| spec_encode_macro_ref(d))),
            ),
            ("prelude"@, spec_encode_prelude_opt(a.prelude)),
            ("refs"@, JsonV::Arr(a.refs.map_values(|d: RefV| spec_encode_ref(d)))),
        ],
    )
}

/// Encodes one whole artifact.
pub fn encode_analysis(a: &Analysis) -> (r: Json)
    ensures
        r.deep_view() == spec_encode_analysis(a.deep_view()),
{
    let mut defs: Vec<Json> = Vec::new();
    let mut i: usize = 0;
    while i < a.defs.len()
        invariant
            i <= a.defs@.len(),
            defs@.len() == i,
            forall|k: int| 0 <= k < i ==> defs@[k].deep_view() == spec_encode_def(
                a.defs@[k].deep_view(),
            ),
        decreases a.defs@.len() - i,
    {
        defs.push(encode_def(&a.defs[i]));
        i += 1;
    }
    let mut imports: Vec<Json> = Vec::new();
    let mut i: usize = 0;
    while i < a.imports.len()
        invariant
            i <= a.imports@.len(),
            imports@.len() == i,
            forall|k: int| 0 <= k < i ==> imports@[k].deep_view() == spec_encode_import(
                a.imports@[k].deep_view(),
            ),
        decreases a.imports@.len() - i,
    {
        imports.push(encode_import(&a.imports[i]));
        i += 1;
    }
    let mut macro_refs: Vec<Json> = Vec::new();
    let mut i: usize = 0;
    while i < a.macro_refs.len()
        invariant
            i <= a.macro_refs@.len(),
            macro_refs@.len() == i,
            forall|k: int| 0 <= k < i ==> macro_refs@[k].deep_view() == spec_encode_macro_ref(
                a.macro_refs@[k].deep_view(),
            ),
        decreases a.macro_refs@.len() - i,
    {
        macro_refs.push(encode_macro_ref(&a.macro_refs[i]));
        i += 1;
    }
    let mut refs: Vec<Json> = Vec::new();
    let mut i: usize = 0;
    while i < a.refs.len()
        invariant
            i <= a.refs@.len(),
            refs@.len() == i,
            forall|k: int| 0 <= k < i ==> refs@[k].deep_view() == spec_encode_ref(
                a.refs@[k].deep_view(),
            ),
        decreases a.refs@.len() - i,
    {
        refs.push(encode_ref(&a.refs[i]));
        i += 1;
    }
    let prelude_json = match &a.prelude {
        None => Json::Null,
        Some(p) => encode_prelude(p),
    };
    let mut es: Vec<(String, Json)> = Vec::new();
    es.push(("defs".to_owned(), Json::Arr(defs)));
    es.push(("imports".to_owned(), Json::Arr(imports)));
    es.push(("macro_refs".to_owned(), Json::Arr(macro_refs)));
    es.push(("prelude".to_owned(), prelude_json));
    es.push(("refs".to_owned(), Json::Arr(refs)));
    let r = Json::Obj(es);
    proof {
        reveal_with_fuel(json_view, 2);
        assert(es@[0].1.deep_view()->Arr_0 =~= a.defs.deep_view().map_values(
            |d: DefV| spec_encode_def(d),
        ));
        assert(es@[1].1.deep_view()->Arr_0 =~= a.imports.deep_view().map_values(
            |d: ImportV| spec_encode_import(d),
        ));
        assert(es@[2].1.deep_view()->Arr_0 =~= a.macro_refs.deep_view().map_values(
            |d: MacroRefV| spec_encode_macro_ref(d),
        ));
        assert(es@[4].1.deep_view()->Arr_0 =~= a.refs.deep_view().map_values(
            |d: RefV| spec_encode_ref(d),
        ));
        assert(r.deep_view()->Obj_0 =~= spec_encode_analysis(a.deep_view())->Obj_0);
    }
    r
}

/// A whole artifact decodes back from its own encoding: every field value is
/// preserved by an encode-then-decode round trip.
pub proof fn lemma_analysis_round_trip(a: AnalysisV)
    ensures
        spec_decode_analysis(spec_encode_analysis(a)) == Ok::<AnalysisV, DecodeErrorV>(a),
{
    assert forall|d: DefV| #[trigger] spec_decode_def(spec_encode_def(d)) == Ok::<DefV, DecodeErrorV>(d) by {
        lemma_def_round_trip(d);
    }
    lemma_seq_round_trip(a.defs, |y: DefV| spec_encode_def(y), |x: JsonV| spec_decode_def(x));
    assert(a.defs.map_values(|y: DefV| spec_encode_def(y)) =~= a.defs.map_values(
        |d: DefV| spec_encode_def(d),
    ));
    assert forall|d: ImportV| #[trigger] spec_decode_import(spec_encode_import(d)) == Ok::<ImportV, DecodeErrorV>(d) by {
        lemma_import_round_trip(d);
    }
    lemma_seq_round_trip(
        a.imports,
        |y: ImportV| spec_encode_import(y),
        |x: JsonV| spec_decode_import(x),
    );
    assert(a.imports.map_values(|y: ImportV| spec_encode_import(y)) =~= a.imports.map_values(
        |d: ImportV| spec_encode_import(d),
    ));
    assert forall|d: MacroRefV| #[trigger] spec_decode_macro_ref(spec_encode_macro_ref(d)) == Ok::<MacroRefV, DecodeErrorV>(d) by {
        lemma_macro_ref_round_trip(d);
    }
    lemma_seq_round_trip(
        a.macro_refs,
        |y: MacroRefV| spec_encode_macro_ref(y),
        |x: JsonV| spec_decode_macro_ref(x),
    );
    assert(a.macro_refs.map_values(|y: MacroRefV| spec_encode_macro_ref(y))
        =~= a.macro_refs.map_values(|d: MacroRefV| spec_encode_macro_ref(d)));
    assert forall|d: RefV| #[trigger] spec_decode_ref(spec_encode_ref(d)) == Ok::<RefV, DecodeErrorV>(d) by {
        lemma_ref_round_trip(d);
    }
    lemma_seq_round_trip(a.refs, |y: RefV| spec_encode_ref(y), |x: JsonV| spec_decode_ref(x));
    assert(a.refs.map_values(|y: RefV| spec_encode_ref(y)) =~= a.refs.map_values(
        |d: RefV| spec_encode_ref(d),
    ));
    match a.prelude {
        None => {},
        Some(p) => {
            lemma_prelude_round_trip(p);
        },
    }
    assert(spec_decode_analysis(spec_encode_analysis(a))->Ok_0 =~= a);
}

/// Whatever a whole artifact decoded from is exactly its encoding: decoding
/// then re-encoding a valid artifact preserves every field value.
pub proof fn lemma_analysis_decode_encode(j: JsonV)
    requires
        spec_decode_analysis(j) is Ok,
    ensures
        spec_encode_analysis(spec_decode_analysis(j)->Ok_0) == j,
{
    let es = j->Obj_0;
    let a = spec_decode_analysis(j)->Ok_0;
    assert forall|v: JsonV| #[trigger] spec_decode_def(v) is Ok implies spec_encode_def(spec_decode_def(v)->Ok_0) == v by {
        lemma_def_decode_encode(v);
    }
    lemma_seq_decode_encode(es[0].1->Arr_0, |y: DefV| spec_encode_def(y), |x: JsonV| spec_decode_def(x));
    assert(a.defs.map_values(|d: DefV| spec_encode_def(d)) =~= es[0].1->Arr_0);
    assert forall|v: JsonV| #[trigger] spec_decode_import(v) is Ok implies spec_encode_import(spec_decode_import(v)->Ok_0) == v by {
        lemma_import_decode_encode(v);
    }
    lemma_seq_decode_encode(
        es[1].1->Arr_0,
        |y: ImportV| spec_encode_import(y),
        |x: JsonV| spec_decode_import(x),
    );
    assert(a.imports.map_values(|d: ImportV| spec_encode_import(d)) =~= es[1].1->Arr_0);
    assert forall|v: JsonV| #[trigger] spec_decode_macro_ref(v) is Ok implies spec_encode_macro_ref(spec_decode_macro_ref(v)->Ok_0) == v by {
        lemma_macro_ref_decode_encode(v);
    }
    lemma_seq_decode_encode(
        es[2].1->Arr_0,
        |y: MacroRefV| spec_encode_macro_ref(y),
        |x: JsonV| spec_decode_macro_ref(x),
    );
    assert(a.macro_refs.map_values(|d: MacroRefV| spec_encode_macro_ref(d)) =~= es[2].1->Arr_0);
    assert forall|v: JsonV| #[trigger] spec_decode_ref(v) is Ok implies spec_encode_ref(spec_decode_ref(v)->Ok_0) == v by {
        lemma_ref_decode_encode(v);
    }
    lemma_seq_decode_encode(es[4].1->Arr_0, |y: RefV| spec_encode_ref(y), |x: JsonV| spec_decode_ref(x));
    assert(a.refs.map_values(|d: RefV| spec_encode_ref(d)) =~= es[4].1->Arr_0);
    if es[3].1 != JsonV::Null {
        lemma_prelude_decode_encode(es[3].1);
    }
    assert(spec_encode_analysis(a)->Obj_0 =~= es);
}


} // verus!
