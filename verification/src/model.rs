//! The typed record graph that one analysis artifact decodes into: source
//! spans, compiler identities, per-crate prelude data, and the definition,
//! reference, macro-reference and import records.
//!
//! Each executable record type has a mathematical mirror (its deep view) over
//! `Seq<char>` in place of `String`, which the decoding and encoding
//! contracts speak about.

use vstd::prelude::*;

verus! {

/// A source location range. `line_*` and `column_*` are 1-based; the producing
/// compiler is trusted to emit `byte_start <= byte_end` and
/// `line_start <= line_end`, which this model does not itself enforce.
#[derive(Debug, Clone, PartialEq)]
pub struct SpanData {
    pub file_name: String,
    pub byte_start: u32,
    pub byte_end: u32,
    pub line_start: usize,
    pub line_end: usize,
    pub column_start: usize,
    pub column_end: usize,
}

/// Mathematical mirror of [`SpanData`].
#[verifier::ext_equal]
pub struct SpanDataV {
    pub file_name: Seq<char>,
    pub byte_start: u32,
    pub byte_end: u32,
    pub line_start: usize,
    pub line_end: usize,
    pub column_start: usize,
    pub column_end: usize,
}

impl DeepView for SpanData {
    type V = SpanDataV;

    open spec fn deep_view(&self) -> SpanDataV {
        SpanDataV {
            file_name: self.file_name@,
            byte_start: self.byte_start,
            byte_end: self.byte_end,
            line_start: self.line_start,
            line_end: self.line_end,
            column_start: self.column_start,
            column_end: self.column_end,
        }
    }
}

/// A compiler-internal identity for a symbol, unique within one build's
/// analysis universe and stable only within that build invocation.
#[derive(Debug, Clone, Copy, PartialEq, Eq, Structural)]
pub struct CompilerId {
    pub container_id: u32,
    pub local_index: u32,
}

impl DeepView for CompilerId {
    type V = CompilerId;

    open spec fn deep_view(&self) -> CompilerId {
        *self
    }
}

/// One direct external dependency of the analysed crate.
#[derive(Debug, Clone, PartialEq)]
pub struct ExternalCrateData {
    pub name: String,
    pub ordinal: u32,
    pub file_name: String,
}

/// Mathematical mirror of [`ExternalCrateData`].
#[verifier::ext_equal]
pub struct ExternalCrateDataV {
    pub name: Seq<char>,
    pub ordinal: u32,
    pub file_name: Seq<char>,
}

impl DeepView for ExternalCrateData {
    type V = ExternalCrateDataV;

    open spec fn deep_view(&self) -> ExternalCrateDataV {
        ExternalCrateDataV { name: self.name@, ordinal: self.ordinal, file_name: self.file_name@ }
    }
}

/// Per-crate metadata accompanying an artifact's symbol data.
#[derive(Debug, Clone, PartialEq)]
pub struct CratePreludeData {
    pub crate_name: String,
    pub crate_root: String,
    pub external_crates: Vec<ExternalCrateData>,
    pub span: SpanData,
}

/// Mathematical mirror of [`CratePreludeData`].
#[verifier::ext_equal]
pub struct CratePreludeDataV {
    pub crate_name: Seq<char>,
    pub crate_root: Seq<char>,
    pub external_crates: Seq<ExternalCrateDataV>,
    pub span: SpanDataV,
}

impl DeepView for CratePreludeData {
    type V = CratePreludeDataV;

    open spec fn deep_view(&self) -> CratePreludeDataV {
        CratePreludeDataV {
            crate_name: self.crate_name@,
            crate_root: self.crate_root@,
            external_crates: self.external_crates.deep_view(),
            span: self.span.deep_view(),
        }
    }
}

/// The closed set of definition kinds.
#[derive(Debug, Clone, Copy, PartialEq, Eq, Structural)]
pub enum DefKind {
    Enum,
    Tuple,
    Struct,
    Trait,
    Function,
    Macro,
    Mod,
    Type,
    Variable,
}

impl DeepView for DefKind {
    type V = DefKind;

    open spec fn deep_view(&self) -> DefKind {
        *self
    }
}

/// A symbol definition.
#[derive(Debug, Clone, PartialEq)]
pub struct Def {
    pub kind: DefKind,
    pub id: CompilerId,
    pub span: SpanData,
    pub name: String,
    pub qualified_name: String,
    pub value: String,
}

/// Mathematical mirror of [`Def`].
#[verifier::ext_equal]
pub struct DefV {
    pub kind: DefKind,
    pub id: CompilerId,
    pub span: SpanDataV,
    pub name: Seq<char>,
    pub qualified_name: Seq<char>,
    pub value: Seq<char>,
}

impl DeepView for Def {
    type V = DefV;

    open spec fn deep_view(&self) -> DefV {
        DefV {
            kind: self.kind,
            id: self.id,
            span: self.span.deep_view(),
            name: self.name@,
            qualified_name: self.qualified_name@,
            value: self.value@,
        }
    }
}

/// The closed set of reference kinds: a strict subset of [`DefKind`], by
/// design of the source format.
#[derive(Debug, Clone, Copy, PartialEq, Eq, Structural)]
pub enum RefKind {
    Function,
    Mod,
    Type,
    Variable,
}

impl DeepView for RefKind {
    type V = RefKind;

    open spec fn deep_view(&self) -> RefKind {
        *self
    }
}

/// A symbol use-site, pointing at the identity of the definition it resolves
/// to, possibly in a different artifact.
#[derive(Debug, Clone, PartialEq)]
pub struct Ref {
    pub kind: RefKind,
    pub span: SpanData,
    pub ref_id: CompilerId,
}

/// Mathematical mirror of [`Ref`].
#[verifier::ext_equal]
pub struct RefV {
    pub kind: RefKind,
    pub span: SpanDataV,
    pub ref_id: CompilerId,
}

impl DeepView for Ref {
    type V = RefV;

    open spec fn deep_view(&self) -> RefV {
        RefV { kind: self.kind, span: self.span.deep_view(), ref_id: self.ref_id }
    }
}

/// A macro invocation site plus the span of the macro definition it expands.
#[derive(Debug, Clone, PartialEq)]
pub struct MacroRef {
    pub span: SpanData,
    pub qualified_name: String,
    pub callee_span: SpanData,
}

/// Mathematical mirror of [`MacroRef`].
#[verifier::ext_equal]
pub struct MacroRefV {
    pub span: SpanDataV,
    pub qualified_name: Seq<char>,
    pub callee_span: SpanDataV,
}

impl DeepView for MacroRef {
    type V = MacroRefV;

    open spec fn deep_view(&self) -> MacroRefV {
        MacroRefV {
            span: self.span.deep_view(),
            qualified_name: self.qualified_name@,
            callee_span: self.callee_span.deep_view(),
        }
    }
}

/// The closed set of import kinds.
#[derive(Debug, Clone, Copy, PartialEq, Eq, Structural)]
pub enum ImportKind {
    ExternCrate,
    Use,
    GlobUse,
}

impl DeepView for ImportKind {
    type V = ImportKind;

    open spec fn deep_view(&self) -> ImportKind {
        *self
    }
}

/// An import record.
#[derive(Debug, Clone, PartialEq)]
pub struct Import {
    pub kind: ImportKind,
    pub id: CompilerId,
    pub span: SpanData,
    pub name: String,
    pub value: String,
}

/// Mathematical mirror of [`Import`].
#[verifier::ext_equal]
pub struct ImportV {
    pub kind: ImportKind,
    pub id: CompilerId,
    pub span: SpanDataV,
    pub name: Seq<char>,
    pub value: Seq<char>,
}

impl DeepView for Import {
    type V = ImportV;

    open spec fn deep_view(&self) -> ImportV {
        ImportV {
            kind: self.kind,
            id: self.id,
            span: self.span.deep_view(),
            name: self.name@,
            value: self.value@,
        }
    }
}

/// Everything one artifact file decodes into.
#[derive(Debug, Clone, PartialEq)]
pub struct Analysis {
    pub prelude: Option<CratePreludeData>,
    pub imports: Vec<Import>,
    pub defs: Vec<Def>,
    pub refs: Vec<Ref>,
    pub macro_refs: Vec<MacroRef>,
}

/// Mathematical mirror of [`Analysis`].
#[verifier::ext_equal]
pub struct AnalysisV {
    pub prelude: Option<CratePreludeDataV>,
    pub imports: Seq<ImportV>,
    pub defs: Seq<DefV>,
    pub refs: Seq<RefV>,
    pub macro_refs: Seq<MacroRefV>,
}

impl DeepView for Analysis {
    type V = AnalysisV;

    open spec fn deep_view(&self) -> AnalysisV {
        AnalysisV {
            prelude: self.prelude.deep_view(),
            imports: self.imports.deep_view(),
            defs: self.defs.deep_view(),
            refs: self.refs.deep_view(),
            macro_refs: self.macro_refs.deep_view(),
        }
    }
}

} // verus!
