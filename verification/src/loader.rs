//! The analysis loader: given the artifact files found on disk — each a path
//! and, where reading succeeded, its text — decode every artifact, keep the
//! successes in order, and record a diagnostic for each file that was
//! skipped. A single bad artifact never aborts the batch.

use vstd::prelude::*;

use crate::decode::{decode_analysis, spec_decode_analysis, DecodeError, DecodeErrorV};
use crate::json::{json_parse, parse_json};
use crate::model::{Analysis, AnalysisV};

verus! {

broadcast use {vstd::seq::group_seq_axioms, vstd::std_specs::vec::group_vec_axioms};

/// One artifact file as handed to the loader: its path and its text, or
/// nothing where reading it failed.
#[derive(Debug, Clone, PartialEq)]
pub struct ArtifactFile {
    pub path: String,
    pub content: Option<String>,
}

/// Mathematical mirror of [`ArtifactFile`].
#[verifier::ext_equal]
pub struct ArtifactFileV {
    pub path: Seq<char>,
    pub content: Option<Seq<char>>,
}

impl DeepView for ArtifactFile {
    type V = ArtifactFileV;

    open spec fn deep_view(&self) -> ArtifactFileV {
        ArtifactFileV { path: self.path@, content: self.content.deep_view() }
    }
}

/// Why one artifact file was skipped.
#[derive(Debug, Clone, PartialEq)]
pub enum LoadFailure {
    /// The file could not be read.
    Unreadable,
    /// Its text is not well-formed JSON.
    Parse,
    /// The JSON tree does not decode into an analysis.
    Decode(DecodeError),
}

/// Mathematical mirror of [`LoadFailure`].
#[verifier::ext_equal]
pub enum LoadFailureV {
    Unreadable,
    Parse,
    Decode(DecodeErrorV),
}

impl DeepView for LoadFailure {
    type V = LoadFailureV;

    open spec fn deep_view(&self) -> LoadFailureV {
        match self {
            LoadFailure::Unreadable => LoadFailureV::Unreadable,
            LoadFailure::Parse => LoadFailureV::Parse,
            LoadFailure::Decode(e) => LoadFailureV::Decode(e.deep_view()),
        }
    }
}

/// A skipped artifact file: which one, and why.
#[derive(Debug, Clone, PartialEq)]
pub struct LoadDiagnostic {
    pub path: String,
    pub failure: LoadFailure,
}

/// Mathematical mirror of [`LoadDiagnostic`].
#[verifier::ext_equal]
pub struct LoadDiagnosticV {
    pub path: Seq<char>,
    pub failure: LoadFailureV,
}

impl DeepView for LoadDiagnostic {
    type V = LoadDiagnosticV;

    open spec fn deep_view(&self) -> LoadDiagnosticV {
        LoadDiagnosticV { path: self.path@, failure: self.failure.deep_view() }
    }
}

/// The outcome of one artifact file: its decoded analysis, or why it is
/// skipped.
pub open spec fn spec_load_one(content: Option<Seq<char>>) -> Result<AnalysisV, LoadFailureV> {
    match content {
        None => Err(LoadFailureV::Unreadable),
        Some(s) => match json_parse(s) {
            None => Err(LoadFailureV::Parse),
            Some(j) => match spec_decode_analysis(j) {
                Ok(a) => Ok(a),
                Err(e) => Err(LoadFailureV::Decode(e)),
            },
        },
    }
}

/// The analyses a batch of artifact files loads to, in input order.
pub open spec fn spec_loaded(files: Seq<ArtifactFileV>) -> Seq<AnalysisV>
    decreases files.len(),
{
    if files.len() == 0 {
        Seq::empty()
    } else {
        let rest = spec_loaded(files.drop_last());
        match spec_load_one(files.last().content) {
            Ok(a) => rest.push(a),
            Err(_) => rest,
        }
    }
}

/// The diagnostics a batch of artifact files produces, in input order.
pub open spec fn spec_load_diags(files: Seq<ArtifactFileV>) -> Seq<LoadDiagnosticV>
    decreases files.len(),
{
    if files.len() == 0 {
        Seq::empty()
    } else {
        let rest = spec_load_diags(files.drop_last());
        match spec_load_one(files.last().content) {
            Ok(_) => rest,
            Err(e) => rest.push(LoadDiagnosticV { path: files.last().path, failure: e }),
        }
    }
}

/// Loads a batch of artifact files: the decoded analyses in input order, and
/// one diagnostic for each skipped file. This operation never fails outright:
/// with nothing loadable it returns two empty vectors.
pub fn load_analyses(files: &Vec<ArtifactFile>) -> (r: (Vec<Analysis>, Vec<LoadDiagnostic>))
    ensures
        r.0.deep_view() == spec_loaded(files.deep_view()),
        r.1.deep_view() == spec_load_diags(files.deep_view()),
{
    let ghost fv = files.deep_view();
    let mut out: Vec<Analysis> = Vec::new();
    let mut diags: Vec<LoadDiagnostic> = Vec::new();
    let mut i: usize = 0;
    proof {
        assert(fv.take(0) =~= Seq::<ArtifactFileV>::empty());
        assert(out.deep_view() =~= Seq::<AnalysisV>::empty());
        assert(diags.deep_view() =~= Seq::<LoadDiagnosticV>::empty());
    }
    while i < files.len()
        invariant
            i <= files@.len(),
            fv == files.deep_view(),
            fv.len() == files@.len(),
            forall|k: int| 0 <= k < files@.len() ==> fv[k] == files@[k].deep_view(),
            out.deep_view() == spec_loaded(fv.take(i as int)),
            diags.deep_view() == spec_load_diags(fv.take(i as int)),
        decreases files@.len() - i,
    {
        proof {
            assert(fv.take(i as int + 1).drop_last() =~= fv.take(i as int));
            assert(fv.take(i as int + 1).last() == fv[i as int]);
        }
        let file = &files[i];
        let ghost prev = out.deep_view();
        let ghost prevd = diags.deep_view();
        match &file.content {
            None => {
                let d = LoadDiagnostic { path: file.path.clone(), failure: LoadFailure::Unreadable };
                diags.push(d);
                proof {
                    assert(diags.deep_view() =~= prevd.push(d.deep_view()));
                }
            },
            Some(text) => {
                match parse_json(text.as_str()) {
                    None => {
                        let d = LoadDiagnostic { path: file.path.clone(), failure: LoadFailure::Parse };
                        diags.push(d);
                        proof {
                            assert(diags.deep_view() =~= prevd.push(d.deep_view()));
                        }
                    },
                    Some(json) => {
                        match decode_analysis(&json) {
                            Ok(a) => {
                                out.push(a);
                                proof {
                                    assert(out.deep_view() =~= prev.push(a.deep_view()));
                                }
                            },
                            Err(e) => {
                                let d = LoadDiagnostic {
                                    path: file.path.clone(),
                                    failure: LoadFailure::Decode(e),
                                };
                                diags.push(d);
                                proof {
                                    assert(diags.deep_view() =~= prevd.push(d.deep_view()));
                                }
                            },
                        }
                    },
                }
            },
        }
        i += 1;
    }
    proof {
        assert(fv.take(i as int) =~= fv);
    }
    (out, diags)
}

/// An artifact that fails to load is skipped and nothing else changes: the
/// batch loads to exactly what the batch without that file loads to.
pub proof fn lemma_failed_artifact_skipped(files: Seq<ArtifactFileV>, i: int)
    requires
        0 <= i < files.len(),
        spec_load_one(files[i].content) is Err,
    ensures
        spec_loaded(files) == spec_loaded(files.remove(i)),
    decreases files.len(),
{
    if i == files.len() - 1 {
        assert(files.remove(i) =~= files.drop_last());
    } else {
        assert(files.remove(i).drop_last() =~= files.drop_last().remove(i));
        assert(files.remove(i).last() == files.last());
        lemma_failed_artifact_skipped(files.drop_last(), i);
    }
}

/// With no artifact files at all, the loader owes an empty result and no
/// diagnostics.
pub proof fn lemma_no_files_loads_nothing()
    ensures
        spec_loaded(Seq::empty()) == Seq::<AnalysisV>::empty(),
        spec_load_diags(Seq::empty()) == Seq::<LoadDiagnosticV>::empty(),
{
}

} // verus!
