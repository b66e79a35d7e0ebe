//! The builder: the immutable configuration, the plan for one external build
//! invocation — program, arguments and compiler flags — and the assembly of
//! the captured process output into a result.
//!
//! Running the planned process and reading artifact files off disk is the
//! caller's part; every decision around those steps is made here.

use vstd::prelude::*;
use vstd::utf8::{decode_utf8, valid_utf8};

use crate::model::Analysis;
use crate::strutil::{chars_of, string_from_chars, string_from_utf8};

verus! {

broadcast use {vstd::seq::group_seq_axioms, vstd::std_specs::vec::group_vec_axioms};

/// The configuration a builder is constructed with: the build command as one
/// space-separated string, and whether analysis artifacts are requested.
#[derive(Debug, Clone, PartialEq)]
pub struct Config {
    pub build_command: String,
    pub save_analysis: bool,
}

/// Drives one external build invocation; stateless but for its configuration.
#[derive(Debug, Clone, PartialEq)]
pub struct Builder {
    pub config: Config,
}

/// Why a build could not be carried out.
#[derive(Debug, Clone, PartialEq)]
pub enum BuildError {
    /// The configured build command holds no program name.
    NoCommand,
    /// The operating system could not start the build process.
    SpawnFailed { command: String, message: String },
    /// The captured output streams are not decodable as text.
    NonTextOutput,
}

/// What to run: a program, its arguments, the compiler flags to hand down,
/// and the environment variable carrying them.
#[derive(Debug, Clone, PartialEq)]
pub struct BuildPlan {
    pub program: String,
    pub args: Vec<String>,
    pub env_var: String,
    pub env_value: String,
}

/// The outcome of one build invocation.
#[derive(Debug, Clone, PartialEq)]
pub struct BuildResult {
    pub status: Option<i32>,
    pub stdout: String,
    pub stderr: String,
    pub analysis: Vec<Analysis>,
}

// ---------------------------------------------------------------------------
// Command splitting
// ---------------------------------------------------------------------------

/// A whitespace separator in a command string.
pub open spec fn is_sep(c: char) -> bool {
    c == ' ' || c == '\t' || c == '\n' || c == '\r'
}

/// The tokenizer's state after reading a prefix: the finished tokens and the
/// token still being read.
pub open spec fn tok_state(s: Seq<char>) -> (Seq<Seq<char>>, Seq<char>)
    decreases s.len(),
{
    if s.len() == 0 {
        (Seq::empty(), Seq::empty())
    } else {
        let st = tok_state(s.drop_last());
        let c = s.last();
        if is_sep(c) {
            if st.1.len() == 0 {
                st
            } else {
                (st.0.push(st.1), Seq::empty())
            }
        } else {
            (st.0, st.1.push(c))
        }
    }
}

/// The whitespace-separated tokens of a command string, empties dropped.
pub open spec fn tokens_of(s: Seq<char>) -> Seq<Seq<char>> {
    let st = tok_state(s);
    if st.1.len() == 0 {
        st.0
    } else {
        st.0.push(st.1)
    }
}

/// Splits a command string into its whitespace-separated tokens.
pub fn split_tokens(s: &str) -> (r: Vec<String>)
    ensures
        r.deep_view() == tokens_of(s@),
{
    let cs = chars_of(s);
    let mut toks: Vec<String> = Vec::new();
    let mut cur: Vec<char> = Vec::new();
    let mut i: usize = 0;
    proof {
        assert(s@.take(0) =~= Seq::<char>::empty());
        assert(toks.deep_view() =~= Seq::<Seq<char>>::empty());
    }
    while i < cs.len()
        invariant
            i <= cs@.len(),
            cs@ == s@,
            toks.deep_view() == tok_state(s@.take(i as int)).0,
            cur@ == tok_state(s@.take(i as int)).1,
        decreases cs@.len() - i,
    {
        proof {
            assert(s@.take(i as int + 1).drop_last() =~= s@.take(i as int));
            assert(s@.take(i as int + 1).last() == s@[i as int]);
        }
        let c = cs[i];
        if c == ' ' || c == '\t' || c == '\n' || c == '\r' {
            if cur.len() > 0 {
                let ghost prev = toks.deep_view();
                let t = string_from_chars(&cur);
                toks.push(t);
                cur = Vec::new();
                proof {
                    assert(toks.deep_view() =~= prev.push(t@));
                }
            }
        } else {
            cur.push(c);
        }
        i += 1;
    }
    proof {
        assert(s@.take(i as int) =~= s@);
    }
    if cur.len() > 0 {
        let ghost prev = toks.deep_view();
        let t = string_from_chars(&cur);
        toks.push(t);
        proof {
            assert(toks.deep_view() =~= prev.push(t@));
        }
    }
    toks
}

/// A command string of separators alone ends in the empty tokenizer state.
proof fn lemma_all_sep_tok_state(s: Seq<char>)
    requires
        forall|i: int| 0 <= i < s.len() ==> is_sep(s[i]),
    ensures
        tok_state(s) == (Seq::<Seq<char>>::empty(), Seq::<char>::empty()),
    decreases s.len(),
{
    if s.len() > 0 {
        lemma_all_sep_tok_state(s.drop_last());
    }
}

/// A command string of only whitespace holds no tokens at all, so planning a
/// build from it owes the missing-command error.
pub proof fn lemma_whitespace_only_no_tokens(s: Seq<char>)
    requires
        forall|i: int| 0 <= i < s.len() ==> is_sep(s[i]),
    ensures
        tokens_of(s).len() == 0,
{
    lemma_all_sep_tok_state(s);
}

// ---------------------------------------------------------------------------
// The plan
// ---------------------------------------------------------------------------

/// The flags handed to the compiler: the machine-readable diagnostic format
/// always, emission of analysis artifacts only where requested.
pub fn rustflags(save_analysis: bool) -> (r: String)
    ensures
        save_analysis ==> r@ == "-Zunstable-options --error-format json -Zsave-analysis"@,
        !save_analysis ==> r@ == "-Zunstable-options --error-format json"@,
{
    if save_analysis {
        "-Zunstable-options --error-format json -Zsave-analysis".to_owned()
    } else {
        "-Zunstable-options --error-format json".to_owned()
    }
}

/// The candidate directories artifact files are looked for in, in scan
/// order: the primary output directory first, the dependency-analysis
/// subdirectory second.
pub fn candidate_dirs() -> (r: Vec<String>)
    ensures
        r.deep_view() == seq!["target/debug/save-analysis"@, "target/debug/deps/save-analysis"@],
{
    let mut v: Vec<String> = Vec::new();
    v.push("target/debug/save-analysis".to_owned());
    v.push("target/debug/deps/save-analysis".to_owned());
    proof {
        assert(v.deep_view() =~= seq![
            "target/debug/save-analysis"@,
            "target/debug/deps/save-analysis"@,
        ]);
    }
    v
}

impl Builder {
    /// Wraps a configuration; each build planned from it is independent.
    pub fn from_config(config: Config) -> (r: Builder)
        ensures
            r.config == config,
    {
        Builder { config }
    }

    /// Plans one build: the command split into program and full argument
    /// list, and the compiler flags for the environment. A command of no
    /// tokens is the missing-command error, and nothing is run.
    pub fn plan(&self) -> (r: Result<BuildPlan, BuildError>)
        ensures
            r is Ok <==> tokens_of(self.config.build_command@).len() > 0,
            r matches Ok(p) ==> {
                let toks = tokens_of(self.config.build_command@);
                &&& p.program@ == toks[0]
                &&& p.args.deep_view() == toks.drop_first()
                &&& p.env_var@ == "RUSTFLAGS"@
                &&& (self.config.save_analysis ==> p.env_value@
                    == "-Zunstable-options --error-format json -Zsave-analysis"@)
                &&& (!self.config.save_analysis ==> p.env_value@
                    == "-Zunstable-options --error-format json"@)
            },
            r matches Err(e) ==> e == BuildError::NoCommand,
    {
        let mut toks = split_tokens(self.config.build_command.as_str());
        if toks.len() == 0 {
            return Err(BuildError::NoCommand);
        }
        let program = toks.remove(0);
        proof {
            assert(toks.deep_view() =~= tokens_of(self.config.build_command@).drop_first());
        }
        Ok(
            BuildPlan {
                program,
                args: toks,
                env_var: "RUSTFLAGS".to_owned(),
                env_value: rustflags(self.config.save_analysis),
            },
        )
    }
}

impl BuildResult {
    /// Assembles the result from the captured process output and the loaded
    /// analyses. The captured byte streams must both be text: anything else
    /// is the non-text-output error.
    pub fn from_process_output(
        status: Option<i32>,
        stdout: Vec<u8>,
        stderr: Vec<u8>,
        analysis: Vec<Analysis>,
    ) -> (r: Result<BuildResult, BuildError>)
        ensures
            r is Ok <==> valid_utf8(stdout@) && valid_utf8(stderr@),
            r matches Ok(b) ==> b.status == status && b.stdout@ == decode_utf8(stdout@)
                && b.stderr@ == decode_utf8(stderr@) && b.analysis == analysis,
            r matches Err(e) ==> e == BuildError::NonTextOutput,
    {
        let out = match string_from_utf8(stdout) {
            Some(s) => s,
            None => { return Err(BuildError::NonTextOutput) },
        };
        let err = match string_from_utf8(stderr) {
            Some(s) => s,
            None => { return Err(BuildError::NonTextOutput) },
        };
        Ok(BuildResult { status, stdout: out, stderr: err, analysis })
    }

    /// A canned result for exercising consumers without running a build.
    pub fn test_result() -> (r: BuildResult)
        ensures
            r.status == Some(0i32),
            r.stdout@ == "   Compiling zero v0.1.2   \nCompiling xmas-elf v0.2.0 (file:///home/ncameron/dwarf/xmas-elf)\n"@,
            r.stderr@ == "{\"message\":\"use of deprecated item: use raw accessors/constructors in `slice` module, #[warn(deprecated)] on by default\",\"code\":null,\"level\":\"warning\",\"spans\":[{\"file_name\":\"src/sections.rs\",\"byte_start\":25644,\"byte_end\":25653,\"line_start\":484,\"line_end\":484,\"column_start\":38,\"column_end\":47,\"text\":[{\"text\":\"            let slice = raw::Slice { data: ptr, len: self.desc_size as usize };\",\"highlight_start\":38,\"highlight_end\":47}]}],\"children\":[]}\n{\"message\":\"use of deprecated item: use raw accessors/constructors in `slice` module, #[warn(deprecated)] on by default\",\"code\":null,\"level\":\"warning\",\"spans\":[{\"file_name\":\"src/sections.rs\",\"byte_start\":25655,\"byte_end\":25683,\"line_start\":484,\"line_end\":484,\"column_start\":49,\"column_end\":77,\"text\":[{\"text\":\"            let slice = raw::Slice { data: ptr, len: self.desc_size as usize };\",\"highlight_start\":49,\"highlight_end\":77}]}],\"children\":[]}\n{\"message\":\"use of deprecated item: use raw accessors/constructors in `slice` module, #[warn(deprecated)] on by default\",\"code\":null,\"level\":\"warning\",\"spans\":[{\"file_name\":\"src/sections.rs\",\"byte_start\":25631,\"byte_end\":25641,\"line_start\":484,\"line_end\":484,\"column_start\":25,\"column_end\":35,\"text\":[{\"text\":\"            let slice = raw::Slice { data: ptr, len: self.desc_size as usize };\",\"highlight_start\":25,\"highlight_end\":35}]}],\"children\":[]}\n{\"message\":\"unused variable: `file`, #[warn(unused_variables)] on by default\",\"code\":null,\"level\":\"warning\",\"spans\":[{\"file_name\":\"src/sections.rs\",\"byte_start\":25791,\"byte_end\":25795,\"line_start\":490,\"line_end\":490,\"column_start\":52,\"column_end\":56,\"text\":[{\"text\":\"pub fn sanity_check<'a>(header: SectionHeader<'a>, file: &ElfFile<'a>) -> Result<(), &'static str> {\",\"highlight_start\":52,\"highlight_end\":56}]}],\"children\":[]}\n{\"message\":\"unused variable: `name`, #[warn(unused_variables)] on by default\",\"code\":null,\"level\":\"warning\",\"spans\":[{\"file_name\":\"src/hash.rs\",\"byte_start\":45976,\"byte_end\":45980,\"line_start\":43,\"line_end\":43,\"column_start\":36,\"column_end\":40,\"text\":[{\"text\":\"    pub fn lookup<'a, F>(&'a self, name: &str, f: F) -> &'a Entry\",\"highlight_start\":36,\"highlight_end\":40}]}],\"children\":[]}\n{\"message\":\"unused variable: `f`, #[warn(unused_variables)] on by default\",\"code\":null,\"level\":\"warning\",\"spans\":[{\"file_name\":\"src/hash.rs\",\"byte_start\":45988,\"byte_end\":45989,\"line_start\":43,\"line_end\":43,\"column_start\":48,\"column_end\":49,\"text\":[{\"text\":\"    pub fn lookup<'a, F>(&'a self, name: &str, f: F) -> &'a Entry\",\"highlight_start\":48,\"highlight_end\":49}]}],\"children\":[]}\n{\"message\":\"unused import, #[warn(unused_imports)] on by default\",\"code\":null,\"level\":\"warning\",\"spans\":[{\"file_name\":\"src/bin/main.rs\",\"byte_start\":108,\"byte_end\":114,\"line_start\":4,\"line_end\":4,\"column_start\":32,\"column_end\":38,\"text\":[{\"text\":\"use xmas_elf::sections::{self, ShType};\",\"highlight_start\":32,\"highlight_end\":38}]}],\"children\":[]}\n"@,
            r.analysis@.len() == 0,
    {
        let stdout = "   Compiling zero v0.1.2   \nCompiling xmas-elf v0.2.0 (file:///home/ncameron/dwarf/xmas-elf)\n".to_owned();
        let stderr = "{\"message\":\"use of deprecated item: use raw accessors/constructors in `slice` module, #[warn(deprecated)] on by default\",\"code\":null,\"level\":\"warning\",\"spans\":[{\"file_name\":\"src/sections.rs\",\"byte_start\":25644,\"byte_end\":25653,\"line_start\":484,\"line_end\":484,\"column_start\":38,\"column_end\":47,\"text\":[{\"text\":\"            let slice = raw::Slice { data: ptr, len: self.desc_size as usize };\",\"highlight_start\":38,\"highlight_end\":47}]}],\"children\":[]}\n{\"message\":\"use of deprecated item: use raw accessors/constructors in `slice` module, #[warn(deprecated)] on by default\",\"code\":null,\"level\":\"warning\",\"spans\":[{\"file_name\":\"src/sections.rs\",\"byte_start\":25655,\"byte_end\":25683,\"line_start\":484,\"line_end\":484,\"column_start\":49,\"column_end\":77,\"text\":[{\"text\":\"            let slice = raw::Slice { data: ptr, len: self.desc_size as usize };\",\"highlight_start\":49,\"highlight_end\":77}]}],\"children\":[]}\n{\"message\":\"use of deprecated item: use raw accessors/constructors in `slice` module, #[warn(deprecated)] on by default\",\"code\":null,\"level\":\"warning\",\"spans\":[{\"file_name\":\"src/sections.rs\",\"byte_start\":25631,\"byte_end\":25641,\"line_start\":484,\"line_end\":484,\"column_start\":25,\"column_end\":35,\"text\":[{\"text\":\"            let slice = raw::Slice { data: ptr, len: self.desc_size as usize };\",\"highlight_start\":25,\"highlight_end\":35}]}],\"children\":[]}\n{\"message\":\"unused variable: `file`, #[warn(unused_variables)] on by default\",\"code\":null,\"level\":\"warning\",\"spans\":[{\"file_name\":\"src/sections.rs\",\"byte_start\":25791,\"byte_end\":25795,\"line_start\":490,\"line_end\":490,\"column_start\":52,\"column_end\":56,\"text\":[{\"text\":\"pub fn sanity_check<'a>(header: SectionHeader<'a>, file: &ElfFile<'a>) -> Result<(), &'static str> {\",\"highlight_start\":52,\"highlight_end\":56}]}],\"children\":[]}\n{\"message\":\"unused variable: `name`, #[warn(unused_variables)] on by default\",\"code\":null,\"level\":\"warning\",\"spans\":[{\"file_name\":\"src/hash.rs\",\"byte_start\":45976,\"byte_end\":45980,\"line_start\":43,\"line_end\":43,\"column_start\":36,\"column_end\":40,\"text\":[{\"text\":\"    pub fn lookup<'a, F>(&'a self, name: &str, f: F) -> &'a Entry\",\"highlight_start\":36,\"highlight_end\":40}]}],\"children\":[]}\n{\"message\":\"unused variable: `f`, #[warn(unused_variables)] on by default\",\"code\":null,\"level\":\"warning\",\"spans\":[{\"file_name\":\"src/hash.rs\",\"byte_start\":45988,\"byte_end\":45989,\"line_start\":43,\"line_end\":43,\"column_start\":48,\"column_end\":49,\"text\":[{\"text\":\"    pub fn lookup<'a, F>(&'a self, name: &str, f: F) -> &'a Entry\",\"highlight_start\":48,\"highlight_end\":49}]}],\"children\":[]}\n{\"message\":\"unused import, #[warn(unused_imports)] on by default\",\"code\":null,\"level\":\"warning\",\"spans\":[{\"file_name\":\"src/bin/main.rs\",\"byte_start\":108,\"byte_end\":114,\"line_start\":4,\"line_end\":4,\"column_start\":32,\"column_end\":38,\"text\":[{\"text\":\"use xmas_elf::sections::{self, ShType};\",\"highlight_start\":32,\"highlight_end\":38}]}],\"children\":[]}\n".to_owned();
        BuildResult { status: Some(0), stdout, stderr, analysis: Vec::new() }
    }
}

} // verus!
