use crate::lexer::chars::{is_whitespace, spec_is_whitespace};
use crate::strings::{chars_of, string_from_chars};
use std::path::PathBuf;
use vstd::prelude::*;

verus! {

#[verifier::external_type_specification]
#[verifier::external_body]
pub struct ExPathBuf(PathBuf);

/// A test program, with the file holding the output expected of it.
pub struct TestCase {
    pub source: PathBuf,
    pub stdout: Option<PathBuf>,
}

/// Runs the compiler on test programs and compares what it prints with
/// the output expected.
pub struct TestRunner {
    pub compiler_path: PathBuf,
    pub tests: Vec<TestCase>,
}

impl TestRunner {
    pub fn new(compiler_path: PathBuf) -> (t: TestRunner)
        ensures
            t.compiler_path == compiler_path,
            t.tests@.len() == 0,
    {
        TestRunner { compiler_path, tests: Vec::new() }
    }
}

/// Every `\r\n` replaced by `\n`, from left to right.
pub open spec fn crlf_to_lf(s: Seq<char>) -> Seq<char>
    decreases s.len(),
{
    if s.len() == 0 {
        s
    } else if s.len() >= 2 && s[0] == '\r' && s[1] == '\n' {
        seq!['\n'] + crlf_to_lf(s.skip(2))
    } else {
        seq![s[0]] + crlf_to_lf(s.skip(1))
    }
}

/// The text without the whitespace it ends with.
pub open spec fn trim_end(s: Seq<char>) -> Seq<char>
    decreases s.len(),
{
    if s.len() > 0 && spec_is_whitespace(s.last()) {
        trim_end(s.drop_last())
    } else {
        s
    }
}

/// Line ends made `\n`, and trailing whitespace dropped.
pub open spec fn spec_normalize(s: Seq<char>) -> Seq<char> {
    trim_end(crlf_to_lf(s))
}

pub fn normalize(s: String) -> (r: String)
    ensures
        r@ == spec_normalize(s@),
{
    let cs = chars_of(&s);
    let mut out: Vec<char> = Vec::new();
    let mut i: usize = 0;
    assert(cs@.skip(0) =~= cs@);
    while i < cs.len()
        invariant
            i <= cs.len(),
            cs@ == s@,
            out@ + crlf_to_lf(cs@.skip(i as int)) == crlf_to_lf(cs@),
        decreases cs.len() - i,
    {
        let ghost rest = cs@.skip(i as int);
        if i + 1 < cs.len() && cs[i] == '\r' && cs[i + 1] == '\n' {
            assert(rest.skip(2) =~= cs@.skip(i + 2));
            out.push('\n');
            i = i + 2;
            assert(out@ + crlf_to_lf(cs@.skip(i as int)) =~= crlf_to_lf(cs@));
        } else {
            assert(rest.skip(1) =~= cs@.skip(i + 1));
            out.push(cs[i]);
            i = i + 1;
            assert(out@ + crlf_to_lf(cs@.skip(i as int)) =~= crlf_to_lf(cs@));
        }
    }
    assert(cs@.skip(i as int) =~= Seq::<char>::empty());
    assert(out@ =~= crlf_to_lf(cs@));
    let ghost whole = out@;
    while out.len() > 0 && is_whitespace(out[out.len() - 1])
        invariant
            trim_end(out@) == trim_end(whole),
        decreases out.len(),
    {
        out.pop();
    }
    string_from_chars(&out)
}

/// Whether the output printed matches the output expected, once both are
/// normalized.
pub fn outputs_match(actual: String, expected: String) -> (r: bool)
    ensures
        r == (spec_normalize(actual@) == spec_normalize(expected@)),
{
    let a = normalize(actual);
    let e = normalize(expected);
    a == e
}

/// Normalized text does not end in whitespace.
pub proof fn law_normalized_has_no_trailing_whitespace(s: Seq<char>)
    ensures
        spec_normalize(s).len() > 0 ==> !spec_is_whitespace(spec_normalize(s).last()),
{
    lemma_trim_end(crlf_to_lf(s));
}

proof fn lemma_trim_end(s: Seq<char>)
    ensures
        trim_end(s).len() > 0 ==> !spec_is_whitespace(trim_end(s).last()),
    decreases s.len(),
{
    if s.len() > 0 && spec_is_whitespace(s.last()) {
        lemma_trim_end(s.drop_last());
    }
}

} // verus!
