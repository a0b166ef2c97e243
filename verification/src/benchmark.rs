//! The benchmark sweep's reading of paths and of what a fuzzer run printed.

use vstd::prelude::*;
use crate::numerals::{parse_unsigned, read_unsigned, signed_decimal, write_signed_decimal};
use crate::text::{
    append_chars, append_str, chars_of, contains, contains_str, slice_of, split, split_chars,
    split_words, string_of, words,
};

verus! {

/// A source that is a helper of the benchmark suite and no contract to fuzz:
/// one below a `lib` directory, or one of the suite's own helper files.
pub open spec fn is_helper_path(path: Seq<char>) -> bool {
    contains(path, "/lib/"@) || contains(path, "interface.sol"@) || contains(
        path,
        "basetest.sol"@,
    ) || contains(path, "tokenhelper.sol"@) || contains(path, "StableMath.sol"@)
}

/// Says whether the source at `path` is left out of the sweep.
pub fn is_test_contract(path: &str) -> (r: bool)
    ensures
        r == is_helper_path(path@),
{
    let p = chars_of(path);
    contains_str(&p, "/lib/") || contains_str(&p, "interface.sol") || contains_str(
        &p,
        "basetest.sol",
    ) || contains_str(&p, "tokenhelper.sol") || contains_str(&p, "StableMath.sol")
}

/// The number that a word stands for, where it is a decimal numeral that
/// fits the machine word.
pub open spec fn word_number(word: Seq<char>) -> Option<nat> {
    parse_unsigned(word, 10, usize::MAX as nat)
}

/// The first number among `words`.
pub open spec fn first_number(words: Seq<Seq<char>>) -> Option<nat>
    decreases words.len(),
{
    if words.len() == 0 {
        None
    } else {
        match word_number(words[0]) {
            Some(n) => Some(n),
            None => first_number(words.drop_first()),
        }
    }
}

/// The first number that stands as a word of its own in `s`.
pub open spec fn number_in(s: Seq<char>) -> Option<nat> {
    first_number(words(s))
}

fn extract_number_chars(s: &Vec<char>) -> (r: Option<usize>)
    ensures
        match r {
            Some(n) => number_in(s@) == Some(n as nat),
            None => number_in(s@) is None,
        },
{
    let parts = split_words(s);
    let ghost all = words(s@);
    let mut i: usize = 0;
    assert(all.skip(0) == all);
    while i < parts.len()
        invariant
            i <= parts.len() == all.len(),
            forall|k: int| 0 <= k < parts.len() ==> (#[trigger] parts[k])@ == all[k],
            all == words(s@),
            first_number(all) == first_number(all.skip(i as int)),
        decreases parts.len() - i,
    {
        assert(all.skip(i as int).drop_first() == all.skip(i + 1));
        match read_unsigned(&parts[i], 10, usize::MAX as u128) {
            Some(n) => {
                return Some(n as usize);
            },
            None => {},
        }
        i += 1;
    }
    None
}

/// The first number that stands as a word of its own in `s`.
pub fn extract_number(s: &str) -> (r: Option<usize>)
    ensures
        match r {
            Some(n) => number_in(s@) == Some(n as nat),
            None => number_in(s@) is None,
        },
{
    extract_number_chars(&chars_of(s))
}

/// The mark of the line that counts the runs that passed.
pub open spec fn passed_mark() -> Seq<char> {
    "\u{2705}"@
}

/// The mark of the line that counts the runs that failed.
pub open spec fn failed_mark() -> Seq<char> {
    "\u{274c}"@
}

/// The count that the lines report: the number on the last line that holds
/// both `mark` and `phrase` and a number, and zero where there is none.
pub open spec fn reported_count(lines: Seq<Seq<char>>, mark: Seq<char>, phrase: Seq<char>) -> nat
    decreases lines.len(),
{
    if lines.len() == 0 {
        0
    } else {
        let line = lines.last();
        if contains(line, mark) && contains(line, phrase) && number_in(line) is Some {
            number_in(line)->0
        } else {
            reported_count(lines.drop_last(), mark, phrase)
        }
    }
}

/// What the output of a fuzzer run says about a compilation failure.
pub open spec fn reports_compilation_failure(stdout: Seq<char>, stderr: Seq<char>) -> bool {
    contains(stderr, "Compilation failed"@) || contains(stderr, "Unable to resolve imports"@)
        || contains(stderr, "forge compilation failed"@) || contains(
        stdout,
        "Compilation failed"@,
    ) || contains(stderr, "Contract compilation failed"@)
}

/// What a fuzzer run found.
#[derive(Debug, Clone, Copy, PartialEq, Eq, Structural)]
pub struct RunFindings {
    /// The run found a failing call.
    pub detected: bool,
    /// The runs that passed.
    pub passed: usize,
    /// The runs that failed.
    pub failed: usize,
}

/// What the output of a fuzzer run means: the counts that it reports, and a
/// detection where the contract compiled, runs were made, and one of them
/// failed.
pub open spec fn findings_of(stdout: Seq<char>, stderr: Seq<char>) -> RunFindings {
    let lines = split(stdout, '\n');
    let passed = reported_count(lines, passed_mark(), "runs passed"@);
    let failed = reported_count(lines, failed_mark(), "runs failed"@);
    RunFindings {
        detected: !reports_compilation_failure(stdout, stderr) && (passed > 0 || failed > 0) && (
        failed > 0 || contains(stdout, "FAILED"@)),
        passed: passed as usize,
        failed: failed as usize,
    }
}

fn count_reported(lines: &Vec<Vec<char>>, mark: &str, phrase: &str) -> (r: usize)
    ensures
        r == reported_count(Seq::new(lines.len() as nat, |k: int| lines[k]@), mark@, phrase@),
{
    let ghost all = Seq::new(lines.len() as nat, |k: int| lines[k]@);
    let mut count: usize = 0;
    let mut i: usize = 0;
    while i < lines.len()
        invariant
            i <= lines.len(),
            all == Seq::new(lines.len() as nat, |k: int| lines[k]@),
            count == reported_count(all.take(i as int), mark@, phrase@),
        decreases lines.len() - i,
    {
        assert(all.take(i + 1).drop_last() == all.take(i as int));
        if contains_str(&lines[i], mark) && contains_str(&lines[i], phrase) {
            match extract_number_chars(&lines[i]) {
                Some(n) => {
                    count = n;
                },
                None => {},
            }
        }
        i += 1;
    }
    assert(all.take(lines.len() as int) == all);
    count
}

/// Reads what a fuzzer run printed.
pub fn read_findings(stdout: &str, stderr: &str) -> (r: RunFindings)
    ensures
        r == findings_of(stdout@, stderr@),
{
    let out = chars_of(stdout);
    let err = chars_of(stderr);
    let compilation_failure = contains_str(&err, "Compilation failed") || contains_str(
        &err,
        "Unable to resolve imports",
    ) || contains_str(&err, "forge compilation failed") || contains_str(&out, "Compilation failed")
        || contains_str(&err, "Contract compilation failed");
    let lines = split_chars(&out, '\n');
    assert(Seq::new(lines.len() as nat, |k: int| lines[k]@) =~= split(stdout@, '\n'));
    let passed = count_reported(&lines, "\u{2705}", "runs passed");
    let failed = count_reported(&lines, "\u{274c}", "runs failed");
    let detected = !compilation_failure && (passed > 0 || failed > 0) && (failed > 0
        || contains_str(&out, "FAILED"));
    RunFindings { detected, passed, failed }
}

/// The message for a fuzzer run that ended with the exit code `code`: the
/// code, and the first two hundred characters of what it wrote to its error
/// stream.
pub open spec fn exit_text(code: i32, stderr: Seq<char>) -> Seq<char> {
    "Exit code: "@ + signed_decimal(code as int) + ", stderr: "@ + (if stderr.len() > 200 {
        stderr.take(200)
    } else {
        stderr
    })
}

/// Describes a fuzzer run that ended with the exit code `code`.
pub fn describe_exit(code: i32, stderr: &str) -> (r: String)
    ensures
        r@ == exit_text(code, stderr@),
{
    let err = chars_of(stderr);
    let mut text = chars_of("Exit code: ");
    append_chars(&mut text, &write_signed_decimal(code as i128));
    append_str(&mut text, ", stderr: ");
    if err.len() > 200 {
        append_chars(&mut text, &slice_of(&err, 0, 200));
    } else {
        append_chars(&mut text, &err);
    }
    string_of(&text)
}

/// How the sweep counts a fuzzer run.
#[derive(Debug, Clone, Copy, PartialEq, Eq, Structural)]
pub enum RunClass {
    /// The contract did not compile.
    CompilationError,
    /// A failing call was found.
    Detected,
    /// Runs were made and none failed.
    Clean,
    /// No run was made.
    NoResults,
}

/// The description of a run's end tells of a compilation failure.
pub open spec fn tells_of_compilation_failure(error: Option<Seq<char>>) -> bool {
    error matches Some(text) && (contains(text, "Compilation failed"@) || contains(
        text,
        "Unable to resolve imports"@,
    ) || contains(text, "forge compilation failed"@))
}

/// How the sweep counts a run with the end `error` and the findings
/// `findings`: a compilation failure first, then a detection, then a run
/// with results, and a run without results last.
pub open spec fn class_of(error: Option<Seq<char>>, findings: RunFindings) -> RunClass {
    if tells_of_compilation_failure(error) {
        RunClass::CompilationError
    } else if findings.detected {
        RunClass::Detected
    } else if findings.passed > 0 || findings.failed > 0 {
        RunClass::Clean
    } else {
        RunClass::NoResults
    }
}

/// Says how the sweep counts a fuzzer run.
pub fn classify_run(error: Option<&str>, findings: RunFindings) -> (r: RunClass)
    ensures
        r == class_of(
            match error {
                Some(text) => Some(text@),
                None => None,
            },
            findings,
        ),
{
    let compilation_failure = match error {
        Some(text) => {
            let chars = chars_of(text);
            contains_str(&chars, "Compilation failed") || contains_str(
                &chars,
                "Unable to resolve imports",
            ) || contains_str(&chars, "forge compilation failed")
        },
        None => false,
    };
    if compilation_failure {
        RunClass::CompilationError
    } else if findings.detected {
        RunClass::Detected
    } else if findings.passed > 0 || findings.failed > 0 {
        RunClass::Clean
    } else {
        RunClass::NoResults
    }
}

} // verus!
