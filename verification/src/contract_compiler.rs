//! The compiler adapter: which toolchain compiles a contract, how it is
//! invoked, where its output is found, and how that output is read.
//!
//! Running the toolchain and reading its files is the caller's part. The
//! caller says which tools exist, runs the command it is given, and hands
//! back what the tool printed and what the artifact holds.

use vstd::prelude::*;
use crate::error::{failure, ErrorKind, FuzzError, FuzzErrorModel};
use crate::hex_text::{decode_hex, hex_bytes, is_hex_text};
use crate::rpc::optional_text;
use crate::text::{
    append_str, chars_of, eq_str, slice_of, starts_with, starts_with_str, string_of, texts,
};

verus! {

/// The toolchains that were found: the path of the Foundry builder and the
/// path of the standalone compiler, where there is one.
pub struct ContractCompiler {
    forge_path: Option<String>,
    solc_path: Option<String>,
}

/// The mathematical view of a [`ContractCompiler`].
pub struct CompilerModel {
    pub forge_path: Option<Seq<char>>,
    pub solc_path: Option<Seq<char>>,
}

impl View for ContractCompiler {
    type V = CompilerModel;

    closed spec fn view(&self) -> CompilerModel {
        CompilerModel {
            forge_path: optional_text(self.forge_path),
            solc_path: optional_text(self.solc_path),
        }
    }
}

/// How a contract is compiled.
#[derive(Debug, Clone, Copy, PartialEq, Eq, Structural)]
pub enum CompileMode {
    /// By the Foundry builder, in the project that the source belongs to.
    ForgeInPlace,
    /// By the Foundry builder, in a project made for this one source.
    ForgeTemporary,
    /// By the standalone compiler.
    Solc,
}

/// A command to run.
#[derive(Debug, PartialEq)]
pub struct BuildCommand {
    pub mode: CompileMode,
    pub program: String,
    pub arguments: Vec<String>,
}

/// The mathematical view of a [`BuildCommand`].
pub struct BuildCommandModel {
    pub mode: CompileMode,
    pub program: Seq<char>,
    pub arguments: Seq<Seq<char>>,
}

impl View for BuildCommand {
    type V = BuildCommandModel;

    open spec fn view(&self) -> BuildCommandModel {
        BuildCommandModel {
            mode: self.mode,
            program: self.program@,
            arguments: texts(self.arguments@),
        }
    }
}

/// The command that compiles `source`, or why there is none.
///
/// The Foundry builder is preferred: in the source's own project where
/// `in_project` says that it has one, which takes the source as an argument,
/// and else in a project of its own. Without the builder the standalone
/// compiler is asked for the binary and the ABI in one JSON document. Without
/// either the session cannot start.
pub open spec fn build_plan(compiler: CompilerModel, source: Seq<char>, in_project: bool)
    -> Result<BuildCommandModel, FuzzErrorModel> {
    match compiler.forge_path {
        Some(forge) => if in_project {
            Ok(
                BuildCommandModel {
                    mode: CompileMode::ForgeInPlace,
                    program: forge,
                    arguments: seq!["build"@, "--force"@, source],
                },
            )
        } else {
            Ok(
                BuildCommandModel {
                    mode: CompileMode::ForgeTemporary,
                    program: forge,
                    arguments: seq!["build"@, "--force"@],
                },
            )
        },
        None => match compiler.solc_path {
            Some(solc) => Ok(
                BuildCommandModel {
                    mode: CompileMode::Solc,
                    program: solc,
                    arguments: seq!["--optimize"@, "--combined-json"@, "bin,abi"@, source],
                },
            ),
            None => Err(
                failure(
                    ErrorKind::Setup,
                    "No compiler available. Install Foundry (forge) or solc."@,
                ),
            ),
        },
    }
}

/// The message for a build that failed.
pub open spec fn build_failure_text(mode: CompileMode, stdout: Seq<char>, stderr: Seq<char>)
    -> Seq<char> {
    match mode {
        CompileMode::Solc => "Solc compilation failed: "@ + stderr,
        _ => "Forge compilation failed:\nSTDOUT: "@ + stdout + "\nSTDERR: "@ + stderr,
    }
}

/// The hexadecimal digits of a bytecode text: the text without a leading
/// `0x`.
pub open spec fn bytecode_digits(text: Seq<char>) -> Seq<char> {
    if starts_with(text, "0x"@) {
        text.skip(2)
    } else {
        text
    }
}

/// The first directory, from the nearest one outwards, that holds a project
/// configuration.
pub open spec fn first_project_root(directories: Seq<(String, bool)>) -> Option<Seq<char>>
    decreases directories.len(),
{
    if directories.len() == 0 {
        None
    } else if directories[0].1 {
        Some(directories[0].0@)
    } else {
        first_project_root(directories.drop_first())
    }
}

/// The place of a contract's artifact below the builder's output directory:
/// the directory `<stem>.sol`, then the file `<contract>.json`.
pub open spec fn artifact_place(stem: Seq<char>, contract_name: Seq<char>) -> (
    Seq<char>,
    Seq<char>,
) {
    (stem + ".sol"@, contract_name + ".json"@)
}

/// The key of a contract in the standalone compiler's document:
/// `<file>:<contract>`.
pub open spec fn combined_key(file_name: Seq<char>, contract_name: Seq<char>) -> Seq<char> {
    file_name + ":"@ + contract_name
}

impl ContractCompiler {
    /// The adapter for the toolchains found at `forge_path` and `solc_path`.
    pub fn new(forge_path: Option<String>, solc_path: Option<String>) -> (r: Self)
        ensures
            r@ == (CompilerModel {
                forge_path: optional_text(forge_path),
                solc_path: optional_text(solc_path),
            }),
    {
        ContractCompiler { forge_path, solc_path }
    }

    /// A toolchain was found.
    pub fn is_available(&self) -> (r: bool)
        ensures
            r == (self@.forge_path is Some || self@.solc_path is Some),
    {
        self.forge_path.is_some() || self.solc_path.is_some()
    }

    /// The command that compiles the source at `source_path`; `project_root`
    /// is the Foundry project that the source belongs to, where it has one.
    ///
    /// Fails as a setup failure exactly when no toolchain was found.
    pub fn compile_contract(&self, source_path: &str, project_root: Option<&str>) -> (r: Result<
        BuildCommand,
        FuzzError,
    >)
        ensures
            match r {
                Ok(command) => build_plan(self@, source_path@, project_root is Some) == Ok::<
                    BuildCommandModel,
                    FuzzErrorModel,
                >(command@),
                Err(e) => build_plan(self@, source_path@, project_root is Some) == Err::<
                    BuildCommandModel,
                    FuzzErrorModel,
                >(e@),
            },
    {
        let mut arguments: Vec<String> = Vec::new();
        match &self.forge_path {
            Some(forge) => {
                arguments.push(String::from_str("build"));
                arguments.push(String::from_str("--force"));
                if project_root.is_some() {
                    arguments.push(String::from_str(source_path));
                    let command = BuildCommand {
                        mode: CompileMode::ForgeInPlace,
                        program: forge.clone(),
                        arguments,
                    };
                    assert(command@.arguments =~= seq!["build"@, "--force"@, source_path@]);
                    Ok(command)
                } else {
                    let command = BuildCommand {
                        mode: CompileMode::ForgeTemporary,
                        program: forge.clone(),
                        arguments,
                    };
                    assert(command@.arguments =~= seq!["build"@, "--force"@]);
                    Ok(command)
                }
            },
            None => match &self.solc_path {
                Some(solc) => {
                    arguments.push(String::from_str("--optimize"));
                    arguments.push(String::from_str("--combined-json"));
                    arguments.push(String::from_str("bin,abi"));
                    arguments.push(String::from_str(source_path));
                    let command = BuildCommand {
                        mode: CompileMode::Solc,
                        program: solc.clone(),
                        arguments,
                    };
                    assert(command@.arguments =~= seq![
                        "--optimize"@,
                        "--combined-json"@,
                        "bin,abi"@,
                        source_path@,
                    ]);
                    Ok(command)
                },
                None => Err(
                    FuzzError::new(
                        ErrorKind::Setup,
                        String::from_str("No compiler available. Install Foundry (forge) or solc."),
                    ),
                ),
            },
        }
    }

    /// Finds the Foundry project that a source belongs to. `directories`
    /// lists the directories above the source from the nearest outwards, each
    /// with whether it holds `foundry.toml` or `remappings.txt`.
    pub fn find_foundry_project_root(directories: &Vec<(String, bool)>) -> (r: Option<String>)
        ensures
            optional_text(r) == first_project_root(directories@),
    {
        let mut i: usize = 0;
        assert(directories@.skip(0) == directories@);
        while i < directories.len()
            invariant
                i <= directories.len(),
                first_project_root(directories@) == first_project_root(
                    directories@.skip(i as int),
                ),
            decreases directories.len() - i,
        {
            assert(directories@.skip(i as int).drop_first() == directories@.skip(i + 1));
            if directories[i].1 {
                return Some(directories[i].0.clone());
            }
            i += 1;
        }
        None
    }
}

/// Reads how a build ended: nothing to report where it succeeded, and else
/// the compilation failure with what the tool printed.
pub fn check_build(mode: CompileMode, success: bool, stdout: &str, stderr: &str) -> (r: Result<
    (),
    FuzzError,
>)
    ensures
        match r {
            Ok(_) => success,
            Err(e) => !success && e@ == failure(
                ErrorKind::Compilation,
                build_failure_text(mode, stdout@, stderr@),
            ),
        },
{
    if success {
        return Ok(());
    }
    let text = match mode {
        CompileMode::Solc => {
            let mut text = chars_of("Solc compilation failed: ");
            append_str(&mut text, stderr);
            text
        },
        _ => {
            let mut text = chars_of("Forge compilation failed:\nSTDOUT: ");
            append_str(&mut text, stdout);
            append_str(&mut text, "\nSTDERR: ");
            append_str(&mut text, stderr);
            text
        },
    };
    Err(FuzzError::new(ErrorKind::Compilation, string_of(&text)))
}

/// Reads the deployment bytecode out of the hexadecimal text of an artifact,
/// with or without a `0x` prefix.
///
/// Fails as a compilation failure exactly when what follows the prefix is not
/// an even number of hexadecimal digits.
pub fn decode_bytecode(text: &str) -> (r: Result<Vec<u8>, FuzzError>)
    ensures
        match r {
            Ok(bytes) => is_hex_text(bytecode_digits(text@)) && bytes@ == hex_bytes(
                bytecode_digits(text@),
            ),
            Err(e) => !is_hex_text(bytecode_digits(text@)) && e@ == failure(
                ErrorKind::Compilation,
                "Bytecode in artifact is not hexadecimal"@,
            ),
        },
{
    let chars = chars_of(text);
    let digits = if starts_with_str(&chars, "0x") {
        proof {
            reveal_strlit("0x");
        }
        slice_of(&chars, 2, chars.len())
    } else {
        chars
    };
    match decode_hex(string_of(&digits).as_str()) {
        Ok(bytes) => Ok(bytes),
        Err(_) => Err(
            FuzzError::new(
                ErrorKind::Compilation,
                String::from_str("Bytecode in artifact is not hexadecimal"),
            ),
        ),
    }
}

/// The place of a contract's artifact below the builder's output directory.
pub fn artifact_location(stem: &str, contract_name: &str) -> (r: (String, String))
    ensures
        (r.0@, r.1@) == artifact_place(stem@, contract_name@),
{
    let mut directory = chars_of(stem);
    append_str(&mut directory, ".sol");
    let mut file = chars_of(contract_name);
    append_str(&mut file, ".json");
    (string_of(&directory), string_of(&file))
}

/// The key of a contract in the standalone compiler's document.
pub fn combined_json_key(file_name: &str, contract_name: &str) -> (r: String)
    ensures
        r@ == combined_key(file_name@, contract_name@),
{
    let mut key = chars_of(file_name);
    append_str(&mut key, ":");
    append_str(&mut key, contract_name);
    string_of(&key)
}

/// The index of the last `.` in `name`, if there is one.
pub open spec fn last_dot(name: Seq<char>) -> Option<int>
    decreases name.len(),
{
    if name.len() == 0 {
        None
    } else if name.last() == '.' {
        Some(name.len() - 1)
    } else {
        last_dot(name.drop_last())
    }
}

/// The stem of a file name: the name up to its last `.`, and the whole name
/// where it has no `.` or only one at its start.
pub open spec fn stem_of(name: Seq<char>) -> Seq<char> {
    match last_dot(name) {
        Some(i) => if i > 0 {
            name.take(i)
        } else {
            name
        },
        None => name,
    }
}

/// The stem of a file name.
pub fn file_stem(name: &str) -> (r: String)
    ensures
        r@ == stem_of(name@),
{
    let chars = chars_of(name);
    let mut i: usize = chars.len();
    assert(chars@.take(i as int) == chars@);
    while i > 0
        invariant
            i <= chars.len(),
            chars@ == name@,
            last_dot(chars@) == last_dot(chars@.take(i as int)),
        decreases i,
    {
        assert(chars@.take(i as int).drop_last() == chars@.take(i - 1));
        if chars[i - 1] == '.' {
            if i - 1 > 0 {
                return string_of(&slice_of(&chars, 0, i - 1));
            } else {
                return string_of(&chars);
            }
        }
        i -= 1;
    }
    string_of(&chars)
}

/// The directories of a source below the builder's output directory: the
/// directories that lead to it from its project, without a leading `src`.
pub open spec fn directories_below_src(source: Seq<Seq<char>>) -> Seq<Seq<char>> {
    let directories = source.drop_last();
    if directories.len() > 0 && directories[0] == "src"@ {
        directories.drop_first()
    } else {
        directories
    }
}

/// Where the builder puts the artifact of a contract, as the parts of a path
/// from the project: `out`, the directories of the source below `src`, the
/// directory `<stem>.sol`, and the file `<contract>.json`. A source without
/// parts has no artifact.
pub open spec fn artifact_parts(source: Seq<Seq<char>>, contract_name: Seq<char>) -> Seq<
    Seq<char>,
> {
    if source.len() == 0 {
        Seq::empty()
    } else {
        seq!["out"@] + directories_below_src(source) + seq![
            stem_of(source.last()) + ".sol"@,
            contract_name + ".json"@,
        ]
    }
}

/// Says where the builder puts the artifact of the contract `contract_name`
/// of the source whose path from its project has the parts `source`.
pub fn expected_artifact(source: &Vec<String>, contract_name: &str) -> (r: Vec<String>)
    ensures
        texts(r@) == artifact_parts(
            texts(source@),
            contract_name@,
        ),
{
    let ghost parts = texts(source@);
    let mut out: Vec<String> = Vec::new();
    if source.len() == 0 {
        return out;
    }
    out.push(String::from_str("out"));
    let last = source.len() - 1;
    let first: usize = if last > 0 && eq_str(&chars_of(source[0].as_str()), "src") {
        1
    } else {
        0
    };
    let mut i: usize = first;
    while i < last
        invariant
            first <= i <= last < source.len(),
            parts == texts(source@),
            texts(out@) == seq!["out"@] + parts.subrange(
                first as int,
                i as int,
            ),
        decreases last - i,
    {
        let ghost before = texts(out@);
        out.push(source[i].clone());
        assert(texts(out@) =~= before.push(parts[i as int]));
        i += 1;
    }
    let place = artifact_location(file_stem(source[last].as_str()).as_str(), contract_name);
    let ghost before = texts(out@);
    out.push(place.0);
    out.push(place.1);
    assert(texts(out@) =~= before + seq![
        stem_of(parts.last()) + ".sol"@,
        contract_name@ + ".json"@,
    ]);
    out
}

} // verus!
