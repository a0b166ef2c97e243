//! The fuzz driver: for one contract, the way from source text to the
//! counters of passed, failed and skipped iterations.
//!
//! The driver does no work outside the process. [`SolidityFuzzer::advance`]
//! takes what the last piece of outside work gave and says which piece comes
//! next: compiling, asking for constructor arguments, or a request to the
//! node.

use vstd::prelude::*;
use rand::rngs::ThreadRng;
use crate::abi::{
    build_method_signature, encode_abi_args, encoded_args, signature_of, value_models, EncodeError,
};
use crate::abi_record::{
    argument_models, arguments_match, kind_models, pack_constructor, packed_constructor,
    ArgumentModel, ConstructorArgument, KindModel, ParamKind,
};
use crate::anvil_executor::{
    call_start, deployment_start, failed, passed, transition, AnvilForkExecutor, EngineModel,
    EngineStep, ExecutionModel, PendingModel, PendingTransaction, StepModel,
};
use crate::ast_parser::{contract_of, ContractInfo, ContractModel, SolidityParser};
use crate::contract_compiler::{CompilerModel, ContractCompiler};
use crate::display::{display_list, format_args_for_display};
use crate::entropy::{random_below, thread_generator};
use crate::error::{encode_error_text, failure, ErrorKind, FuzzError, FuzzErrorModel};
use crate::generator::{fits, generate_random_value};
use crate::numerals::{decimal, write_decimal};
use crate::rpc::{RpcCall, RpcCallModel, RpcReply};
use crate::text::{append_chars, append_str, chars_of, string_of};
use crate::types::{
    ContractMethod, FuzzSummary, MethodModel, SolidityType, SolidityValue, TestResult,
    TestResultModel, ValueModel,
};
use crate::words::append_bytes;

verus! {

/// The method has a parameter whose type cannot be fuzzed.
pub open spec fn has_unsupported_parameter(m: MethodModel) -> bool {
    exists|i: int| 0 <= i < m.parameters.len() && (#[trigger] m.parameters[i]).param_type.is_unsupported()
}

/// The method is fuzzed: it is eligible and takes at least one parameter.
pub open spec fn is_fuzzable(m: MethodModel) -> bool {
    m.is_eligible() && m.parameters.len() > 0
}

/// The sender of an iteration: where there is more than one account and the
/// roll out of a hundred is below seventy, the account picked among those
/// after the first; the first account otherwise.
pub open spec fn sender_choice(num_accounts: nat, roll: nat, pick: nat) -> nat {
    if num_accounts > 1 && roll < 70 {
        pick
    } else {
        0
    }
}

/// Applies the sender rule to a roll and a pick.
pub fn choose_sender(num_accounts: usize, roll: u8, pick: usize) -> (r: usize)
    ensures
        r == sender_choice(num_accounts as nat, roll as nat, pick as nat),
{
    if num_accounts > 1 && roll < 70 {
        pick
    } else {
        0
    }
}

/// The index `sender` is one that an iteration can be sent from: the first
/// account, or with more than one account any account after the first.
pub open spec fn is_sender_draw(num_accounts: nat, sender: nat) -> bool {
    exists|roll: nat, pick: nat|
        roll < 100 && 1 <= pick && (num_accounts > 1 ==> pick < num_accounts) && sender
            == #[trigger] sender_choice(num_accounts, roll, pick)
}

/// Draws the sender of an iteration: with more than one account, seven times
/// out of ten one of the accounts after the first, uniformly; the first
/// account otherwise.
pub fn draw_sender(rng: &mut ThreadRng, num_accounts: usize) -> (r: usize)
    ensures
        is_sender_draw(num_accounts as nat, r as nat),
        r == 0 || r < num_accounts,
{
    if num_accounts > 1 {
        let roll = random_below(rng, 0, 100) as u8;
        let pick = random_below(rng, 1, num_accounts as u128) as usize;
        let r = choose_sender(num_accounts, roll, pick);
        r
    } else {
        assert(0 == sender_choice(num_accounts as nat, 0, 1));
        0
    }
}

/// The message of an iteration whose arguments have no encoding.
pub open spec fn encoding_failure_text(e: EncodeError) -> Seq<char> {
    "ABI encoding failed: "@ + encode_error_text(e)
}

/// The message of an iteration that the engine could not carry out.
pub open spec fn execution_failure_text(message: Seq<char>) -> Seq<char> {
    "EVM execution failed: "@ + message + ". Cannot proceed without real EVM execution."@
}

/// How an iteration goes on once its arguments are drawn.
#[derive(Debug, PartialEq)]
pub enum TestStep {
    /// The iteration is over.
    Finished(TestResult),
    /// Wait `delay_ms` milliseconds, send `request`, and resume
    /// `transaction` with the reply.
    Continue { transaction: PendingTransaction, request: RpcCall, delay_ms: u64 },
}

/// The mathematical view of a [`TestStep`].
pub enum TestStepModel {
    Finished(TestResultModel),
    Continue { transaction: PendingModel, request: RpcCallModel, delay_ms: u64 },
}

impl View for TestStep {
    type V = TestStepModel;

    open spec fn view(&self) -> TestStepModel {
        match self {
            TestStep::Finished(result) => TestStepModel::Finished(result@),
            TestStep::Continue { transaction, request, delay_ms } => TestStepModel::Continue {
                transaction: transaction@,
                request: request@,
                delay_ms: *delay_ms,
            },
        }
    }
}

/// The result of a call that was carried out: it passes where it succeeded,
/// and fails with its message where it did not.
pub open spec fn result_of(execution: ExecutionModel) -> TestResultModel {
    if execution.success {
        TestResultModel::Passed
    } else {
        TestResultModel::Failed(
            match execution.error {
                Some(e) => e,
                None => "Execution failed"@,
            },
        )
    }
}

/// How an iteration goes on after an engine step: it is over where the call
/// was carried out or failed outright, and goes on where the engine asks for
/// more.
pub open spec fn test_step_of(step: StepModel) -> TestStepModel {
    match step {
        StepModel::Executed(execution) => TestStepModel::Finished(result_of(execution)),
        StepModel::Failed(e) => TestStepModel::Finished(
            TestResultModel::Failed(execution_failure_text(e.message)),
        ),
        StepModel::Deployed(_) => TestStepModel::Finished(
            TestResultModel::Failed(execution_failure_text("Unexpected deployment"@)),
        ),
        StepModel::Continue { transaction, request, delay_ms } => TestStepModel::Continue {
            transaction,
            request,
            delay_ms,
        },
    }
}

/// The first step of an iteration with the arguments `args`: a failure where
/// they have no encoding, and else the start of the call with the signature
/// built from them.
pub open spec fn test_start(
    engine: EngineModel,
    contract_name: Seq<char>,
    method_name: Seq<char>,
    args: Seq<ValueModel>,
) -> TestStepModel {
    match encoded_args(args) {
        Err(e) => TestStepModel::Finished(TestResultModel::Failed(encoding_failure_text(e))),
        Ok(bytes) => test_step_of(
            call_start(engine, contract_name, signature_of(method_name, args), bytes),
        ),
    }
}

fn write_execution_failure(message: &str) -> (r: String)
    ensures
        r@ == execution_failure_text(message@),
{
    let mut text = chars_of("EVM execution failed: ");
    append_str(&mut text, message);
    append_str(&mut text, ". Cannot proceed without real EVM execution.");
    string_of(&text)
}

/// Says how an iteration goes on after an engine step.
pub fn conclude_test_case(step: EngineStep) -> (r: TestStep)
    ensures
        r@ == test_step_of(step@),
{
    match step {
        EngineStep::Executed(result) => {
            if result.success {
                TestStep::Finished(TestResult::Passed)
            } else {
                match result.error {
                    Some(e) => TestStep::Finished(TestResult::Failed(e)),
                    None => TestStep::Finished(
                        TestResult::Failed(String::from_str("Execution failed")),
                    ),
                }
            }
        },
        EngineStep::Failed(e) => TestStep::Finished(
            TestResult::Failed(write_execution_failure(e.message.as_str())),
        ),
        EngineStep::Deployed(_) => TestStep::Finished(
            TestResult::Failed(write_execution_failure("Unexpected deployment")),
        ),
        EngineStep::Continue { transaction, request, delay_ms } => TestStep::Continue {
            transaction,
            request,
            delay_ms,
        },
    }
}

/// Starts an iteration: builds the signature of the call from the
/// arguments, encodes them, and starts the call on `engine`.
pub fn execute_test_case_evm(
    engine: &AnvilForkExecutor,
    method_name: &str,
    args: &Vec<SolidityValue>,
    contract_name: &str,
) -> (r: TestStep)
    ensures
        r@ == test_start(engine@, contract_name@, method_name@, value_models(args@)),
{
    let signature = build_method_signature(method_name, args);
    match encode_abi_args(args) {
        Ok(encoded) => conclude_test_case(
            engine.call_method(contract_name, signature.as_str(), &encoded),
        ),
        Err(e) => {
            let mut text = chars_of("ABI encoding failed: ");
            append_str(&mut text, FuzzError::encoding(e).message.as_str());
            TestStep::Finished(TestResult::Failed(string_of(&text)))
        },
    }
}

/// The line that reports a failed iteration: the contract, the method, the
/// arguments in compact form, the number of the iteration counted from one,
/// and the reason.
pub open spec fn failure_line(
    contract_name: Seq<char>,
    method_name: Seq<char>,
    args: Seq<char>,
    iteration: nat,
    reason: Seq<char>,
) -> Seq<char> {
    "  "@ + contract_name + "."@ + method_name + "("@ + args + ") FAILED on iteration "@ + decimal(
        iteration + 1,
    ) + ": "@ + reason
}

/// Writes the line that reports a failed iteration.
pub fn write_failure_line(
    contract_name: &str,
    method_name: &str,
    args: &str,
    iteration: usize,
    reason: &str,
) -> (r: String)
    ensures
        r@ == failure_line(contract_name@, method_name@, args@, iteration as nat, reason@),
{
    let mut text = chars_of("  ");
    append_str(&mut text, contract_name);
    append_str(&mut text, ".");
    append_str(&mut text, method_name);
    append_str(&mut text, "(");
    append_str(&mut text, args);
    append_str(&mut text, ") FAILED on iteration ");
    append_chars(&mut text, &write_decimal(iteration as u128 + 1));
    append_str(&mut text, ": ");
    append_str(&mut text, reason);
    string_of(&text)
}

/// How an iteration ended.
#[derive(Debug, Clone, Copy, PartialEq, Eq, Structural)]
pub enum Outcome {
    Passed,
    Failed,
    Skipped,
}

/// The counters with no iteration counted.
pub open spec fn no_runs() -> FuzzSummary {
    FuzzSummary { total_passed: 0, total_failed: 0, total_skipped: 0 }
}

/// The number of iterations that the counters hold.
pub open spec fn total_of(t: FuzzSummary) -> int {
    t.total_passed + t.total_failed + t.total_skipped
}

/// The counters after one more iteration ended with `outcome`.
pub open spec fn counted(t: FuzzSummary, outcome: Outcome) -> FuzzSummary {
    match outcome {
        Outcome::Passed => FuzzSummary { total_passed: (t.total_passed + 1) as usize, ..t },
        Outcome::Failed => FuzzSummary { total_failed: (t.total_failed + 1) as usize, ..t },
        Outcome::Skipped => FuzzSummary { total_skipped: (t.total_skipped + 1) as usize, ..t },
    }
}

/// `a + b`, and the largest value where that does not fit.
pub open spec fn capped_sum(a: usize, b: usize) -> usize {
    if a + b > usize::MAX {
        usize::MAX
    } else {
        (a + b) as usize
    }
}

/// The counters of the first `k` methods added up, each sum capped at the
/// largest value.
pub open spec fn summary_of(tallies: Seq<FuzzSummary>, k: int) -> FuzzSummary
    decreases k,
{
    if k <= 0 {
        no_runs()
    } else {
        let before = summary_of(tallies, k - 1);
        let t = tallies[k - 1];
        FuzzSummary {
            total_passed: capped_sum(before.total_passed, t.total_passed),
            total_failed: capped_sum(before.total_failed, t.total_failed),
            total_skipped: capped_sum(before.total_skipped, t.total_skipped),
        }
    }
}

/// What the compiler gave for a contract: the deployment bytecode, and the
/// kinds of the inputs that the constructor in the ABI record takes (none
/// where the record has no constructor).
pub struct CompiledContract {
    pub bytecode: Vec<u8>,
    pub constructor_inputs: Vec<ParamKind>,
}

/// What the last piece of outside work gave.
pub enum FuzzEvent {
    /// The contract was compiled, or was not.
    Compiled(Result<CompiledContract, FuzzError>),
    /// The constructor arguments were given, or were not; the text says why.
    Arguments(Result<Vec<ConstructorArgument>, String>),
    /// The node answered the request.
    Reply(RpcReply),
    /// There was nothing to do.
    Tick,
}

/// The piece of outside work that comes next.
#[derive(Debug, PartialEq)]
pub enum FuzzAction {
    /// Compile the contract `contract_name` of the source at `source_path`.
    Compile { source_path: String, contract_name: String },
    /// Ask for the arguments of the constructor of `contract_name`.
    AskArguments { contract_name: String },
    /// Wait `delay_ms` milliseconds and send `request` to the node.
    Send { request: RpcCall, delay_ms: u64 },
    /// Nothing; go on with [`FuzzEvent::Tick`].
    Proceed,
}

/// The mathematical view of a [`FuzzAction`].
pub enum FuzzActionModel {
    Compile { source_path: Seq<char>, contract_name: Seq<char> },
    AskArguments { contract_name: Seq<char> },
    Send { request: RpcCallModel, delay_ms: u64 },
    Proceed,
}

impl View for FuzzAction {
    type V = FuzzActionModel;

    open spec fn view(&self) -> FuzzActionModel {
        match self {
            FuzzAction::Compile { source_path, contract_name } => FuzzActionModel::Compile {
                source_path: source_path@,
                contract_name: contract_name@,
            },
            FuzzAction::AskArguments { contract_name } => FuzzActionModel::AskArguments {
                contract_name: contract_name@,
            },
            FuzzAction::Send { request, delay_ms } => FuzzActionModel::Send {
                request: request@,
                delay_ms: *delay_ms,
            },
            FuzzAction::Proceed => FuzzActionModel::Proceed,
        }
    }
}

/// Where a session is on its way.
pub enum SessionPhase {
    /// The compiler's result is awaited.
    Compiling,
    /// The constructor arguments are awaited.
    AwaitingArguments { bytecode: Vec<u8>, inputs: Vec<ParamKind> },
    /// The deployment is in flight.
    Deploying { transaction: PendingTransaction },
    /// The contract is deployed; no call is in flight.
    Fuzzing,
    /// A call is in flight; `display` is the compact text of its arguments.
    Calling { transaction: PendingTransaction, display: String },
}

/// The mathematical view of a [`SessionPhase`].
pub enum SessionPhaseModel {
    Compiling,
    AwaitingArguments { bytecode: Seq<u8>, inputs: Seq<KindModel> },
    Deploying { transaction: PendingModel },
    Fuzzing,
    Calling { transaction: PendingModel, display: Seq<char> },
}

impl View for SessionPhase {
    type V = SessionPhaseModel;

    open spec fn view(&self) -> SessionPhaseModel {
        match self {
            SessionPhase::Compiling => SessionPhaseModel::Compiling,
            SessionPhase::AwaitingArguments { bytecode, inputs } => SessionPhaseModel::AwaitingArguments {
                bytecode: bytecode@,
                inputs: kind_models(inputs@),
            },
            SessionPhase::Deploying { transaction } => SessionPhaseModel::Deploying {
                transaction: transaction@,
            },
            SessionPhase::Fuzzing => SessionPhaseModel::Fuzzing,
            SessionPhase::Calling { transaction, display } => SessionPhaseModel::Calling {
                transaction: transaction@,
                display: display@,
            },
        }
    }
}

/// The state of a fuzz session on one contract.
pub struct SessionModel {
    /// The surface of the contract.
    pub contract: ContractModel,
    /// Where the source is.
    pub source_path: Seq<char>,
    /// The iterations to make of each fuzzed method.
    pub runs: nat,
    /// The index of the method in turn.
    pub method: nat,
    /// The iterations of that method that are over.
    pub iteration: nat,
    /// The counters of each method.
    pub tallies: Seq<FuzzSummary>,
    pub phase: SessionPhaseModel,
}

impl SessionModel {
    /// The iterations of the method at `j` that are over: all of them for a
    /// fuzzed method before the one in turn, and none for a method that is
    /// not fuzzed or comes after it.
    pub open spec fn done(self, j: int) -> int {
        if !is_fuzzable(self.contract.methods[j]) {
            0
        } else if j < self.method {
            self.runs as int
        } else if j == self.method {
            self.iteration as int
        } else {
            0
        }
    }

    /// The counters of the method at `j` are as they must be: they hold the
    /// iterations that are over; a method with a parameter that cannot be
    /// fuzzed has only skipped iterations, and any other method has none.
    pub open spec fn tally_ok(self, j: int) -> bool {
        let m = self.contract.methods[j];
        let t = self.tallies[j];
        &&& total_of(t) == self.done(j)
        &&& has_unsupported_parameter(m) ==> t.total_passed == 0 && t.total_failed == 0
        &&& !has_unsupported_parameter(m) ==> t.total_skipped == 0
    }

    /// The state is one that a session can be in.
    pub open spec fn wf(self) -> bool {
        &&& self.tallies.len() == self.contract.methods.len()
        &&& self.method <= self.contract.methods.len()
        &&& self.iteration <= self.runs
        &&& self.runs <= usize::MAX
        &&& forall|j: int| 0 <= j < self.tallies.len() ==> self.tally_ok(j)
        &&& (self.phase is Compiling || self.phase is AwaitingArguments || self.phase is Deploying)
            ==> self.method == 0 && self.iteration == 0
        &&& self.phase is Calling ==> {
            &&& self.method < self.contract.methods.len()
            &&& is_fuzzable(self.contract.methods[self.method as int])
            &&& !has_unsupported_parameter(self.contract.methods[self.method as int])
            &&& self.iteration < self.runs
        }
    }

    /// The state after the iteration in turn ended with `outcome`.
    pub open spec fn after_iteration(self, outcome: Outcome) -> SessionModel {
        SessionModel {
            iteration: self.iteration + 1,
            tallies: self.tallies.update(
                self.method as int,
                counted(self.tallies[self.method as int], outcome),
            ),
            phase: SessionPhaseModel::Fuzzing,
            ..self
        }
    }

    /// The state with the phase `phase`.
    pub open spec fn in_phase(self, phase: SessionPhaseModel) -> SessionModel {
        SessionModel { phase, ..self }
    }
}

/// A fuzz session on one contract.
pub struct FuzzSession {
    contract: ContractInfo,
    source_path: String,
    runs: usize,
    method: usize,
    iteration: usize,
    tallies: Vec<FuzzSummary>,
    phase: SessionPhase,
}

impl View for FuzzSession {
    type V = SessionModel;

    closed spec fn view(&self) -> SessionModel {
        SessionModel {
            contract: self.contract@,
            source_path: self.source_path@,
            runs: self.runs as nat,
            method: self.method as nat,
            iteration: self.iteration as nat,
            tallies: self.tallies@,
            phase: self.phase@,
        }
    }
}

/// What a session asks for next, or how it ended.
pub enum FuzzStep {
    /// Do `action` and hand what it gave to [`SolidityFuzzer::advance`];
    /// `report` is the line for an iteration that failed.
    Continue { session: FuzzSession, action: FuzzAction, report: Option<String> },
    /// The session is over.
    Finished { result: Result<FuzzSummary, FuzzError>, report: Option<String> },
}

/// The mathematical view of a [`FuzzStep`].
pub enum FuzzStepModel {
    Continue { session: SessionModel, action: FuzzActionModel, report: Option<Seq<char>> },
    Finished { result: Result<FuzzSummary, FuzzErrorModel>, report: Option<Seq<char>> },
}

impl View for FuzzStep {
    type V = FuzzStepModel;

    open spec fn view(&self) -> FuzzStepModel {
        match self {
            FuzzStep::Continue { session, action, report } => FuzzStepModel::Continue {
                session: session@,
                action: action@,
                report: crate::rpc::optional_text(*report),
            },
            FuzzStep::Finished { result, report } => FuzzStepModel::Finished {
                result: match result {
                    Ok(summary) => Ok(*summary),
                    Err(e) => Err(e@),
                },
                report: crate::rpc::optional_text(*report),
            },
        }
    }
}

/// What chance decided in one step of a session.
pub struct Draw {
    /// The arguments generated for the iteration.
    pub args: Seq<ValueModel>,
    /// The index of the sender drawn for the iteration.
    pub sender: nat,
}

/// The failure `e` with `context` put before its message.
pub open spec fn in_context(context: Seq<char>, e: FuzzErrorModel) -> FuzzErrorModel {
    FuzzErrorModel { kind: e.kind, code: e.code, message: context + e.message }
}

/// The session ended with the failure `e`.
pub open spec fn ended(e: FuzzErrorModel) -> FuzzStepModel {
    FuzzStepModel::Finished { result: Err(e), report: None }
}

/// The step that starts the deployment of the session's contract.
pub open spec fn deploying(
    engine: EngineModel,
    s: SessionModel,
    bytecode: Seq<u8>,
    constructor_args: Option<Seq<u8>>,
) -> FuzzStepModel {
    let start = deployment_start(engine, s.contract.name, bytecode, constructor_args);
    FuzzStepModel::Continue {
        session: s.in_phase(SessionPhaseModel::Deploying { transaction: start->transaction }),
        action: FuzzActionModel::Send { request: start->request, delay_ms: start->delay_ms },
        report: None,
    }
}

/// The step after the iteration in turn ended with `result`: it is counted,
/// and reported where it failed.
pub open spec fn settled(s: SessionModel, display: Seq<char>, result: TestResultModel)
    -> FuzzStepModel {
    match result {
        TestResultModel::Passed => FuzzStepModel::Continue {
            session: s.after_iteration(Outcome::Passed),
            action: FuzzActionModel::Proceed,
            report: None,
        },
        TestResultModel::Failed(reason) => FuzzStepModel::Continue {
            session: s.after_iteration(Outcome::Failed),
            action: FuzzActionModel::Proceed,
            report: Some(
                failure_line(
                    s.contract.name,
                    s.contract.methods[s.method as int].name,
                    display,
                    s.iteration,
                    reason,
                ),
            ),
        },
    }
}

/// The step of a session that has no call in flight.
///
/// When all methods had their turn the session ends with the counters added
/// up. A method that is not fuzzed, or has had all its iterations, gives way
/// to the next. An iteration of a method with a parameter that cannot be
/// fuzzed is skipped. Any other iteration is sent from the sender drawn, with
/// the arguments drawn.
pub open spec fn fuzzing_step(engine: EngineModel, s: SessionModel, draw: Draw) -> (
    EngineModel,
    FuzzStepModel,
) {
    if s.method >= s.contract.methods.len() {
        (
            engine,
            FuzzStepModel::Finished {
                result: Ok(summary_of(s.tallies, s.tallies.len() as int)),
                report: None,
            },
        )
    } else {
        let m = s.contract.methods[s.method as int];
        if !is_fuzzable(m) || s.iteration >= s.runs {
            (
                engine,
                FuzzStepModel::Continue {
                    session: SessionModel { method: s.method + 1, iteration: 0, ..s },
                    action: FuzzActionModel::Proceed,
                    report: None,
                },
            )
        } else if has_unsupported_parameter(m) {
            (
                engine,
                FuzzStepModel::Continue {
                    session: s.after_iteration(Outcome::Skipped),
                    action: FuzzActionModel::Proceed,
                    report: None,
                },
            )
        } else {
            let sending = engine.with_sender(draw.sender as int);
            let display = display_list(draw.args, draw.args.len() as int);
            match test_start(sending, s.contract.name, m.name, draw.args) {
                TestStepModel::Finished(result) => (sending, settled(s, display, result)),
                TestStepModel::Continue { transaction, request, delay_ms } => (
                    sending,
                    FuzzStepModel::Continue {
                        session: s.in_phase(SessionPhaseModel::Calling { transaction, display }),
                        action: FuzzActionModel::Send { request, delay_ms },
                        report: None,
                    },
                ),
            }
        }
    }
}

/// The step after the constructor arguments were given. Where there is not
/// one argument of the right type for each input, the session ends with an
/// encoding failure; else the deployment starts with what the packing put
/// behind the bytecode.
pub open spec fn after_arguments(
    engine: EngineModel,
    s: SessionModel,
    bytecode: Seq<u8>,
    inputs: Seq<KindModel>,
    arguments: Seq<ArgumentModel>,
) -> FuzzStepModel {
    if !arguments_match(arguments, inputs) {
        ended(failure(ErrorKind::Setup, "Constructor argument encoding failed"@))
    } else {
        match packed_constructor(inputs, bytecode, arguments) {
            Some(code) => deploying(engine, s, bytecode, Some(code.skip(bytecode.len() as int))),
            None => ended(failure(ErrorKind::Setup, "Constructor argument encoding failed"@)),
        }
    }
}

/// The contract's constructor takes arguments, so that they are asked for
/// before the deployment.
pub open spec fn takes_arguments(compiled: CompiledContract) -> bool {
    compiled.constructor_inputs@.len() > 0
}

/// The step that follows when `event` is what the last action gave, and the
/// engine after it.
pub open spec fn session_step(engine: EngineModel, s: SessionModel, event: FuzzEvent, draw: Draw)
    -> (EngineModel, FuzzStepModel) {
    match (s.phase, event) {
        (SessionPhaseModel::Compiling, FuzzEvent::Compiled(Err(e))) => (
            engine,
            ended(in_context("Contract compilation failed: "@, e@)),
        ),
        (SessionPhaseModel::Compiling, FuzzEvent::Compiled(Ok(compiled))) => if takes_arguments(
            compiled,
        ) {
            (
                engine,
                FuzzStepModel::Continue {
                    session: s.in_phase(
                        SessionPhaseModel::AwaitingArguments {
                            bytecode: compiled.bytecode@,
                            inputs: kind_models(compiled.constructor_inputs@),
                        },
                    ),
                    action: FuzzActionModel::AskArguments { contract_name: s.contract.name },
                    report: None,
                },
            )
        } else {
            (engine, deploying(engine, s, compiled.bytecode@, None))
        },
        (
            SessionPhaseModel::AwaitingArguments { bytecode, inputs },
            FuzzEvent::Arguments(Err(reason)),
        ) => (
            engine,
            ended(failure(ErrorKind::Setup, "Constructor argument input failed: "@ + reason@)),
        ),
        (
            SessionPhaseModel::AwaitingArguments { bytecode, inputs },
            FuzzEvent::Arguments(Ok(arguments)),
        ) => (engine, after_arguments(engine, s, bytecode, inputs, argument_models(arguments@))),
        (SessionPhaseModel::Deploying { transaction }, FuzzEvent::Reply(reply)) => {
            let (after, step) = transition(engine, transaction, reply);
            match step {
                StepModel::Continue { transaction, request, delay_ms } => (
                    after,
                    FuzzStepModel::Continue {
                        session: s.in_phase(SessionPhaseModel::Deploying { transaction }),
                        action: FuzzActionModel::Send { request, delay_ms },
                        report: None,
                    },
                ),
                StepModel::Deployed(_) => (
                    after,
                    FuzzStepModel::Continue {
                        session: s.in_phase(SessionPhaseModel::Fuzzing),
                        action: FuzzActionModel::Proceed,
                        report: None,
                    },
                ),
                StepModel::Failed(e) => (
                    after,
                    ended(in_context("Contract deployment failed: "@, e)),
                ),
                StepModel::Executed(_) => (
                    after,
                    ended(
                        failure(
                            ErrorKind::Deployment,
                            "Contract deployment failed: the transaction was a call"@,
                        ),
                    ),
                ),
            }
        },
        (SessionPhaseModel::Fuzzing, FuzzEvent::Tick) => fuzzing_step(engine, s, draw),
        (SessionPhaseModel::Calling { transaction, display }, FuzzEvent::Reply(reply)) => {
            let (after, step) = transition(engine, transaction, reply);
            match test_step_of(step) {
                TestStepModel::Continue { transaction, request, delay_ms } => (
                    after,
                    FuzzStepModel::Continue {
                        session: s.in_phase(SessionPhaseModel::Calling { transaction, display }),
                        action: FuzzActionModel::Send { request, delay_ms },
                        report: None,
                    },
                ),
                TestStepModel::Finished(result) => (after, settled(s, display, result)),
            }
        },
        _ => (engine, ended(failure(ErrorKind::Setup, "Unexpected event"@))),
    }
}

/// What a draw must be like: the sender is one that the sender rule can
/// give, and where an iteration is sent, the arguments fit the parameters of
/// the method in turn.
pub open spec fn is_draw(engine: EngineModel, s: SessionModel, event: FuzzEvent, draw: Draw)
    -> bool {
    &&& is_sender_draw(engine.accounts.len(), draw.sender)
    &&& (s.phase is Fuzzing && event is Tick && s.method < s.contract.methods.len()) ==> {
        let m = s.contract.methods[s.method as int];
        (is_fuzzable(m) && !has_unsupported_parameter(m) && s.iteration < s.runs) ==> {
            &&& draw.args.len() == m.parameters.len()
            &&& forall|i: int|
                0 <= i < m.parameters.len() ==> fits(
                    #[trigger] draw.args[i],
                    m.parameters[i].param_type,
                )
        }
    }
}

/// The session that starts on `contract`: nothing is counted, and the
/// compiler's result is awaited.
pub open spec fn initial_session(contract: ContractModel, source_path: Seq<char>, runs: nat)
    -> SessionModel {
    SessionModel {
        contract,
        source_path,
        runs,
        method: 0,
        iteration: 0,
        tallies: Seq::new(contract.methods.len(), |j: int| no_runs()),
        phase: SessionPhaseModel::Compiling,
    }
}

/// A method without parameters is never run: nothing is counted for it.
pub proof fn lemma_parameterless_method_is_not_run(s: SessionModel, j: int)
    requires
        s.wf(),
        0 <= j < s.contract.methods.len(),
        s.contract.methods[j].parameters.len() == 0,
    ensures
        s.tallies[j] == no_runs(),
{
    assert(s.tally_ok(j));
}

/// A method that is not eligible is never run: nothing is counted for it.
pub proof fn lemma_ineligible_method_is_not_run(s: SessionModel, j: int)
    requires
        s.wf(),
        0 <= j < s.contract.methods.len(),
        !s.contract.methods[j].is_eligible(),
    ensures
        s.tallies[j] == no_runs(),
{
    assert(s.tally_ok(j));
}

/// The iterations of a method with a parameter that cannot be fuzzed count as
/// skipped, never as failed or passed.
pub proof fn lemma_unsupported_parameter_is_skipped(s: SessionModel, j: int)
    requires
        s.wf(),
        0 <= j < s.contract.methods.len(),
        has_unsupported_parameter(s.contract.methods[j]),
    ensures
        s.tallies[j].total_failed == 0,
        s.tallies[j].total_passed == 0,
        s.tallies[j].total_skipped == s.done(j),
{
    assert(s.tally_ok(j));
}

/// When all methods had their turn, every fuzzed method has had all its
/// iterations.
pub proof fn lemma_all_iterations_are_made(s: SessionModel, j: int)
    requires
        s.wf(),
        s.method >= s.contract.methods.len(),
        0 <= j < s.contract.methods.len(),
        is_fuzzable(s.contract.methods[j]),
    ensures
        total_of(s.tallies[j]) == s.runs,
{
    assert(s.tally_ok(j));
}

proof fn lemma_after_iteration(s: SessionModel, outcome: Outcome)
    requires
        s.wf(),
        s.method < s.contract.methods.len(),
        is_fuzzable(s.contract.methods[s.method as int]),
        s.iteration < s.runs,
        has_unsupported_parameter(s.contract.methods[s.method as int]) <==> outcome
            == Outcome::Skipped,
    ensures
        s.after_iteration(outcome).wf(),
{
    let after = s.after_iteration(outcome);
    assert forall|j: int| 0 <= j < after.tallies.len() implies after.tally_ok(j) by {
        assert(s.tally_ok(j));
    }
}

proof fn lemma_next_method(s: SessionModel)
    requires
        s.wf(),
        s.phase is Fuzzing,
        s.method < s.contract.methods.len(),
        !is_fuzzable(s.contract.methods[s.method as int]) || s.iteration >= s.runs,
    ensures
        (SessionModel { method: s.method + 1, iteration: 0, ..s }).wf(),
{
    let after = SessionModel { method: s.method + 1, iteration: 0, ..s };
    assert forall|j: int| 0 <= j < after.tallies.len() implies after.tally_ok(j) by {
        assert(s.tally_ok(j));
    }
}

proof fn lemma_in_phase(s: SessionModel, phase: SessionPhaseModel)
    requires
        s.wf(),
        (phase is Compiling || phase is AwaitingArguments || phase is Deploying) ==> s.method == 0
            && s.iteration == 0,
        phase is Calling ==> {
            &&& s.method < s.contract.methods.len()
            &&& is_fuzzable(s.contract.methods[s.method as int])
            &&& !has_unsupported_parameter(s.contract.methods[s.method as int])
            &&& s.iteration < s.runs
        },
    ensures
        s.in_phase(phase).wf(),
{
    let after = s.in_phase(phase);
    assert forall|j: int| 0 <= j < after.tallies.len() implies after.tally_ok(j) by {
        assert(s.tally_ok(j));
    }
}

/// The type cannot be fuzzed.
pub fn is_unsupported_type(t: &SolidityType) -> (r: bool)
    ensures
        r == t@.is_unsupported(),
{
    match t {
        SolidityType::Mapping(_, _) => true,
        SolidityType::Struct(_) => true,
        SolidityType::Custom(_) => true,
        _ => false,
    }
}

/// The method has a parameter whose type cannot be fuzzed.
pub fn has_unsupported(method: &ContractMethod) -> (r: bool)
    ensures
        r == has_unsupported_parameter(method@),
{
    let mut i: usize = 0;
    while i < method.parameters.len()
        invariant
            i <= method.parameters.len(),
            forall|k: int| 0 <= k < i ==> !(#[trigger] method@.parameters[k]).param_type.is_unsupported(),
        decreases method.parameters.len() - i,
    {
        assert(method@.parameters[i as int] == method.parameters[i as int]@);
        if is_unsupported_type(&method.parameters[i].param_type) {
            return true;
        }
        i += 1;
    }
    false
}

/// The method is fuzzed.
pub fn is_fuzzable_method(method: &ContractMethod) -> (r: bool)
    ensures
        r == is_fuzzable(method@),
{
    method.visibility.is_externally_callable() && !method.is_constructor && !method.is_fallback
        && !method.is_receive && method.parameters.len() > 0
}

/// Generates one argument for each parameter of `method`.
fn generate_arguments(rng: &mut ThreadRng, method: &ContractMethod) -> (r: Vec<SolidityValue>)
    ensures
        r.len() == method.parameters.len(),
        forall|i: int|
            0 <= i < r.len() ==> fits(
                (#[trigger] value_models(r@)[i]),
                method@.parameters[i].param_type,
            ),
{
    let mut args: Vec<SolidityValue> = Vec::new();
    let mut i: usize = 0;
    while i < method.parameters.len()
        invariant
            i <= method.parameters.len(),
            args.len() == i,
            forall|k: int|
                0 <= k < i ==> fits((#[trigger] args[k])@, method.parameters[k].param_type@),
        decreases method.parameters.len() - i,
    {
        let value = generate_random_value(rng, &method.parameters[i].param_type);
        args.push(value);
        i += 1;
    }
    assert forall|i: int| 0 <= i < args.len() implies fits(
        (#[trigger] value_models(args@)[i]),
        method@.parameters[i].param_type,
    ) by {
    }
    args
}

fn add_capped(a: usize, b: usize) -> (r: usize)
    ensures
        r == capped_sum(a, b),
{
    if a > usize::MAX - b {
        usize::MAX
    } else {
        a + b
    }
}

/// Adds up the counters of all methods.
pub fn total_summary(tallies: &Vec<FuzzSummary>) -> (r: FuzzSummary)
    ensures
        r == summary_of(tallies@, tallies.len() as int),
{
    let mut total = FuzzSummary { total_passed: 0, total_failed: 0, total_skipped: 0 };
    let mut k: usize = 0;
    while k < tallies.len()
        invariant
            k <= tallies.len(),
            total == summary_of(tallies@, k as int),
        decreases tallies.len() - k,
    {
        let t = tallies[k];
        total = FuzzSummary {
            total_passed: add_capped(total.total_passed, t.total_passed),
            total_failed: add_capped(total.total_failed, t.total_failed),
            total_skipped: add_capped(total.total_skipped, t.total_skipped),
        };
        k += 1;
    }
    total
}

/// Counts one more iteration of the method at `method`.
fn count_iteration(tallies: Vec<FuzzSummary>, method: usize, outcome: Outcome) -> (r: Vec<
    FuzzSummary,
>)
    requires
        method < tallies.len(),
        total_of(tallies[method as int]) < usize::MAX,
    ensures
        r@ == tallies@.update(method as int, counted(tallies[method as int], outcome)),
{
    let mut tallies = tallies;
    let t = tallies[method];
    let next = match outcome {
        Outcome::Passed => FuzzSummary {
            total_passed: t.total_passed + 1,
            total_failed: t.total_failed,
            total_skipped: t.total_skipped,
        },
        Outcome::Failed => FuzzSummary {
            total_passed: t.total_passed,
            total_failed: t.total_failed + 1,
            total_skipped: t.total_skipped,
        },
        Outcome::Skipped => FuzzSummary {
            total_passed: t.total_passed,
            total_failed: t.total_failed,
            total_skipped: t.total_skipped + 1,
        },
    };
    tallies.set(method, next);
    tallies
}

impl FuzzSession {
    #[verifier::type_invariant]
    spec fn well_formed(&self) -> bool {
        self@.wf()
    }

    /// The counters of the method at `index`.
    pub fn method_tally(&self, index: usize) -> (r: Option<FuzzSummary>)
        ensures
            self@.wf(),
            match r {
                Some(t) => index < self@.tallies.len() && t == self@.tallies[index as int],
                None => index >= self@.tallies.len(),
            },
    {
        proof {
            use_type_invariant(self);
        }
        if index < self.tallies.len() {
            Some(self.tallies[index])
        } else {
            None
        }
    }

    /// The surface of the contract that the session is on.
    pub fn contract(&self) -> (r: &ContractInfo)
        ensures
            self@.wf(),
            r@ == self@.contract,
    {
        proof {
            use_type_invariant(self);
        }
        &self.contract
    }
}

fn context_failure(context: &str, e: FuzzError) -> (r: FuzzError)
    ensures
        r@ == in_context(context@, e@),
{
    let mut text = chars_of(context);
    append_str(&mut text, e.message.as_str());
    FuzzError { kind: e.kind, code: e.code, message: string_of(&text) }
}

fn end_with(e: FuzzError) -> (r: FuzzStep)
    ensures
        r@ == ended(e@),
{
    FuzzStep::Finished { result: Err(e), report: None }
}

/// The fuzzer: the parser, the source of randomness, the engine and the
/// compiler adapter of a fuzz session.
pub struct SolidityFuzzer {
    parser: SolidityParser,
    rng: ThreadRng,
    anvil_executor: AnvilForkExecutor,
    compiler: ContractCompiler,
}

impl SolidityFuzzer {
    /// The state of the fuzzer's engine.
    pub closed spec fn engine(&self) -> EngineModel {
        self.anvil_executor@
    }

    /// The toolchains that the fuzzer compiles with.
    pub closed spec fn toolchains(&self) -> CompilerModel {
        self.compiler@
    }

    /// A fuzzer that works on `anvil_executor` and compiles with `compiler`.
    pub fn new(anvil_executor: AnvilForkExecutor, compiler: ContractCompiler) -> (r: Self)
        ensures
            r.engine() == anvil_executor@,
            r.toolchains() == compiler@,
    {
        SolidityFuzzer {
            parser: SolidityParser::new(),
            rng: thread_generator(),
            anvil_executor,
            compiler,
        }
    }

    /// The engine.
    pub fn anvil_executor(&self) -> (r: &AnvilForkExecutor)
        ensures
            r@ == self.engine(),
    {
        &self.anvil_executor
    }

    /// The compiler adapter.
    pub fn compiler(&self) -> (r: &ContractCompiler)
        ensures
            r@ == self.toolchains(),
    {
        &self.compiler
    }

    /// Generates an argument for a parameter of type `t`.
    pub fn generate_random_value(&mut self, t: &SolidityType) -> (v: SolidityValue)
        ensures
            fits(v@, t@),
            final(self).engine() == old(self).engine(),
    {
        generate_random_value(&mut self.rng, t)
    }

    /// Starts a fuzz session on the contract in `source`, which was read
    /// from `filename`, with `num_fuzz_runs` iterations for each method.
    ///
    /// The step returned asks for the contract to be compiled.
    pub fn fuzz_contract(&mut self, source: &str, filename: &str, num_fuzz_runs: usize) -> (r:
        FuzzStep)
        ensures
            final(self).engine() == old(self).engine(),
            r@ == (FuzzStepModel::Continue {
                session: initial_session(contract_of(source@), filename@, num_fuzz_runs as nat),
                action: FuzzActionModel::Compile {
                    source_path: filename@,
                    contract_name: contract_of(source@).name,
                },
                report: None,
            }),
            initial_session(contract_of(source@), filename@, num_fuzz_runs as nat).wf(),
    {
        let mut contracts = match self.parser.parse_contract(source, filename) {
            Ok(contracts) => contracts,
            Err(_) => Vec::new(),
        };
        let contract = contracts.remove(0);
        let mut tallies: Vec<FuzzSummary> = Vec::new();
        while tallies.len() < contract.methods.len()
            invariant
                tallies.len() <= contract.methods.len(),
                forall|j: int| 0 <= j < tallies.len() ==> tallies[j] == no_runs(),
            decreases contract.methods.len() - tallies.len(),
        {
            tallies.push(FuzzSummary { total_passed: 0, total_failed: 0, total_skipped: 0 });
        }
        let contract_name = contract.name.clone();
        let ghost initial = initial_session(contract@, filename@, num_fuzz_runs as nat);
        assert(tallies@ =~= initial.tallies);
        assert(initial.wf());
        let session = FuzzSession {
            contract,
            source_path: String::from_str(filename),
            runs: num_fuzz_runs,
            method: 0,
            iteration: 0,
            tallies,
            phase: SessionPhase::Compiling,
        };
        FuzzStep::Continue {
            session,
            action: FuzzAction::Compile {
                source_path: String::from_str(filename),
                contract_name,
            },
            report: None,
        }
    }
}

/// The draw of a step in which chance decided nothing.
pub open spec fn no_draw() -> Draw {
    Draw { args: Seq::empty(), sender: 0 }
}

/// The constructor arguments in packed deployment code: what follows the
/// bytecode.
pub fn constructor_arguments(bytecode: &Vec<u8>, packed: &Vec<u8>) -> (r: Vec<u8>)
    requires
        packed.len() >= bytecode.len(),
    ensures
        r@ == packed@.skip(bytecode.len() as int),
{
    let mut args: Vec<u8> = Vec::new();
    let mut i: usize = bytecode.len();
    while i < packed.len()
        invariant
            bytecode.len() <= i <= packed.len(),
            args@ == packed@.subrange(bytecode.len() as int, i as int),
        decreases packed.len() - i,
    {
        args.push(packed[i]);
        i += 1;
    }
    args
}

proof fn lemma_first_sender_is_a_draw(num_accounts: nat)
    ensures
        is_sender_draw(num_accounts, 0),
{
    assert(0 == sender_choice(num_accounts, 99, 1));
}

/// The parts of a session, taken apart to build the next one.
struct SessionParts {
    contract: ContractInfo,
    source_path: String,
    runs: usize,
    method: usize,
    iteration: usize,
    tallies: Vec<FuzzSummary>,
}

impl SessionParts {
    spec fn with(&self, phase: SessionPhaseModel) -> SessionModel {
        SessionModel {
            contract: self.contract@,
            source_path: self.source_path@,
            runs: self.runs as nat,
            method: self.method as nat,
            iteration: self.iteration as nat,
            tallies: self.tallies@,
            phase,
        }
    }

    fn into_session(self, phase: SessionPhase) -> (r: FuzzSession)
        requires
            self.with(phase@).wf(),
        ensures
            r@ == self.with(phase@),
    {
        FuzzSession {
            contract: self.contract,
            source_path: self.source_path,
            runs: self.runs,
            method: self.method,
            iteration: self.iteration,
            tallies: self.tallies,
            phase,
        }
    }

    /// Counts the iteration in turn and reports it where it failed.
    fn settle(self, display: &str, result: TestResult, Ghost(phase): Ghost<SessionPhaseModel>) -> (r:
        FuzzStep)
        requires
            self.with(phase).wf(),
            self.method < self.contract@.methods.len(),
            is_fuzzable(self.contract@.methods[self.method as int]),
            !has_unsupported_parameter(self.contract@.methods[self.method as int]),
            self.iteration < self.runs,
        ensures
            r@ == settled(self.with(phase), display@, result@),
            r matches FuzzStep::Continue { session, .. } && session@.wf(),
    {
        let ghost s = self.with(phase);
        assert(s.tally_ok(self.method as int));
        let SessionParts { contract, source_path, runs, method, iteration, tallies } = self;
        match result {
            TestResult::Passed => {
                proof {
                    lemma_after_iteration(s, Outcome::Passed);
                }
                let parts = SessionParts {
                    contract,
                    source_path,
                    runs,
                    method,
                    iteration: iteration + 1,
                    tallies: count_iteration(tallies, method, Outcome::Passed),
                };
                FuzzStep::Continue {
                    session: parts.into_session(SessionPhase::Fuzzing),
                    action: FuzzAction::Proceed,
                    report: None,
                }
            },
            TestResult::Failed(reason) => {
                proof {
                    lemma_after_iteration(s, Outcome::Failed);
                }
                let line = write_failure_line(
                    contract.name.as_str(),
                    contract.methods[method].name.as_str(),
                    display,
                    iteration,
                    reason.as_str(),
                );
                let parts = SessionParts {
                    contract,
                    source_path,
                    runs,
                    method,
                    iteration: iteration + 1,
                    tallies: count_iteration(tallies, method, Outcome::Failed),
                };
                FuzzStep::Continue {
                    session: parts.into_session(SessionPhase::Fuzzing),
                    action: FuzzAction::Proceed,
                    report: Some(line),
                }
            },
        }
    }
}

impl SolidityFuzzer {
    /// Starts the deployment of the session's contract.
    fn start_deployment(
        &self,
        parts: SessionParts,
        bytecode: &Vec<u8>,
        constructor_args: Option<&Vec<u8>>,
        Ghost(phase): Ghost<SessionPhaseModel>,
    ) -> (r: FuzzStep)
        requires
            parts.with(phase).wf(),
            parts.method == 0,
            parts.iteration == 0,
        ensures
            r@ == deploying(
                self.engine(),
                parts.with(phase),
                bytecode@,
                match constructor_args {
                    Some(args) => Some(args@),
                    None => None,
                },
            ),
            r matches FuzzStep::Continue { session, .. } && session@.wf(),
    {
        let step = self.anvil_executor.deploy_contract(
            parts.contract.name.as_str(),
            bytecode,
            constructor_args,
        );
        match step {
            EngineStep::Continue { transaction, request, delay_ms } => {
                proof {
                    lemma_in_phase(
                        parts.with(phase),
                        SessionPhaseModel::Deploying { transaction: transaction@ },
                    );
                }
                FuzzStep::Continue {
                    session: parts.into_session(SessionPhase::Deploying { transaction }),
                    action: FuzzAction::Send { request, delay_ms },
                    report: None,
                }
            },
            _ => {
                proof {
                    lemma_in_phase(parts.with(phase), SessionPhaseModel::Fuzzing);
                }
                FuzzStep::Continue {
                    session: parts.into_session(SessionPhase::Fuzzing),
                    action: FuzzAction::Proceed,
                    report: None,
                }
            },
        }
    }

    /// The step of a session that has no call in flight.
    fn step_fuzzing(&mut self, parts: SessionParts) -> (r: (FuzzStep, Ghost<Draw>))
        requires
            parts.with(SessionPhaseModel::Fuzzing).wf(),
        ensures
            is_draw(
                old(self).engine(),
                parts.with(SessionPhaseModel::Fuzzing),
                FuzzEvent::Tick,
                r.1@,
            ),
            final(self).engine() == fuzzing_step(
                old(self).engine(),
                parts.with(SessionPhaseModel::Fuzzing),
                r.1@,
            ).0,
            r.0@ == fuzzing_step(
                old(self).engine(),
                parts.with(SessionPhaseModel::Fuzzing),
                r.1@,
            ).1,
            r.0 matches FuzzStep::Continue { session, .. } ==> session@.wf(),
    {
        let ghost s = parts.with(SessionPhaseModel::Fuzzing);
        let ghost engine = self.engine();
        proof {
            lemma_first_sender_is_a_draw(engine.accounts.len());
        }
        if parts.method >= parts.contract.methods.len() {
            let summary = total_summary(&parts.tallies);
            return (FuzzStep::Finished { result: Ok(summary), report: None }, Ghost(no_draw()));
        }
        let SessionParts { contract, source_path, runs, method, iteration, tallies } = parts;
        assert(s.tally_ok(method as int));
        if !is_fuzzable_method(&contract.methods[method]) || iteration >= runs {
            proof {
                lemma_next_method(s);
            }
            let next = SessionParts {
                contract,
                source_path,
                runs,
                method: method + 1,
                iteration: 0,
                tallies,
            };
            assert(next.with(SessionPhaseModel::Fuzzing) == (SessionModel {
                method: s.method + 1,
                iteration: 0,
                ..s
            }));
            return (
                FuzzStep::Continue {
                    session: next.into_session(SessionPhase::Fuzzing),
                    action: FuzzAction::Proceed,
                    report: None,
                },
                Ghost(no_draw()),
            );
        }
        if has_unsupported(&contract.methods[method]) {
            proof {
                lemma_after_iteration(s, Outcome::Skipped);
            }
            let next = SessionParts {
                contract,
                source_path,
                runs,
                method,
                iteration: iteration + 1,
                tallies: count_iteration(tallies, method, Outcome::Skipped),
            };
            return (
                FuzzStep::Continue {
                    session: next.into_session(SessionPhase::Fuzzing),
                    action: FuzzAction::Proceed,
                    report: None,
                },
                Ghost(no_draw()),
            );
        }
        let args = generate_arguments(&mut self.rng, &contract.methods[method]);
        let num_accounts = self.anvil_executor.accounts().len();
        let sender = draw_sender(&mut self.rng, num_accounts);
        self.anvil_executor.set_sender(sender);
        let display = format_args_for_display(&args);
        let ghost draw = Draw { args: value_models(args@), sender: sender as nat };
        let started = execute_test_case_evm(
            &self.anvil_executor,
            contract.methods[method].name.as_str(),
            &args,
            contract.name.as_str(),
        );
        let parts = SessionParts { contract, source_path, runs, method, iteration, tallies };
        match started {
            TestStep::Finished(result) => {
                let step = parts.settle(display.as_str(), result, Ghost(SessionPhaseModel::Fuzzing));
                (step, Ghost(draw))
            },
            TestStep::Continue { transaction, request, delay_ms } => {
                proof {
                    lemma_in_phase(
                        s,
                        SessionPhaseModel::Calling { transaction: transaction@, display: display@ },
                    );
                }
                (
                    FuzzStep::Continue {
                        session: parts.into_session(SessionPhase::Calling { transaction, display }),
                        action: FuzzAction::Send { request, delay_ms },
                        report: None,
                    },
                    Ghost(draw),
                )
            },
        }
    }
}

impl SolidityFuzzer {
    /// Takes what the last action gave and says what follows: the next
    /// action, or how the session ended.
    ///
    /// The step is the one that [`session_step`] describes for some draw of
    /// arguments and sender that [`is_draw`] admits. A session that goes on
    /// is in a state that [`SessionModel::wf`] admits, on the same contract
    /// and with the same number of runs.
    pub fn advance(&mut self, session: FuzzSession, event: FuzzEvent) -> (r: FuzzStep)
        ensures
            session@.wf(),
            exists|draw: Draw|
                {
                    &&& is_draw(old(self).engine(), session@, event, draw)
                    &&& final(self).engine() == (#[trigger] session_step(
                        old(self).engine(),
                        session@,
                        event,
                        draw,
                    )).0
                    &&& r@ == session_step(old(self).engine(), session@, event, draw).1
                },
            r matches FuzzStep::Continue { session: next, .. } ==> {
                &&& next@.wf()
                &&& next@.contract == session@.contract
                &&& next@.runs == session@.runs
            },
    {
        proof {
            use_type_invariant(&session);
            lemma_first_sender_is_a_draw(self.engine().accounts.len());
        }
        let ghost s = session@;
        let ghost engine = self.engine();
        let FuzzSession { contract, source_path, runs, method, iteration, tallies, phase } = session;
        let parts = SessionParts { contract, source_path, runs, method, iteration, tallies };
        match (phase, event) {
            (SessionPhase::Compiling, FuzzEvent::Compiled(Err(e))) => {
                let step = end_with(context_failure("Contract compilation failed: ", e));
                assert(step@ == session_step(engine, s, event, no_draw()).1);
                step
            },
            (SessionPhase::Compiling, FuzzEvent::Compiled(Ok(compiled))) => {
                let CompiledContract { bytecode, constructor_inputs } = compiled;
                if constructor_inputs.len() > 0 {
                    proof {
                        lemma_in_phase(
                            s,
                            SessionPhaseModel::AwaitingArguments {
                                bytecode: bytecode@,
                                inputs: kind_models(constructor_inputs@),
                            },
                        );
                    }
                    let contract_name = parts.contract.name.clone();
                    let step = FuzzStep::Continue {
                        session: parts.into_session(
                            SessionPhase::AwaitingArguments { bytecode, inputs: constructor_inputs },
                        ),
                        action: FuzzAction::AskArguments { contract_name },
                        report: None,
                    };
                    assert(step@ == session_step(engine, s, event, no_draw()).1);
                    step
                } else {
                    let step = self.start_deployment(parts, &bytecode, None, Ghost(s.phase));
                    assert(step@ == session_step(engine, s, event, no_draw()).1);
                    step
                }
            },
            (SessionPhase::AwaitingArguments { bytecode, inputs }, FuzzEvent::Arguments(Err(reason))) => {
                let mut text = chars_of("Constructor argument input failed: ");
                append_str(&mut text, reason.as_str());
                let step = end_with(FuzzError::new(ErrorKind::Setup, string_of(&text)));
                assert(step@ == session_step(engine, s, event, no_draw()).1);
                step
            },
            (SessionPhase::AwaitingArguments { bytecode, inputs }, FuzzEvent::Arguments(Ok(arguments))) => {
                let mut code: Vec<u8> = Vec::new();
                append_bytes(&mut code, &bytecode);
                match pack_constructor(&inputs, code, &arguments) {
                    Some(packed) => {
                        let args = constructor_arguments(&bytecode, &packed);
                        let step = self.start_deployment(parts, &bytecode, Some(&args), Ghost(s.phase));
                        assert(step@ == session_step(engine, s, event, no_draw()).1);
                        step
                    },
                    None => {
                        let step = end_with(
                            FuzzError::new(
                                ErrorKind::Setup,
                                String::from_str("Constructor argument encoding failed"),
                            ),
                        );
                        assert(step@ == session_step(engine, s, event, no_draw()).1);
                        step
                    },
                }
            },
            (SessionPhase::Deploying { transaction }, FuzzEvent::Reply(reply)) => {
                let step = match self.anvil_executor.resume(transaction, reply) {
                    EngineStep::Continue { transaction, request, delay_ms } => {
                        proof {
                            lemma_in_phase(
                                s,
                                SessionPhaseModel::Deploying { transaction: transaction@ },
                            );
                        }
                        FuzzStep::Continue {
                            session: parts.into_session(SessionPhase::Deploying { transaction }),
                            action: FuzzAction::Send { request, delay_ms },
                            report: None,
                        }
                    },
                    EngineStep::Deployed(_) => {
                        proof {
                            lemma_in_phase(s, SessionPhaseModel::Fuzzing);
                        }
                        FuzzStep::Continue {
                            session: parts.into_session(SessionPhase::Fuzzing),
                            action: FuzzAction::Proceed,
                            report: None,
                        }
                    },
                    EngineStep::Failed(e) => end_with(
                        context_failure("Contract deployment failed: ", e),
                    ),
                    EngineStep::Executed(_) => end_with(
                        FuzzError::new(
                            ErrorKind::Deployment,
                            String::from_str(
                                "Contract deployment failed: the transaction was a call",
                            ),
                        ),
                    ),
                };
                assert(step@ == session_step(engine, s, event, no_draw()).1);
                step
            },
            (SessionPhase::Fuzzing, FuzzEvent::Tick) => {
                let (step, Ghost(draw)) = self.step_fuzzing(parts);
                assert(step@ == session_step(engine, s, event, draw).1);
                step
            },
            (SessionPhase::Calling { transaction, display }, FuzzEvent::Reply(reply)) => {
                let step = match conclude_test_case(self.anvil_executor.resume(transaction, reply)) {
                    TestStep::Continue { transaction, request, delay_ms } => {
                        proof {
                            lemma_in_phase(
                                s,
                                SessionPhaseModel::Calling {
                                    transaction: transaction@,
                                    display: display@,
                                },
                            );
                        }
                        FuzzStep::Continue {
                            session: parts.into_session(
                                SessionPhase::Calling { transaction, display },
                            ),
                            action: FuzzAction::Send { request, delay_ms },
                            report: None,
                        }
                    },
                    TestStep::Finished(result) => parts.settle(
                        display.as_str(),
                        result,
                        Ghost(s.phase),
                    ),
                };
                assert(step@ == session_step(engine, s, event, no_draw()).1);
                step
            },
            _ => {
                let step = end_with(
                    FuzzError::new(ErrorKind::Setup, String::from_str("Unexpected event")),
                );
                assert(step@ == session_step(engine, s, event, no_draw()).1);
                step
            },
        }
    }
}

} // verus!
