//! The execution engine: the senders and their nonces, the contracts that
//! were deployed, and the life of a transaction from submission to outcome.
//!
//! The engine never talks to the node itself. It says which request comes
//! next and is told what came back; see [`AnvilForkExecutor::resume`].

use vstd::hash_map::StringHashMap;
use vstd::prelude::*;
use crate::abi::{calculate_selector, selector_of};
use crate::error::{failure, ErrorKind, FuzzError, FuzzErrorModel};
use crate::hex_text::{encode_hex, hex_lower};
use crate::rpc::{
    format_quantity, gas_of, interpret_reply, is_success, node_failure, node_failure_of,
    parse_quantity, quantity_of, quantity_text, reply_failure, status_text, CallRequest, RpcCall,
    RpcReply, RpcValue, TransactionReceipt, TransactionRequest,
};
use crate::text::{
    append_str, chars_of, eq_str, flatten_line_breaks, single_line, slice_of, starts_with,
    starts_with_str, string_of, texts, trim, trim_chars,
};
use crate::words::append_bytes;

verus! {

/// The well-known accounts of a local test chain, by index; every index above
/// three gives the fifth.
pub open spec fn candidate_account(index: int) -> Seq<char> {
    if index == 0 {
        "0xf39Fd6e51aad88F6F4ce6aB8827279cffFb92266"@
    } else if index == 1 {
        "0x70997970C51812dc3A010C7d01b50e0d17dc79C8"@
    } else if index == 2 {
        "0x3C44CdDdB6a900fa2b585dd299e03d12FA4293BC"@
    } else if index == 3 {
        "0x90F79bf6EB2c4f870365E785982E1f101E93b906"@
    } else {
        "0x15d34AAf54267DB7D7c367839AAf71A00a2C6A65"@
    }
}

/// The accounts that are probed when an engine is set up.
pub open spec fn candidates() -> Seq<Seq<char>> {
    Seq::new(5, |i: int| candidate_account(i))
}

/// The accounts to probe with `eth_getBalance`, in order.
pub fn candidate_accounts() -> (r: Vec<String>)
    ensures
        texts(r@) == candidates(),
        r.len() == 5,
{
    let mut out: Vec<String> = Vec::new();
    out.push(String::from_str("0xf39Fd6e51aad88F6F4ce6aB8827279cffFb92266"));
    out.push(String::from_str("0x70997970C51812dc3A010C7d01b50e0d17dc79C8"));
    out.push(String::from_str("0x3C44CdDdB6a900fa2b585dd299e03d12FA4293BC"));
    out.push(String::from_str("0x90F79bf6EB2c4f870365E785982E1f101E93b906"));
    out.push(String::from_str("0x15d34AAf54267DB7D7c367839AAf71A00a2C6A65"));
    out
}

/// The probe of an account succeeded: the reply carries a result that is not
/// null.
pub open spec fn probe_succeeded(reply: RpcReply) -> bool {
    reply matches RpcReply::Result(value) && !(value is Null)
}

/// The candidates among the first `k` whose probe succeeded, in order.
pub open spec fn responding(replies: Seq<RpcReply>, k: int) -> Seq<Seq<char>>
    decreases k,
{
    if k <= 0 {
        Seq::empty()
    } else if k <= replies.len() && probe_succeeded(replies[k - 1]) {
        responding(replies, k - 1).push(candidate_account(k - 1))
    } else {
        responding(replies, k - 1)
    }
}

/// The senders of an engine, given the replies to the probes of the
/// candidates: the candidates that responded, and the first candidate where
/// none did.
pub open spec fn retained(replies: Seq<RpcReply>) -> Seq<Seq<char>> {
    if responding(replies, 5).len() == 0 {
        seq![candidate_account(0)]
    } else {
        responding(replies, 5)
    }
}

/// Chooses the senders of an engine from the replies to `eth_getBalance`
/// for each candidate account, in the order of [`candidate_accounts`].
pub fn get_anvil_accounts(replies: &Vec<RpcReply>) -> (r: Vec<String>)
    ensures
        texts(r@) == retained(replies@),
        r.len() >= 1,
{
    let all = candidate_accounts();
    let mut out: Vec<String> = Vec::new();
    let mut k: usize = 0;
    while k < 5
        invariant
            k <= 5,
            all.len() == 5,
            texts(all@) == candidates(),
            texts(out@) == responding(replies@, k as int),
        decreases 5 - k,
    {
        let ok = k < replies.len() && match &replies[k] {
            RpcReply::Result(RpcValue::Null) => false,
            RpcReply::Result(_) => true,
            _ => false,
        };
        if ok {
            assert(texts(all@)[k as int] == candidate_account(k as int));
            out.push(all[k].clone());
        }
        k += 1;
    }
    if out.len() == 0 {
        assert(texts(all@)[0] == candidate_account(0));
        out.push(all[0].clone());
    }
    out
}

/// The nonce that a reply to `eth_getTransactionCount` gives: the quantity in
/// it, and zero where it holds none.
pub open spec fn nonce_of_reply(reply: RpcReply) -> u64 {
    match reply {
        RpcReply::Result(RpcValue::Text(text)) => match quantity_of(text@) {
            Some(n) => n as u64,
            None => 0,
        },
        _ => 0,
    }
}

/// Reads the nonce out of a reply to `eth_getTransactionCount`.
pub fn get_transaction_count(reply: &RpcReply) -> (r: u64)
    ensures
        r == nonce_of_reply(*reply),
{
    match reply {
        RpcReply::Result(RpcValue::Text(text)) => match parse_quantity(text.as_str()) {
            Some(n) => n,
            None => 0,
        },
        _ => 0,
    }
}

/// The nonce that the sender at `index` starts with, given the replies to
/// `eth_getTransactionCount` for each sender: a sender without a reply starts
/// at zero.
pub open spec fn initial_nonce(replies: Seq<RpcReply>, index: int) -> u64 {
    if 0 <= index < replies.len() {
        nonce_of_reply(replies[index])
    } else {
        0
    }
}

/// The nonce table of the senders `accounts`, by address, given the replies
/// to `eth_getTransactionCount` for each. Where an address stands twice, the
/// later reply counts.
pub open spec fn initial_nonces(accounts: Seq<Seq<char>>, replies: Seq<RpcReply>) -> Map<
    Seq<char>,
    u64,
>
    decreases accounts.len(),
{
    if accounts.len() == 0 {
        Map::empty()
    } else {
        initial_nonces(accounts.drop_last(), replies).insert(
            accounts.last(),
            initial_nonce(replies, accounts.len() - 1),
        )
    }
}

/// The addresses in a table of deployed contracts, as texts.
pub open spec fn deployed_map(entries: Map<Seq<char>, String>) -> Map<Seq<char>, Seq<char>> {
    entries.map_values(|address: String| address@)
}

/// The state of an engine.
pub struct EngineModel {
    /// Where the node listens.
    pub rpc_url: Seq<char>,
    /// The senders.
    pub accounts: Seq<Seq<char>>,
    /// The next unused nonce of each sender, by its address.
    pub nonces: Map<Seq<char>, u64>,
    /// The index of the sender of the next transaction.
    pub current_sender: int,
    /// The address of each deployed contract, by name.
    pub deployed: Map<Seq<char>, Seq<char>>,
}

/// The nonce after `nonce`.
pub open spec fn next_nonce(nonce: u64) -> u64 {
    if nonce < u64::MAX {
        (nonce + 1) as u64
    } else {
        nonce
    }
}

impl EngineModel {
    /// There is a sender, and the current sender is one of the senders.
    pub open spec fn wf(self) -> bool {
        &&& self.accounts.len() >= 1
        &&& 0 <= self.current_sender < self.accounts.len()
    }

    /// Every sender has a nonce in the table.
    pub open spec fn tracks_every_sender(self) -> bool {
        forall|i: int|
            0 <= i < self.accounts.len() ==> self.nonces.contains_key(#[trigger] self.accounts[i])
    }

    /// The next unused nonce of `account`: zero where the table holds none.
    pub open spec fn nonce_of_account(self, account: Seq<char>) -> u64 {
        if self.nonces.contains_key(account) {
            self.nonces[account]
        } else {
            0
        }
    }

    /// The next unused nonce of the sender at `index`.
    pub open spec fn nonce_at(self, index: int) -> u64 {
        self.nonce_of_account(self.accounts[index])
    }

    /// The address of the current sender.
    pub open spec fn sender(self) -> Seq<char> {
        self.accounts[self.current_sender]
    }

    /// The engine after the sender at `index` was chosen: an index that is
    /// out of range leaves the sender as it was.
    pub open spec fn with_sender(self, index: int) -> EngineModel {
        if 0 <= index < self.accounts.len() {
            EngineModel { current_sender: index, ..self }
        } else {
            self
        }
    }

    /// The engine after a transaction of the sender at `index` was mined: the
    /// nonce that the table holds for its address moves on by one.
    pub open spec fn with_transaction_counted(self, index: int) -> EngineModel {
        if 0 <= index < self.accounts.len() && self.nonces.contains_key(self.accounts[index]) {
            EngineModel {
                nonces: self.nonces.insert(
                    self.accounts[index],
                    next_nonce(self.nonces[self.accounts[index]]),
                ),
                ..self
            }
        } else {
            self
        }
    }

    /// The engine after the contract `name` was deployed at `address`.
    pub open spec fn with_deployed(self, name: Seq<char>, address: Seq<char>) -> EngineModel {
        EngineModel { deployed: self.deployed.insert(name, address), ..self }
    }

    /// The engine after `n` transactions of the sender at `index` were mined.
    pub open spec fn after_transactions(self, index: int, n: nat) -> EngineModel
        decreases n,
    {
        if n == 0 {
            self
        } else {
            self.after_transactions(index, (n - 1) as nat).with_transaction_counted(index)
        }
    }
}

/// The senders of an engine: their addresses, and the index of the one that
/// sends next.
struct Senders {
    accounts: Vec<String>,
    current_sender: usize,
}

impl Senders {
    #[verifier::type_invariant]
    spec fn well_formed(&self) -> bool {
        &&& self.accounts.len() >= 1
        &&& self.current_sender < self.accounts.len()
    }
}

/// The execution engine's state. It is made once for a fuzz session.
pub struct AnvilForkExecutor {
    rpc_url: String,
    deployed_contracts: StringHashMap<String>,
    senders: Senders,
    nonces: StringHashMap<u64>,
}

impl View for AnvilForkExecutor {
    type V = EngineModel;

    closed spec fn view(&self) -> EngineModel {
        EngineModel {
            rpc_url: self.rpc_url@,
            accounts: texts(self.senders.accounts@),
            nonces: self.nonces@,
            current_sender: self.senders.current_sender as int,
            deployed: deployed_map(self.deployed_contracts@),
        }
    }
}

impl AnvilForkExecutor {
    /// Sets up an engine for the node at `rpc_url` with the senders
    /// `accounts`, given the replies to `eth_getTransactionCount` at the
    /// pending block for each of them. The first account is the sender.
    ///
    /// Fails as a setup failure exactly when there is no account.
    pub fn new(rpc_url: &str, accounts: Vec<String>, nonce_replies: &Vec<RpcReply>) -> (r: Result<
        Self,
        FuzzError,
    >)
        ensures
            match r {
                Ok(engine) => {
                    &&& accounts.len() >= 1
                    &&& engine@ == EngineModel {
                        rpc_url: rpc_url@,
                        accounts: texts(accounts@),
                        nonces: initial_nonces(texts(accounts@), nonce_replies@),
                        current_sender: 0,
                        deployed: Map::empty(),
                    }
                    &&& engine@.wf()
                    &&& engine@.tracks_every_sender()
                },
                Err(e) => accounts.len() == 0 && e@ == failure(
                    ErrorKind::Setup,
                    "No accounts found from Anvil"@,
                ),
            },
    {
        if accounts.len() == 0 {
            return Err(
                FuzzError::new(ErrorKind::Setup, String::from_str("No accounts found from Anvil")),
            );
        }
        let mut nonces: StringHashMap<u64> = StringHashMap::new();
        let mut i: usize = 0;
        assert(texts(accounts@).take(0) =~= Seq::empty());
        while i < accounts.len()
            invariant
                i <= accounts.len(),
                nonces@ == initial_nonces(texts(accounts@).take(i as int), nonce_replies@),
            decreases accounts.len() - i,
        {
            let nonce = if i < nonce_replies.len() {
                get_transaction_count(&nonce_replies[i])
            } else {
                0
            };
            assert(texts(accounts@).take(i + 1).drop_last() == texts(accounts@).take(i as int));
            nonces.insert(accounts[i].clone(), nonce);
            i += 1;
        }
        assert(texts(accounts@).take(accounts.len() as int) == texts(accounts@));
        let engine = AnvilForkExecutor {
            rpc_url: String::from_str(rpc_url),
            deployed_contracts: StringHashMap::new(),
            senders: Senders { accounts, current_sender: 0 },
            nonces,
        };
        assert(engine@.deployed =~= Map::empty());
        proof {
            lemma_initial_nonces_cover(texts(accounts@), nonce_replies@);
        }
        Ok(engine)
    }

    /// Chooses the sender of the next transactions. An index that is out of
    /// range leaves the sender as it was.
    pub fn set_sender(&mut self, sender_index: usize)
        ensures
            final(self)@ == old(self)@.with_sender(sender_index as int),
            final(self)@.wf(),
    {
        proof {
            use_type_invariant(&self.senders);
        }
        if sender_index < self.senders.accounts.len() {
            self.senders.current_sender = sender_index;
        }
    }

    /// The address of the current sender.
    pub fn current_sender(&self) -> (r: &str)
        ensures
            self@.wf(),
            r@ == self@.sender(),
    {
        proof {
            use_type_invariant(&self.senders);
        }
        self.senders.accounts[self.senders.current_sender].as_str()
    }

    /// The index of the current sender among the accounts.
    pub fn current_sender_index(&self) -> (r: usize)
        ensures
            self@.wf(),
            r == self@.current_sender,
    {
        proof {
            use_type_invariant(&self.senders);
        }
        self.senders.current_sender
    }

    /// The senders.
    pub fn accounts(&self) -> (r: &Vec<String>)
        ensures
            self@.wf(),
            texts(r@) == self@.accounts,
    {
        proof {
            use_type_invariant(&self.senders);
        }
        &self.senders.accounts
    }

    /// Where the node listens.
    pub fn rpc_url(&self) -> (r: &str)
        ensures
            r@ == self@.rpc_url,
    {
        self.rpc_url.as_str()
    }

    /// The next unused nonce of the sender at `index`.
    pub fn nonce_of(&self, index: usize) -> (r: Option<u64>)
        ensures
            self@.wf(),
            match r {
                Some(n) => index < self@.accounts.len() && n == self@.nonce_at(index as int),
                None => index >= self@.accounts.len(),
            },
    {
        proof {
            use_type_invariant(&self.senders);
        }
        if index < self.senders.accounts.len() {
            Some(self.nonce_of_account(self.senders.accounts[index].as_str()))
        } else {
            None
        }
    }

    /// The next unused nonce of `account`: zero where the table holds none.
    fn nonce_of_account(&self, account: &str) -> (r: u64)
        ensures
            r == self@.nonce_of_account(account@),
    {
        match self.nonces.get(account) {
            Some(n) => *n,
            None => 0,
        }
    }

    /// The address at which the contract `contract_name` was deployed.
    pub fn deployed_address(&self, contract_name: &str) -> (r: Option<String>)
        ensures
            match r {
                Some(address) => self@.deployed.contains_key(contract_name@)
                    && self@.deployed[contract_name@] == address@,
                None => !self@.deployed.contains_key(contract_name@),
            },
    {
        match self.deployed_contracts.get(contract_name) {
            Some(address) => Some(address.clone()),
            None => None,
        }
    }

    /// Counts a mined transaction of the sender at `index`.
    fn count_transaction(&mut self, index: usize)
        ensures
            final(self)@ == old(self)@.with_transaction_counted(index as int),
    {
        proof {
            use_type_invariant(&self.senders);
        }
        if index < self.senders.accounts.len() {
            let account = self.senders.accounts[index].clone();
            let counted = match self.nonces.get(account.as_str()) {
                Some(n) => Some(
                    if *n < u64::MAX {
                        *n + 1
                    } else {
                        *n
                    },
                ),
                None => None,
            };
            match counted {
                Some(next) => self.nonces.insert(account, next),
                None => {},
            }
        }
    }

    /// Records that the contract `name` is deployed at `address`.
    fn register(&mut self, name: String, address: String)
        ensures
            final(self)@ == old(self)@.with_deployed(name@, address@),
    {
        proof {
            use_type_invariant(&self.senders);
        }
        let ghost before = self.deployed_contracts@;
        self.deployed_contracts.insert(name, address);
        assert(deployed_map(self.deployed_contracts@) =~= deployed_map(before).insert(
            name@,
            address@,
        ));
    }
}

/// The table that an engine starts with holds a nonce for every sender.
pub proof fn lemma_initial_nonces_cover(accounts: Seq<Seq<char>>, replies: Seq<RpcReply>)
    ensures
        forall|i: int|
            0 <= i < accounts.len() ==> initial_nonces(accounts, replies).contains_key(
                #[trigger] accounts[i],
            ),
    decreases accounts.len(),
{
    if accounts.len() > 0 {
        lemma_initial_nonces_cover(accounts.drop_last(), replies);
        assert forall|i: int| 0 <= i < accounts.len() implies initial_nonces(
            accounts,
            replies,
        ).contains_key(#[trigger] accounts[i]) by {
            if i < accounts.len() - 1 {
                assert(accounts.drop_last()[i] == accounts[i]);
            }
        }
    }
}

/// Where the senders' addresses differ from one another, each starts with
/// the nonce of its own reply.
pub proof fn lemma_initial_nonce_of_each(
    accounts: Seq<Seq<char>>,
    replies: Seq<RpcReply>,
    index: int,
)
    requires
        0 <= index < accounts.len(),
        forall|i: int, j: int| 0 <= i < j < accounts.len() ==> accounts[i] != accounts[j],
    ensures
        initial_nonces(accounts, replies).contains_key(accounts[index]),
        initial_nonces(accounts, replies)[accounts[index]] == initial_nonce(replies, index),
    decreases accounts.len(),
{
    if index < accounts.len() - 1 {
        assert(accounts.drop_last()[index] == accounts[index]);
        assert forall|i: int, j: int| 0 <= i < j < accounts.drop_last().len() implies accounts.drop_last()[i]
            != accounts.drop_last()[j] by {
            assert(accounts.drop_last()[i] == accounts[i]);
            assert(accounts.drop_last()[j] == accounts[j]);
        }
        lemma_initial_nonces_cover(accounts.drop_last(), replies);
        lemma_initial_nonce_of_each(accounts.drop_last(), replies, index);
    }
}

/// Mining `n` transactions of a sender moves its nonce on by `n` and leaves
/// everything else as it was, as long as the nonce fits 64 bits.
pub proof fn lemma_nonce_after_transactions(engine: EngineModel, index: int, n: nat)
    requires
        engine.wf(),
        engine.tracks_every_sender(),
        0 <= index < engine.accounts.len(),
        engine.nonce_at(index) + n <= u64::MAX,
    ensures
        engine.after_transactions(index, n).wf(),
        engine.after_transactions(index, n).tracks_every_sender(),
        engine.after_transactions(index, n).nonce_at(index) == engine.nonce_at(index) + n,
        forall|account: Seq<char>|
            account != engine.accounts[index] ==> engine.after_transactions(
                index,
                n,
            ).nonce_of_account(account) == engine.nonce_of_account(account),
        engine.after_transactions(index, n).accounts == engine.accounts,
        engine.after_transactions(index, n).current_sender == engine.current_sender,
        engine.after_transactions(index, n).deployed == engine.deployed,
    decreases n,
{
    if n > 0 {
        lemma_nonce_after_transactions(engine, index, (n - 1) as nat);
        let before = engine.after_transactions(index, (n - 1) as nat);
        assert(before.nonces.contains_key(before.accounts[index]));
    }
}

/// What a method call came to.
#[derive(Debug, PartialEq)]
pub struct MethodExecutionResult {
    pub success: bool,
    pub gas_used: u64,
    pub return_data: Vec<u8>,
    pub error: Option<String>,
}

/// The mathematical view of a [`MethodExecutionResult`].
pub struct ExecutionModel {
    pub success: bool,
    pub gas_used: u64,
    pub return_data: Seq<u8>,
    pub error: Option<Seq<char>>,
}

impl View for MethodExecutionResult {
    type V = ExecutionModel;

    open spec fn view(&self) -> ExecutionModel {
        ExecutionModel {
            success: self.success,
            gas_used: self.gas_used,
            return_data: self.return_data@,
            error: match self.error {
                Some(e) => Some(e@),
                None => None,
            },
        }
    }
}

/// The call that succeeded with `gas_used`.
pub open spec fn passed(gas_used: u64) -> ExecutionModel {
    ExecutionModel { success: true, gas_used, return_data: Seq::empty(), error: None }
}

/// The call that failed with `gas_used` and the message `error`.
pub open spec fn failed(gas_used: u64, error: Seq<char>) -> ExecutionModel {
    ExecutionModel { success: false, gas_used, return_data: Seq::empty(), error: Some(error) }
}

/// How often a receipt is asked for before the transaction is given up.
pub const MAX_RECEIPT_POLLS: u32 = 100;

/// The pause between two requests for a receipt, in milliseconds.
pub const POLL_INTERVAL_MS: u64 = 100;

/// What a transaction is for.
#[derive(Debug, PartialEq)]
pub enum TransactionPurpose {
    /// It creates the contract `contract_name`.
    Deployment { contract_name: String },
    /// It calls the contract at `contract_address`.
    Call { contract_address: String },
}

/// Where a transaction is in its life.
#[derive(Debug, PartialEq)]
pub enum TransactionPhase {
    /// It was handed to the node; the hash is awaited.
    Submitting,
    /// It has the hash `tx_hash`, and `attempts` requests for its receipt
    /// found it not mined yet.
    Watching { tx_hash: String, attempts: u32 },
    /// A deployment was mined with the failing status `status`; the
    /// simulation that tells why is awaited.
    DiagnosingDeployment { status: String },
    /// A call was mined, used `gas_used` and reverted; the simulation that
    /// tells why is awaited.
    DiagnosingCall { gas_used: u64 },
}

/// A transaction in flight.
#[derive(Debug, PartialEq)]
pub struct PendingTransaction {
    pub purpose: TransactionPurpose,
    /// The input data, hexadecimal with a `0x` prefix.
    pub data: String,
    /// The index of the sender among the engine's accounts.
    pub sender: usize,
    pub phase: TransactionPhase,
}

/// The mathematical view of a [`TransactionPurpose`].
pub enum PurposeModel {
    Deployment { contract_name: Seq<char> },
    Call { contract_address: Seq<char> },
}

/// The mathematical view of a [`TransactionPhase`].
pub enum PhaseModel {
    Submitting,
    Watching { tx_hash: Seq<char>, attempts: u32 },
    DiagnosingDeployment { status: Seq<char> },
    DiagnosingCall { gas_used: u64 },
}

/// The mathematical view of a [`PendingTransaction`].
pub struct PendingModel {
    pub purpose: PurposeModel,
    pub data: Seq<char>,
    pub sender: int,
    pub phase: PhaseModel,
}

impl View for TransactionPurpose {
    type V = PurposeModel;

    open spec fn view(&self) -> PurposeModel {
        match self {
            TransactionPurpose::Deployment { contract_name } => PurposeModel::Deployment {
                contract_name: contract_name@,
            },
            TransactionPurpose::Call { contract_address } => PurposeModel::Call {
                contract_address: contract_address@,
            },
        }
    }
}

impl View for TransactionPhase {
    type V = PhaseModel;

    open spec fn view(&self) -> PhaseModel {
        match self {
            TransactionPhase::Submitting => PhaseModel::Submitting,
            TransactionPhase::Watching { tx_hash, attempts } => PhaseModel::Watching {
                tx_hash: tx_hash@,
                attempts: *attempts,
            },
            TransactionPhase::DiagnosingDeployment { status } => PhaseModel::DiagnosingDeployment {
                status: status@,
            },
            TransactionPhase::DiagnosingCall { gas_used } => PhaseModel::DiagnosingCall {
                gas_used: *gas_used,
            },
        }
    }
}

impl View for PendingTransaction {
    type V = PendingModel;

    open spec fn view(&self) -> PendingModel {
        PendingModel {
            purpose: self.purpose@,
            data: self.data@,
            sender: self.sender as int,
            phase: self.phase@,
        }
    }
}

/// What the engine asks for next, or how the transaction ended.
#[derive(Debug, PartialEq)]
pub enum EngineStep {
    /// Wait `delay_ms` milliseconds, send `request`, and resume
    /// `transaction` with the reply.
    Continue { transaction: PendingTransaction, request: RpcCall, delay_ms: u64 },
    /// The contract is deployed at this address.
    Deployed(String),
    /// The call was carried out, with this result.
    Executed(MethodExecutionResult),
    /// The transaction failed before it had a result.
    Failed(FuzzError),
}

/// The mathematical view of an [`EngineStep`].
pub enum StepModel {
    Continue { transaction: PendingModel, request: crate::rpc::RpcCallModel, delay_ms: u64 },
    Deployed(Seq<char>),
    Executed(ExecutionModel),
    Failed(FuzzErrorModel),
}

impl View for EngineStep {
    type V = StepModel;

    open spec fn view(&self) -> StepModel {
        match self {
            EngineStep::Continue { transaction, request, delay_ms } => StepModel::Continue {
                transaction: transaction@,
                request: request@,
                delay_ms: *delay_ms,
            },
            EngineStep::Deployed(address) => StepModel::Deployed(address@),
            EngineStep::Executed(result) => StepModel::Executed(result@),
            EngineStep::Failed(e) => StepModel::Failed(e@),
        }
    }
}

/// The input data of a transaction as the node takes it: `0x`, then the
/// bytes in lower-case hexadecimal.
pub open spec fn transaction_data(code: Seq<u8>) -> Seq<char> {
    "0x"@ + hex_lower(code)
}

/// The code that a deployment submits: the bytecode, then the encoded
/// constructor arguments where there are any.
pub open spec fn deployment_code(bytecode: Seq<u8>, constructor_args: Option<Seq<u8>>) -> Seq<u8> {
    match constructor_args {
        Some(args) => bytecode + args,
        None => bytecode,
    }
}

/// The input data of a method call: the selector of the signature, then the
/// encoded arguments.
pub open spec fn call_data(signature: Seq<char>, encoded_args: Seq<u8>) -> Seq<u8> {
    selector_of(signature) + encoded_args
}

/// The transaction that the engine submits to `to` with the input `data`:
/// from the current sender, with its next nonce, no value, and a gas limit of
/// sixteen million.
pub open spec fn send_request(engine: EngineModel, to: Option<Seq<char>>, data: Seq<char>)
    -> crate::rpc::TransactionRequestModel {
    crate::rpc::TransactionRequestModel {
        from: engine.sender(),
        to,
        data,
        value: "0x0"@,
        nonce: quantity_text(engine.nonce_at(engine.current_sender) as nat),
        gas: "0x1000000"@,
    }
}

/// The simulation of a transaction of the current sender at the latest
/// block.
pub open spec fn simulation(engine: EngineModel, to: Option<Seq<char>>, data: Seq<char>)
    -> crate::rpc::RpcCallModel {
    crate::rpc::RpcCallModel::Call {
        request: crate::rpc::CallRequestModel { from: engine.sender(), to, data },
        block: "latest"@,
    }
}

/// The first step of a deployment.
pub open spec fn deployment_start(
    engine: EngineModel,
    contract_name: Seq<char>,
    bytecode: Seq<u8>,
    constructor_args: Option<Seq<u8>>,
) -> StepModel {
    let data = transaction_data(deployment_code(bytecode, constructor_args));
    StepModel::Continue {
        transaction: PendingModel {
            purpose: PurposeModel::Deployment { contract_name },
            data,
            sender: engine.current_sender,
            phase: PhaseModel::Submitting,
        },
        request: crate::rpc::RpcCallModel::SendTransaction(send_request(engine, None, data)),
        delay_ms: 0,
    }
}

/// The message for a call of a contract that was never deployed.
pub open spec fn not_deployed_text(contract_name: Seq<char>) -> Seq<char> {
    "Contract "@ + contract_name + " not deployed"@
}

/// The first step of a method call: the submission where the contract is
/// deployed, and a failure where it is not.
pub open spec fn call_start(
    engine: EngineModel,
    contract_name: Seq<char>,
    signature: Seq<char>,
    encoded_args: Seq<u8>,
) -> StepModel {
    if engine.deployed.contains_key(contract_name) {
        let address = engine.deployed[contract_name];
        let data = transaction_data(call_data(signature, encoded_args));
        StepModel::Continue {
            transaction: PendingModel {
                purpose: PurposeModel::Call { contract_address: address },
                data,
                sender: engine.current_sender,
                phase: PhaseModel::Submitting,
            },
            request: crate::rpc::RpcCallModel::SendTransaction(
                send_request(engine, Some(address), data),
            ),
            delay_ms: 0,
        }
    } else {
        StepModel::Failed(failure(ErrorKind::Deployment, not_deployed_text(contract_name)))
    }
}

/// What a reply to a request for a receipt means.
pub enum WatchVerdict {
    /// The transaction was mined, with this receipt.
    Mined(TransactionReceipt),
    /// It was not mined yet; ask again.
    Again,
    /// There will be no receipt.
    Failed(FuzzErrorModel),
}

/// Reads a reply to `eth_getTransactionReceipt` after `attempts` earlier
/// requests found the transaction not mined.
///
/// A receipt ends the wait. A null result means not mined yet: the wait goes
/// on, unless this was request number [`MAX_RECEIPT_POLLS`]. Anything else
/// is a failure.
pub open spec fn watch_verdict(attempts: u32, reply: RpcReply) -> WatchVerdict {
    match reply {
        RpcReply::Result(RpcValue::Receipt(receipt)) => WatchVerdict::Mined(receipt),
        RpcReply::Result(RpcValue::Null) | RpcReply::Missing => if attempts + 1
            >= MAX_RECEIPT_POLLS {
            WatchVerdict::Failed(
                failure(ErrorKind::Transport, "Transaction not mined after 100 attempts"@),
            )
        } else {
            WatchVerdict::Again
        },
        RpcReply::Result(_) => WatchVerdict::Failed(
            failure(ErrorKind::Transport, "Failed to parse transaction receipt"@),
        ),
        RpcReply::Error(e) => WatchVerdict::Failed(node_failure_of(e)),
        RpcReply::Transport(reason) => WatchVerdict::Failed(
            failure(ErrorKind::Transport, reason@),
        ),
    }
}

/// What a reply to a request for a receipt means.
#[derive(Debug, PartialEq)]
pub enum WatchOutcome {
    Mined(TransactionReceipt),
    Again,
    Failed(FuzzError),
}

/// The reason that a simulation gives for a revert: the message of the error
/// that the node answers with, and `Unknown revert reason` where it answers
/// with no error or could not be asked.
pub open spec fn revert_reason(reply: RpcReply) -> Seq<char> {
    match reply {
        RpcReply::Error(e) => e.message@,
        _ => "Unknown revert reason"@,
    }
}

/// `s` without the prefix `prefix`, trimmed, where `s` begins with it.
pub open spec fn without_prefix(s: Seq<char>, prefix: Seq<char>) -> Seq<char> {
    if starts_with(s, prefix) {
        trim(s.skip(prefix.len() as int))
    } else {
        s
    }
}

/// A revert reason made fit for one line of a report: line breaks become
/// spaces, a leading `RPC error:` and then a leading `execution reverted:`
/// are taken off, and the white space around what is left is trimmed.
pub open spec fn normalized_reason(reason: Seq<char>) -> Seq<char> {
    without_prefix(
        without_prefix(trim(single_line(reason)), "RPC error:"@),
        "execution reverted:"@,
    )
}

/// The message of a deployment that was mined and reverted.
pub open spec fn reverted_deployment_text(status: Seq<char>, reason: Seq<char>) -> Seq<char> {
    "Contract deployment failed: Transaction reverted (status: "@ + status
        + ")\nRevert reason: "@ + reason
}

/// How a transaction ends when it fails before it was mined: a deployment
/// fails with `e`, a call counts as executed without success, with the
/// message of `e` after `context`.
pub open spec fn unmined(purpose: PurposeModel, e: FuzzErrorModel, context: Seq<char>)
    -> StepModel {
    match purpose {
        PurposeModel::Deployment { .. } => StepModel::Failed(e),
        PurposeModel::Call { .. } => StepModel::Executed(failed(0, context + e.message)),
    }
}

/// The failure `e` as a failure of the deployment.
pub open spec fn as_deployment_failure(e: FuzzErrorModel) -> FuzzErrorModel {
    FuzzErrorModel { kind: ErrorKind::Deployment, code: e.code, message: e.message }
}

/// The step after the node answered the submission.
pub open spec fn after_submission(engine: EngineModel, tx: PendingModel, reply: RpcReply)
    -> (EngineModel, StepModel) {
    match reply_failure("eth_sendTransaction"@, engine.rpc_url, reply) {
        Some(e) => (engine, unmined(tx.purpose, e, "Transaction failed: "@)),
        None => match reply {
            RpcReply::Result(RpcValue::Text(hash)) => (
                engine,
                StepModel::Continue {
                    transaction: PendingModel {
                        phase: PhaseModel::Watching { tx_hash: hash@, attempts: 0 },
                        ..tx
                    },
                    request: crate::rpc::RpcCallModel::GetTransactionReceipt { tx_hash: hash@ },
                    delay_ms: 0,
                },
            ),
            _ => (
                engine,
                StepModel::Failed(failure(ErrorKind::Transport, "Invalid transaction hash"@)),
            ),
        },
    }
}

/// The step after a transaction was mined with `receipt`.
///
/// The transaction is counted for its sender whatever its status. A
/// deployment that succeeded is registered under its name; a deployment or a
/// call that failed is simulated to learn why.
pub open spec fn after_mining(
    engine: EngineModel,
    purpose: PurposeModel,
    data: Seq<char>,
    sender: int,
    receipt: TransactionReceipt,
) -> (EngineModel, StepModel) {
    match purpose {
        PurposeModel::Deployment { contract_name } => if !is_success(receipt.status) {
            (
                engine.with_transaction_counted(sender),
                StepModel::Continue {
                    transaction: PendingModel {
                        purpose,
                        data,
                        sender,
                        phase: PhaseModel::DiagnosingDeployment {
                            status: status_text(receipt.status),
                        },
                    },
                    request: simulation(engine, None, data),
                    delay_ms: 0,
                },
            )
        } else {
            match receipt.contract_address {
                Some(address) => (
                    engine.with_deployed(contract_name, address@).with_transaction_counted(sender),
                    StepModel::Deployed(address@),
                ),
                None => (
                    engine.with_transaction_counted(sender),
                    StepModel::Failed(
                        failure(
                            ErrorKind::Deployment,
                            "No contract address in receipt - deployment may have failed"@,
                        ),
                    ),
                ),
            }
        },
        PurposeModel::Call { contract_address } => {
            let counted = engine.with_transaction_counted(sender);
            let gas_used = gas_of(receipt.gas_used) as u64;
            if is_success(receipt.status) {
                (counted, StepModel::Executed(passed(gas_used)))
            } else {
                (
                    counted,
                    StepModel::Continue {
                        transaction: PendingModel {
                            purpose,
                            data,
                            sender,
                            phase: PhaseModel::DiagnosingCall { gas_used },
                        },
                        request: simulation(engine, Some(contract_address), data),
                        delay_ms: 0,
                    },
                )
            }
        },
    }
}

/// The step after the node answered a request for the receipt.
pub open spec fn after_watching(
    engine: EngineModel,
    tx: PendingModel,
    tx_hash: Seq<char>,
    attempts: u32,
    reply: RpcReply,
) -> (EngineModel, StepModel) {
    match watch_verdict(attempts, reply) {
        WatchVerdict::Mined(receipt) => after_mining(
            engine,
            tx.purpose,
            tx.data,
            tx.sender,
            receipt,
        ),
        WatchVerdict::Again => (
            engine,
            StepModel::Continue {
                transaction: PendingModel {
                    phase: PhaseModel::Watching { tx_hash, attempts: (attempts + 1) as u32 },
                    ..tx
                },
                request: crate::rpc::RpcCallModel::GetTransactionReceipt { tx_hash },
                delay_ms: POLL_INTERVAL_MS,
            },
        ),
        WatchVerdict::Failed(e) => (
            engine,
            unmined(tx.purpose, as_deployment_failure(e), "Failed to get receipt: "@),
        ),
    }
}

/// The step that follows when `reply` answers the last request made for the
/// transaction `tx`, and the engine after it.
pub open spec fn transition(engine: EngineModel, tx: PendingModel, reply: RpcReply) -> (
    EngineModel,
    StepModel,
) {
    match tx.phase {
        PhaseModel::Submitting => after_submission(engine, tx, reply),
        PhaseModel::Watching { tx_hash, attempts } => after_watching(
            engine,
            tx,
            tx_hash,
            attempts,
            reply,
        ),
        PhaseModel::DiagnosingDeployment { status } => (
            engine,
            StepModel::Failed(
                failure(
                    ErrorKind::Deployment,
                    reverted_deployment_text(status, normalized_reason(revert_reason(reply))),
                ),
            ),
        ),
        PhaseModel::DiagnosingCall { gas_used } => (
            engine,
            StepModel::Executed(
                failed(gas_used, normalized_reason(revert_reason(reply))),
            ),
        ),
    }
}

/// Reads a reply to `eth_getTransactionReceipt` after `attempts` earlier
/// requests found the transaction not mined.
pub fn wait_for_transaction(attempts: u32, reply: RpcReply) -> (r: WatchOutcome)
    ensures
        match r {
            WatchOutcome::Mined(receipt) => watch_verdict(attempts, reply) == WatchVerdict::Mined(
                receipt,
            ),
            WatchOutcome::Again => watch_verdict(attempts, reply) == WatchVerdict::Again,
            WatchOutcome::Failed(e) => watch_verdict(attempts, reply) == WatchVerdict::Failed(e@),
        },
{
    match reply {
        RpcReply::Result(RpcValue::Receipt(receipt)) => WatchOutcome::Mined(receipt),
        RpcReply::Result(RpcValue::Null) | RpcReply::Missing => {
            if attempts >= MAX_RECEIPT_POLLS - 1 {
                WatchOutcome::Failed(
                    FuzzError::new(
                        ErrorKind::Transport,
                        String::from_str("Transaction not mined after 100 attempts"),
                    ),
                )
            } else {
                WatchOutcome::Again
            }
        },
        RpcReply::Result(_) => WatchOutcome::Failed(
            FuzzError::new(
                ErrorKind::Transport,
                String::from_str("Failed to parse transaction receipt"),
            ),
        ),
        RpcReply::Error(e) => WatchOutcome::Failed(node_failure(e)),
        RpcReply::Transport(reason) => WatchOutcome::Failed(
            FuzzError::new(ErrorKind::Transport, reason),
        ),
    }
}

/// Reads the reason for a revert out of the reply to the simulation of the
/// transaction.
pub fn get_revert_reason(reply: RpcReply) -> (r: String)
    ensures
        r@ == revert_reason(reply),
{
    match reply {
        RpcReply::Error(e) => e.message,
        _ => String::from_str("Unknown revert reason"),
    }
}

fn strip_prefix(s: Vec<char>, prefix: &str) -> (r: Vec<char>)
    ensures
        r@ == without_prefix(s@, prefix@),
{
    if starts_with_str(&s, prefix) {
        let n = chars_of(prefix).len();
        trim_chars(&slice_of(&s, n, s.len()))
    } else {
        s
    }
}

/// Makes a revert reason fit for one line of a report.
pub fn normalize_reason(reason: &str) -> (r: String)
    ensures
        r@ == normalized_reason(reason@),
{
    let flat = trim_chars(&flatten_line_breaks(&chars_of(reason)));
    let inner = strip_prefix(strip_prefix(flat, "RPC error:"), "execution reverted:");
    string_of(&inner)
}

/// The input data of a transaction as the node takes it.
pub fn format_transaction_data(code: &Vec<u8>) -> (r: String)
    ensures
        r@ == transaction_data(code@),
{
    let mut out = chars_of("0x");
    append_str(&mut out, encode_hex(code).as_str());
    string_of(&out)
}

impl AnvilForkExecutor {
    /// The transaction that the engine submits to `to` with the input
    /// `data`.
    fn transaction_request(&self, to: Option<String>, data: String) -> (r: TransactionRequest)
        ensures
            r@ == send_request(self@, crate::rpc::optional_text(to), data@),
    {
        proof {
            use_type_invariant(&self.senders);
        }
        TransactionRequest {
            from: self.senders.accounts[self.senders.current_sender].clone(),
            to,
            data,
            value: String::from_str("0x0"),
            nonce: format_quantity(
                self.nonce_of_account(self.senders.accounts[self.senders.current_sender].as_str()),
            ),
            gas: String::from_str("0x1000000"),
        }
    }

    /// The simulation of a transaction of the current sender.
    fn simulation_request(&self, to: Option<String>, data: String) -> (r: RpcCall)
        ensures
            r@ == simulation(self@, crate::rpc::optional_text(to), data@),
    {
        proof {
            use_type_invariant(&self.senders);
        }
        RpcCall::Call {
            request: CallRequest { from: self.senders.accounts[self.senders.current_sender].clone(), to, data },
            block: String::from_str("latest"),
        }
    }

    /// Starts the deployment of the contract `contract_name`: the bytecode,
    /// followed by the encoded constructor arguments where there are any, is
    /// submitted from the current sender with its next nonce.
    ///
    /// The step returned asks for the submission; hand the node's reply to
    /// [`AnvilForkExecutor::resume`].
    pub fn deploy_contract(
        &self,
        contract_name: &str,
        bytecode: &Vec<u8>,
        constructor_args: Option<&Vec<u8>>,
    ) -> (r: EngineStep)
        ensures
            r@ == deployment_start(
                self@,
                contract_name@,
                bytecode@,
                match constructor_args {
                    Some(args) => Some(args@),
                    None => None,
                },
            ),
    {
        let mut code: Vec<u8> = Vec::new();
        append_bytes(&mut code, bytecode);
        match constructor_args {
            Some(args) => {
                append_bytes(&mut code, args);
            },
            None => {},
        }
        assert(code@ =~= deployment_code(
            bytecode@,
            match constructor_args {
                Some(args) => Some(args@),
                None => None,
            },
        ));
        let data = format_transaction_data(&code);
        let request = self.transaction_request(None, data.clone());
        EngineStep::Continue {
            transaction: PendingTransaction {
                purpose: TransactionPurpose::Deployment {
                    contract_name: String::from_str(contract_name),
                },
                data,
                sender: self.current_sender_index(),
                phase: TransactionPhase::Submitting,
            },
            request: RpcCall::SendTransaction(request),
            delay_ms: 0,
        }
    }

    /// Starts a call of the method with the canonical signature
    /// `method_signature` on the contract `contract_name`, with the encoded
    /// arguments `encoded_args`, from the current sender with its next nonce.
    ///
    /// Fails at once where the contract was not deployed. Otherwise the step
    /// returned asks for the submission; hand the node's reply to
    /// [`AnvilForkExecutor::resume`].
    pub fn call_method(&self, contract_name: &str, method_signature: &str, encoded_args: &Vec<u8>)
        -> (r: EngineStep)
        ensures
            r@ == call_start(self@, contract_name@, method_signature@, encoded_args@),
    {
        let address = match self.deployed_address(contract_name) {
            Some(address) => address,
            None => {
                let mut text = chars_of("Contract ");
                append_str(&mut text, contract_name);
                append_str(&mut text, " not deployed");
                return EngineStep::Failed(FuzzError::new(ErrorKind::Deployment, string_of(&text)));
            },
        };
        let selector = calculate_selector(method_signature);
        let mut code: Vec<u8> = Vec::new();
        code.push(selector[0]);
        code.push(selector[1]);
        code.push(selector[2]);
        code.push(selector[3]);
        assert(code@ =~= selector_of(method_signature@));
        append_bytes(&mut code, encoded_args);
        let data = format_transaction_data(&code);
        let request = self.transaction_request(Some(address.clone()), data.clone());
        EngineStep::Continue {
            transaction: PendingTransaction {
                purpose: TransactionPurpose::Call { contract_address: address },
                data,
                sender: self.current_sender_index(),
                phase: TransactionPhase::Submitting,
            },
            request: RpcCall::SendTransaction(request),
            delay_ms: 0,
        }
    }

    /// The end of a transaction that failed before it was mined.
    fn end_unmined(purpose: TransactionPurpose, e: FuzzError, context: &str) -> (r: EngineStep)
        ensures
            r@ == unmined(purpose@, e@, context@),
    {
        match purpose {
            TransactionPurpose::Deployment { .. } => EngineStep::Failed(e),
            TransactionPurpose::Call { .. } => {
                let mut text = chars_of(context);
                append_str(&mut text, e.message.as_str());
                EngineStep::Executed(
                    MethodExecutionResult {
                        success: false,
                        gas_used: 0,
                        return_data: Vec::new(),
                        error: Some(string_of(&text)),
                    },
                )
            },
        }
    }

    /// Takes the node's reply to the last request made for `transaction` and
    /// says what follows: the next request, or how the transaction ended.
    ///
    /// The engine changes only when the transaction was mined: it is counted
    /// for its sender, and a deployment that succeeded is registered.
    pub fn resume(&mut self, transaction: PendingTransaction, reply: RpcReply) -> (r: EngineStep)
        ensures
            final(self)@ == transition(old(self)@, transaction@, reply).0,
            r@ == transition(old(self)@, transaction@, reply).1,
    {
        let PendingTransaction { purpose, data, sender, phase } = transaction;
        match phase {
            TransactionPhase::Submitting => {
                match interpret_reply("eth_sendTransaction", self.rpc_url.as_str(), reply) {
                    Err(e) => Self::end_unmined(purpose, e, "Transaction failed: "),
                    Ok(RpcValue::Text(hash)) => EngineStep::Continue {
                        transaction: PendingTransaction {
                            purpose,
                            data,
                            sender,
                            phase: TransactionPhase::Watching { tx_hash: hash.clone(), attempts: 0 },
                        },
                        request: RpcCall::GetTransactionReceipt { tx_hash: hash },
                        delay_ms: 0,
                    },
                    Ok(_) => EngineStep::Failed(
                        FuzzError::new(
                            ErrorKind::Transport,
                            String::from_str("Invalid transaction hash"),
                        ),
                    ),
                }
            },
            TransactionPhase::Watching { tx_hash, attempts } => {
                match wait_for_transaction(attempts, reply) {
                    WatchOutcome::Mined(receipt) => self.finish_mined(purpose, data, sender, receipt),
                    WatchOutcome::Again => EngineStep::Continue {
                        transaction: PendingTransaction {
                            purpose,
                            data,
                            sender,
                            phase: TransactionPhase::Watching {
                                tx_hash: tx_hash.clone(),
                                attempts: attempts + 1,
                            },
                        },
                        request: RpcCall::GetTransactionReceipt { tx_hash },
                        delay_ms: POLL_INTERVAL_MS,
                    },
                    WatchOutcome::Failed(e) => {
                        let e = FuzzError {
                            kind: ErrorKind::Deployment,
                            code: e.code,
                            message: e.message,
                        };
                        Self::end_unmined(purpose, e, "Failed to get receipt: ")
                    },
                }
            },
            TransactionPhase::DiagnosingDeployment { status } => {
                let reason = normalize_reason(get_revert_reason(reply).as_str());
                let mut text = chars_of("Contract deployment failed: Transaction reverted (status: ");
                append_str(&mut text, status.as_str());
                append_str(&mut text, ")\nRevert reason: ");
                append_str(&mut text, reason.as_str());
                EngineStep::Failed(FuzzError::new(ErrorKind::Deployment, string_of(&text)))
            },
            TransactionPhase::DiagnosingCall { gas_used } => {
                let reason = get_revert_reason(reply);
                EngineStep::Executed(
                    MethodExecutionResult {
                        success: false,
                        gas_used,
                        return_data: Vec::new(),
                        error: Some(normalize_reason(reason.as_str())),
                    },
                )
            },
        }
    }

    /// The step after a transaction was mined with `receipt`.
    fn finish_mined(
        &mut self,
        purpose: TransactionPurpose,
        data: String,
        sender: usize,
        receipt: TransactionReceipt,
    ) -> (r: EngineStep)
        ensures
            final(self)@ == after_mining(old(self)@, purpose@, data@, sender as int, receipt).0,
            r@ == after_mining(old(self)@, purpose@, data@, sender as int, receipt).1,
    {
        let succeeded = receipt.succeeded();
        match purpose {
            TransactionPurpose::Deployment { contract_name } => {
                if !succeeded {
                    let request = self.simulation_request(None, data.clone());
                    self.count_transaction(sender);
                    EngineStep::Continue {
                        transaction: PendingTransaction {
                            purpose: TransactionPurpose::Deployment { contract_name },
                            data,
                            sender,
                            phase: TransactionPhase::DiagnosingDeployment {
                                status: receipt.status_string(),
                            },
                        },
                        request,
                        delay_ms: 0,
                    }
                } else {
                    match receipt.contract_address {
                        Some(address) => {
                            self.register(contract_name, address.clone());
                            self.count_transaction(sender);
                            EngineStep::Deployed(address)
                        },
                        None => {
                            self.count_transaction(sender);
                            EngineStep::Failed(
                                FuzzError::new(
                                    ErrorKind::Deployment,
                                    String::from_str(
                                        "No contract address in receipt - deployment may have failed",
                                    ),
                                ),
                            )
                        },
                    }
                }
            },
            TransactionPurpose::Call { contract_address } => {
                let gas_used = receipt.gas();
                let request = self.simulation_request(Some(contract_address.clone()), data.clone());
                self.count_transaction(sender);
                if succeeded {
                    EngineStep::Executed(
                        MethodExecutionResult {
                            success: true,
                            gas_used,
                            return_data: Vec::new(),
                            error: None,
                        },
                    )
                } else {
                    EngineStep::Continue {
                        transaction: PendingTransaction {
                            purpose: TransactionPurpose::Call { contract_address },
                            data,
                            sender,
                            phase: TransactionPhase::DiagnosingCall { gas_used },
                        },
                        request,
                        delay_ms: 0,
                    }
                }
            },
        }
    }
}

/// A transaction that succeeded was counted: where a step ends a call with
/// success, or a deployment with an address, the engine afterwards is the
/// engine before with one more transaction counted for the sender, and with
/// the contract registered where it was a deployment.
pub proof fn lemma_success_is_counted(engine: EngineModel, tx: PendingModel, reply: RpcReply)
    ensures
        transition(engine, tx, reply).1 matches StepModel::Executed(result) ==> (result.success
            ==> transition(engine, tx, reply).0 == engine.with_transaction_counted(tx.sender)),
        transition(engine, tx, reply).1 matches StepModel::Deployed(address) ==> {
            &&& tx.purpose is Deployment
            &&& reply matches RpcReply::Result(RpcValue::Receipt(receipt))
            &&& crate::rpc::optional_text(receipt.contract_address) == Some(address)
            &&& transition(engine, tx, reply).0 == engine.with_deployed(
                tx.purpose->contract_name,
                address,
            ).with_transaction_counted(tx.sender)
        },
{
}

/// Every transaction that was mined is counted, whatever its status: where a
/// step follows a receipt, the nonces afterwards are the nonces before with
/// one more transaction counted for the sender.
pub proof fn lemma_mined_is_counted(engine: EngineModel, tx: PendingModel, reply: RpcReply)
    requires
        tx.phase is Watching,
        reply matches RpcReply::Result(RpcValue::Receipt(_)),
    ensures
        transition(engine, tx, reply).0.nonces == engine.with_transaction_counted(
            tx.sender,
        ).nonces,
{
}

/// A transaction that did not get a receipt was not counted: where the step
/// does not follow a receipt, the engine is as it was.
pub proof fn lemma_unmined_is_not_counted(engine: EngineModel, tx: PendingModel, reply: RpcReply)
    requires
        !(tx.phase is Watching && reply matches RpcReply::Result(RpcValue::Receipt(_))),
    ensures
        transition(engine, tx, reply).0 == engine,
{
}

/// What a deployment submits depends on the engine only through the sender
/// and its nonce: two engines with the same sender at the same nonce submit
/// the same transaction for the same bytecode and constructor arguments.
pub proof fn lemma_same_deployment_request(
    first: EngineModel,
    second: EngineModel,
    contract_name: Seq<char>,
    bytecode: Seq<u8>,
    constructor_args: Option<Seq<u8>>,
)
    requires
        first.wf(),
        second.wf(),
        first.sender() == second.sender(),
        first.nonce_at(first.current_sender) == second.nonce_at(second.current_sender),
    ensures
        deployment_start(first, contract_name, bytecode, constructor_args)->request
            == deployment_start(second, contract_name, bytecode, constructor_args)->request,
{
}

/// A contract is registered only after its deployment was mined with
/// success: where a step registers a name that was not registered before, or
/// changes its address, the step follows a receipt with a successful status
/// for a deployment of that name.
pub proof fn lemma_registered_only_after_success(
    engine: EngineModel,
    tx: PendingModel,
    reply: RpcReply,
    name: Seq<char>,
)
    requires
        transition(engine, tx, reply).0.deployed.contains_key(name),
        !engine.deployed.contains_key(name) || engine.deployed[name] != transition(
            engine,
            tx,
            reply,
        ).0.deployed[name],
    ensures
        tx.phase is Watching,
        tx.purpose == (PurposeModel::Deployment { contract_name: name }),
        reply matches RpcReply::Result(RpcValue::Receipt(receipt)) && is_success(receipt.status),
{
}

/// A step never changes the accounts, the sender or the endpoint of the
/// engine, and leaves it well-formed. Where every sender had a nonce before
/// the step, every sender has one after it.
pub proof fn lemma_step_keeps_the_senders(engine: EngineModel, tx: PendingModel, reply: RpcReply)
    requires
        engine.wf(),
    ensures
        transition(engine, tx, reply).0.wf(),
        transition(engine, tx, reply).0.accounts == engine.accounts,
        transition(engine, tx, reply).0.current_sender == engine.current_sender,
        transition(engine, tx, reply).0.rpc_url == engine.rpc_url,
        engine.tracks_every_sender() ==> transition(engine, tx, reply).0.tracks_every_sender(),
{
}

} // verus!
