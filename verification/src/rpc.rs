//! The JSON-RPC surface of the node, as plain values: the calls that the
//! engine makes, the replies that come back, and how a reply is read.
//!
//! Nothing here touches the network. The caller sends each [`RpcCall`] in
//! the envelope `{jsonrpc: "2.0", id, method, params}` and hands back what
//! the node answered as an [`RpcReply`].

use vstd::prelude::*;
use crate::error::{failure, ErrorKind, FuzzError, FuzzErrorModel};
use crate::numerals::{
    hexadecimal, parse_unsigned, read_unsigned, signed_decimal, write_hexadecimal,
    write_signed_decimal,
};
use crate::text::{
    append_chars, append_str, chars_of, contains, contains_str, eq_str, slice_of, starts_with,
    starts_with_str, string_of,
};

verus! {

/// The error object of a JSON-RPC response.
#[derive(Debug, PartialEq)]
pub struct JsonRpcError {
    pub code: i32,
    pub message: String,
}

/// The fields of a transaction receipt that the engine reads.
#[derive(Debug, PartialEq)]
pub struct TransactionReceipt {
    pub contract_address: Option<String>,
    pub status: Option<String>,
    pub gas_used: Option<String>,
}

/// The `result` field of a JSON-RPC response, as far as the engine reads it.
#[derive(Debug, PartialEq)]
pub enum RpcValue {
    /// JSON `null`.
    Null,
    /// A JSON string.
    Text(String),
    /// A JSON object, read as a receipt.
    Receipt(TransactionReceipt),
    /// Any other JSON value.
    Other,
}

/// What came back for a request.
#[derive(Debug, PartialEq)]
pub enum RpcReply {
    /// A response with a `result` field.
    Result(RpcValue),
    /// A response with an `error` object.
    Error(JsonRpcError),
    /// A response with neither.
    Missing,
    /// No response that could be read; the text says why.
    Transport(String),
}

/// The transaction object of `eth_sendTransaction`. All quantities are
/// hexadecimal with a `0x` prefix.
#[derive(Debug, PartialEq)]
pub struct TransactionRequest {
    pub from: String,
    pub to: Option<String>,
    pub data: String,
    pub value: String,
    pub nonce: String,
    pub gas: String,
}

/// The transaction object of `eth_call`.
#[derive(Debug, PartialEq)]
pub struct CallRequest {
    pub from: String,
    pub to: Option<String>,
    pub data: String,
}

/// A request to the node. These five are all that the engine makes.
#[derive(Debug, PartialEq)]
pub enum RpcCall {
    GetBalance { address: String, block: String },
    GetTransactionCount { address: String, block: String },
    SendTransaction(TransactionRequest),
    GetTransactionReceipt { tx_hash: String },
    Call { request: CallRequest, block: String },
}

impl RpcCall {
    /// The JSON-RPC method name of the request.
    pub open spec fn method_name(self) -> Seq<char> {
        match self {
            RpcCall::GetBalance { .. } => "eth_getBalance"@,
            RpcCall::GetTransactionCount { .. } => "eth_getTransactionCount"@,
            RpcCall::SendTransaction(_) => "eth_sendTransaction"@,
            RpcCall::GetTransactionReceipt { .. } => "eth_getTransactionReceipt"@,
            RpcCall::Call { .. } => "eth_call"@,
        }
    }

    /// The JSON-RPC method name of the request.
    pub fn method(&self) -> (r: &'static str)
        ensures
            r@ == self.method_name(),
    {
        match self {
            RpcCall::GetBalance { .. } => "eth_getBalance",
            RpcCall::GetTransactionCount { .. } => "eth_getTransactionCount",
            RpcCall::SendTransaction(_) => "eth_sendTransaction",
            RpcCall::GetTransactionReceipt { .. } => "eth_getTransactionReceipt",
            RpcCall::Call { .. } => "eth_call",
        }
    }
}

/// The text before the endpoint in the advice given when a node refuses to
/// send transactions.
pub open spec fn advice_before_url() -> Seq<char> {
    "\n\nThis RPC endpoint does not support eth_sendTransaction.\nPublic RPCs are read-only and cannot send transactions.\n\nSolution: Start Anvil locally with --fork-url pointing to your RPC:\n\t anvil --fork-url "@
}

/// The text after the endpoint in that advice.
pub open spec fn advice_after_url() -> Seq<char> {
    "\nThen connect to Anvil at http://localhost:8545"@
}

/// The message for an error that the node reported.
pub open spec fn rpc_error_text(code: i32, message: Seq<char>) -> Seq<char> {
    "RPC error: "@ + message + " (code: "@ + signed_decimal(code as int) + ")"@
}

/// The node says that it does not know the method: the code `-32601`, or a
/// message that says so.
pub open spec fn is_method_refused(code: i32, message: Seq<char>) -> bool {
    code == -32601 || contains(message, "not supported"@) || contains(
        message,
        "method not found"@,
    )
}

/// The failure that a reply to a request of the method `method`, sent to
/// `url`, stands for; `None` where the reply carries a result that is not
/// null.
pub open spec fn reply_failure(method: Seq<char>, url: Seq<char>, reply: RpcReply) -> Option<
    FuzzErrorModel,
> {
    match reply {
        RpcReply::Result(RpcValue::Null) => Some(
            failure(ErrorKind::Transport, "No result in RPC response"@),
        ),
        RpcReply::Result(_) => None,
        RpcReply::Missing => Some(failure(ErrorKind::Transport, "No result in RPC response"@)),
        RpcReply::Transport(reason) => Some(failure(ErrorKind::Transport, reason@)),
        RpcReply::Error(e) => if is_method_refused(e.code, e.message@) && method
            == "eth_sendTransaction"@ {
            Some(
                FuzzErrorModel {
                    kind: ErrorKind::Setup,
                    code: Some(e.code),
                    message: rpc_error_text(e.code, e.message@) + advice_before_url() + url
                        + advice_after_url(),
                },
            )
        } else {
            Some(node_failure_of(e))
        },
    }
}

fn write_rpc_error(code: i32, message: &str) -> (r: Vec<char>)
    ensures
        r@ == rpc_error_text(code, message@),
{
    let mut out = chars_of("RPC error: ");
    append_str(&mut out, message);
    append_str(&mut out, " (code: ");
    append_chars(&mut out, &write_signed_decimal(code as i128));
    append_str(&mut out, ")");
    out
}

/// The failure that an error reported by the node stands for.
pub open spec fn node_failure_of(e: JsonRpcError) -> FuzzErrorModel {
    FuzzErrorModel {
        kind: ErrorKind::Rpc,
        code: Some(e.code),
        message: rpc_error_text(e.code, e.message@),
    }
}

/// Turns an error reported by the node into a failure.
pub fn node_failure(e: JsonRpcError) -> (r: FuzzError)
    ensures
        r@ == node_failure_of(e),
{
    let text = write_rpc_error(e.code, e.message.as_str());
    FuzzError { kind: ErrorKind::Rpc, code: Some(e.code), message: string_of(&text) }
}

/// Reads a reply to a request of the method `method` that was sent to `url`:
/// the result where there is one that is not null, and else the failure.
///
/// An error from a node that does not know `eth_sendTransaction` is a setup
/// failure whose message tells the user to start a local fork.
pub fn interpret_reply(method: &str, url: &str, reply: RpcReply) -> (r: Result<RpcValue, FuzzError>)
    ensures
        match r {
            Ok(value) => reply == RpcReply::Result(value) && !(value is Null),
            Err(e) => reply_failure(method@, url@, reply) == Some(e@),
        },
{
    match reply {
        RpcReply::Result(RpcValue::Null) => Err(
            FuzzError::new(ErrorKind::Transport, String::from_str("No result in RPC response")),
        ),
        RpcReply::Result(value) => Ok(value),
        RpcReply::Missing => Err(
            FuzzError::new(ErrorKind::Transport, String::from_str("No result in RPC response")),
        ),
        RpcReply::Transport(reason) => Err(FuzzError::new(ErrorKind::Transport, reason)),
        RpcReply::Error(e) => {
            let message = chars_of(e.message.as_str());
            let refused = e.code == -32601 || contains_str(&message, "not supported")
                || contains_str(&message, "method not found");
            let mut text = write_rpc_error(e.code, e.message.as_str());
            if refused && eq_str(&chars_of(method), "eth_sendTransaction") {
                append_str(
                    &mut text,
                    "\n\nThis RPC endpoint does not support eth_sendTransaction.\nPublic RPCs are read-only and cannot send transactions.\n\nSolution: Start Anvil locally with --fork-url pointing to your RPC:\n\t anvil --fork-url ",
                );
                append_str(&mut text, url);
                append_str(&mut text, "\nThen connect to Anvil at http://localhost:8545");
                Err(
                    FuzzError {
                        kind: ErrorKind::Setup,
                        code: Some(e.code),
                        message: string_of(&text),
                    },
                )
            } else {
                Err(
                    FuzzError { kind: ErrorKind::Rpc, code: Some(e.code), message: string_of(&text) },
                )
            }
        },
    }
}

/// The digits of a quantity: the text without a leading `0x`.
pub open spec fn quantity_digits(text: Seq<char>) -> Seq<char> {
    if starts_with(text, "0x"@) {
        text.skip(2)
    } else {
        text
    }
}

/// The number that a hexadecimal quantity of at most 64 bits stands for.
pub open spec fn quantity_of(text: Seq<char>) -> Option<nat> {
    parse_unsigned(quantity_digits(text), 16, u64::MAX as nat)
}

/// Reads a hexadecimal quantity, with or without the `0x` prefix.
pub fn parse_quantity(text: &str) -> (r: Option<u64>)
    ensures
        match r {
            Some(n) => quantity_of(text@) == Some(n as nat),
            None => quantity_of(text@) is None,
        },
{
    let chars = chars_of(text);
    proof {
        reveal_strlit("0x");
    }
    let digits = if starts_with_str(&chars, "0x") {
        slice_of(&chars, 2, chars.len())
    } else {
        chars
    };
    match read_unsigned(&digits, 16, 0xffff_ffff_ffff_ffff) {
        Some(n) => Some(n as u64),
        None => None,
    }
}

/// The hexadecimal quantity of `n`: `0x`, then the digits without leading
/// zeros.
pub open spec fn quantity_text(n: nat) -> Seq<char> {
    "0x"@ + hexadecimal(n)
}

/// Writes `n` as a hexadecimal quantity.
pub fn format_quantity(n: u64) -> (r: String)
    ensures
        r@ == quantity_text(n as nat),
{
    let mut out = chars_of("0x");
    append_chars(&mut out, &write_hexadecimal(n as u128));
    string_of(&out)
}

/// The status of a receipt as text; a receipt without one counts as `0x0`.
pub open spec fn status_text(status: Option<String>) -> Seq<char> {
    match status {
        Some(s) => s@,
        None => "0x0"@,
    }
}

/// The status means success: `0x1` or `1`.
pub open spec fn is_success(status: Option<String>) -> bool {
    status_text(status) == "0x1"@ || status_text(status) == "1"@
}

/// The gas that a receipt reports, and zero where it reports none that can
/// be read.
pub open spec fn gas_of(gas_used: Option<String>) -> nat {
    match gas_used {
        Some(g) => match quantity_of(g@) {
            Some(n) => n,
            None => 0,
        },
        None => 0,
    }
}

impl TransactionReceipt {
    /// The status as text.
    pub fn status_string(&self) -> (r: String)
        ensures
            r@ == status_text(self.status),
    {
        match &self.status {
            Some(s) => s.clone(),
            None => String::from_str("0x0"),
        }
    }

    /// The transaction succeeded.
    pub fn succeeded(&self) -> (r: bool)
        ensures
            r == is_success(self.status),
    {
        let status = chars_of(self.status_string().as_str());
        eq_str(&status, "0x1") || eq_str(&status, "1")
    }

    /// The gas used.
    pub fn gas(&self) -> (r: u64)
        ensures
            r == gas_of(self.gas_used),
    {
        match &self.gas_used {
            Some(g) => match parse_quantity(g.as_str()) {
                Some(n) => n,
                None => 0,
            },
            None => 0,
        }
    }
}

/// The text of an optional string.
pub open spec fn optional_text(text: Option<String>) -> Option<Seq<char>> {
    match text {
        Some(t) => Some(t@),
        None => None,
    }
}

/// The mathematical view of a [`TransactionRequest`].
pub struct TransactionRequestModel {
    pub from: Seq<char>,
    pub to: Option<Seq<char>>,
    pub data: Seq<char>,
    pub value: Seq<char>,
    pub nonce: Seq<char>,
    pub gas: Seq<char>,
}

impl View for TransactionRequest {
    type V = TransactionRequestModel;

    open spec fn view(&self) -> TransactionRequestModel {
        TransactionRequestModel {
            from: self.from@,
            to: optional_text(self.to),
            data: self.data@,
            value: self.value@,
            nonce: self.nonce@,
            gas: self.gas@,
        }
    }
}

/// The mathematical view of a [`CallRequest`].
pub struct CallRequestModel {
    pub from: Seq<char>,
    pub to: Option<Seq<char>>,
    pub data: Seq<char>,
}

impl View for CallRequest {
    type V = CallRequestModel;

    open spec fn view(&self) -> CallRequestModel {
        CallRequestModel { from: self.from@, to: optional_text(self.to), data: self.data@ }
    }
}

/// The mathematical view of an [`RpcCall`].
pub enum RpcCallModel {
    GetBalance { address: Seq<char>, block: Seq<char> },
    GetTransactionCount { address: Seq<char>, block: Seq<char> },
    SendTransaction(TransactionRequestModel),
    GetTransactionReceipt { tx_hash: Seq<char> },
    Call { request: CallRequestModel, block: Seq<char> },
}

impl View for RpcCall {
    type V = RpcCallModel;

    open spec fn view(&self) -> RpcCallModel {
        match self {
            RpcCall::GetBalance { address, block } => RpcCallModel::GetBalance {
                address: address@,
                block: block@,
            },
            RpcCall::GetTransactionCount { address, block } => RpcCallModel::GetTransactionCount {
                address: address@,
                block: block@,
            },
            RpcCall::SendTransaction(request) => RpcCallModel::SendTransaction(request@),
            RpcCall::GetTransactionReceipt { tx_hash } => RpcCallModel::GetTransactionReceipt {
                tx_hash: tx_hash@,
            },
            RpcCall::Call { request, block } => RpcCallModel::Call {
                request: request@,
                block: block@,
            },
        }
    }
}

/// The probe of an account: `eth_getBalance` at the latest block.
pub fn balance_probe(address: &str) -> (r: RpcCall)
    ensures
        r@ == (RpcCallModel::GetBalance { address: address@, block: "latest"@ }),
{
    RpcCall::GetBalance { address: String::from_str(address), block: String::from_str("latest") }
}

/// The query for the nonce of an account: `eth_getTransactionCount` at the
/// pending block.
pub fn nonce_query(address: &str) -> (r: RpcCall)
    ensures
        r@ == (RpcCallModel::GetTransactionCount { address: address@, block: "pending"@ }),
{
    RpcCall::GetTransactionCount {
        address: String::from_str(address),
        block: String::from_str("pending"),
    }
}

} // verus!
