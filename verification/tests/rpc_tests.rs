use solidity_fuzzer::error::{ErrorKind, FuzzError};
use solidity_fuzzer::abi::EncodeError;
use solidity_fuzzer::rpc::{
    balance_probe, format_quantity, interpret_reply, nonce_query, parse_quantity, CallRequest,
    JsonRpcError, RpcCall, RpcReply, RpcValue, TransactionReceipt, TransactionRequest,
};

const URL: &str = "https://rpc.example.org";

fn node_error(code: i32, message: &str) -> RpcReply {
    RpcReply::Error(JsonRpcError { code, message: message.to_string() })
}

#[test]
fn the_engine_makes_exactly_five_kinds_of_request() {
    assert_eq!(balance_probe("0xaa").method(), "eth_getBalance");
    assert_eq!(nonce_query("0xaa").method(), "eth_getTransactionCount");
    let tx = TransactionRequest {
        from: String::new(),
        to: None,
        data: String::new(),
        value: String::new(),
        nonce: String::new(),
        gas: String::new(),
    };
    assert_eq!(RpcCall::SendTransaction(tx).method(), "eth_sendTransaction");
    assert_eq!(RpcCall::GetTransactionReceipt { tx_hash: String::new() }.method(), "eth_getTransactionReceipt");
    let call = CallRequest { from: String::new(), to: None, data: String::new() };
    assert_eq!(RpcCall::Call { request: call, block: String::new() }.method(), "eth_call");
}

#[test]
fn probes_name_their_block() {
    assert_eq!(
        balance_probe("0xaa"),
        RpcCall::GetBalance { address: "0xaa".to_string(), block: "latest".to_string() }
    );
    assert_eq!(
        nonce_query("0xbb"),
        RpcCall::GetTransactionCount { address: "0xbb".to_string(), block: "pending".to_string() }
    );
}

#[test]
fn a_result_is_handed_on() {
    assert_eq!(
        interpret_reply("eth_getBalance", URL, RpcReply::Result(RpcValue::Text("0x1".to_string()))),
        Ok(RpcValue::Text("0x1".to_string()))
    );
    assert_eq!(interpret_reply("eth_call", URL, RpcReply::Result(RpcValue::Other)), Ok(RpcValue::Other));
    let receipt = TransactionReceipt { contract_address: None, status: None, gas_used: None };
    assert!(interpret_reply("x", URL, RpcReply::Result(RpcValue::Receipt(receipt))).is_ok());
}

#[test]
fn a_reply_without_result_is_a_failure() {
    for reply in [RpcReply::Missing, RpcReply::Result(RpcValue::Null)] {
        let e = interpret_reply("eth_getBalance", URL, reply).unwrap_err();
        assert_eq!(e.kind, ErrorKind::Transport);
        assert_eq!(e.code, None);
        assert_eq!(e.to_string(), "No result in RPC response");
    }
    let e = interpret_reply("eth_getBalance", URL, RpcReply::Transport("Failed to send RPC request".to_string())).unwrap_err();
    assert_eq!(e.kind, ErrorKind::Transport);
    assert_eq!(e.to_string(), "Failed to send RPC request");
}

#[test]
fn a_node_error_carries_code_and_message() {
    let e = interpret_reply("eth_call", URL, node_error(-32000, "execution reverted")).unwrap_err();
    assert_eq!(e.kind, ErrorKind::Rpc);
    assert_eq!(e.code, Some(-32000));
    assert_eq!(e.to_string(), "RPC error: execution reverted (code: -32000)");
    let e = interpret_reply("eth_call", URL, node_error(i32::MIN, "")).unwrap_err();
    assert_eq!(e.to_string(), "RPC error:  (code: -2147483648)");
    let e = interpret_reply("eth_call", URL, node_error(7, "x")).unwrap_err();
    assert_eq!(e.to_string(), "RPC error: x (code: 7)");
}

#[test]
fn an_unknown_method_is_annotated_only_for_submissions() {
    for method in ["eth_call", "eth_getBalance", "eth_getTransactionReceipt", "eth_getTransactionCount", "eth_sendtransaction", ""] {
        let e = interpret_reply(method, URL, node_error(-32601, "method not found")).unwrap_err();
        assert_eq!(e.kind, ErrorKind::Rpc, "{}", method);
        assert_eq!(e.to_string(), "RPC error: method not found (code: -32601)");
    }
    let e = interpret_reply("eth_sendTransaction", URL, node_error(-32601, "nope")).unwrap_err();
    assert_eq!(e.kind, ErrorKind::Setup);
    assert_eq!(e.code, Some(-32601));
    assert_eq!(
        e.to_string(),
        "RPC error: nope (code: -32601)\n\nThis RPC endpoint does not support eth_sendTransaction.\nPublic RPCs are read-only and cannot send transactions.\n\nSolution: Start Anvil locally with --fork-url pointing to your RPC:\n\t anvil --fork-url https://rpc.example.org\nThen connect to Anvil at http://localhost:8545"
    );
    let e = interpret_reply("eth_sendTransaction", URL, node_error(-32602, "invalid params")).unwrap_err();
    assert_eq!(e.kind, ErrorKind::Rpc);
}

#[test]
fn quantities_are_hexadecimal_without_leading_zeros() {
    assert_eq!(format_quantity(0), "0x0");
    assert_eq!(format_quantity(1), "0x1");
    assert_eq!(format_quantity(255), "0xff");
    assert_eq!(format_quantity(0x1000000), "0x1000000");
    assert_eq!(format_quantity(u64::MAX), "0xffffffffffffffff");
    for n in [0u64, 9, 10, 4096, 123456789, u64::MAX] {
        assert_eq!(parse_quantity(&format_quantity(n)), Some(n));
    }
}

#[test]
fn quantities_are_read_with_or_without_prefix() {
    assert_eq!(parse_quantity("0x5208"), Some(21000));
    assert_eq!(parse_quantity("5208"), Some(21000));
    assert_eq!(parse_quantity("0XFF"), None);
    assert_eq!(parse_quantity("0xFF"), Some(255));
    assert_eq!(parse_quantity("0x"), None);
    assert_eq!(parse_quantity(""), None);
    assert_eq!(parse_quantity("0x+1"), Some(1));
    assert_eq!(parse_quantity("0x0x1"), None);
    assert_eq!(parse_quantity("0x1g"), None);
    assert_eq!(parse_quantity("0x10000000000000000"), None);
}

#[test]
fn encoding_failures_have_their_messages() {
    let e = FuzzError::encoding(EncodeError::UnsupportedType);
    assert_eq!(e.kind, ErrorKind::Encoding);
    assert_eq!(e.to_string(), "Unsupported type for ABI encoding");
    assert_eq!(FuzzError::encoding(EncodeError::InvalidAddressLength).to_string(), "Invalid address length");
    assert_eq!(FuzzError::encoding(EncodeError::InvalidAddress).to_string(), "Invalid address: not hexadecimal");
    assert_eq!(FuzzError::encoding(EncodeError::InvalidInteger).to_string(), "Invalid 256-bit integer");
    let e = FuzzError::new(ErrorKind::Deployment, "boom".to_string());
    assert_eq!(e.clone(), e);
    assert_eq!(e.code, None);
}
