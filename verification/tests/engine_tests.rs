use solidity_fuzzer::abi::{calculate_selector, encode_abi_args};
use solidity_fuzzer::anvil_executor::{
    candidate_accounts, format_transaction_data, get_anvil_accounts, get_revert_reason,
    get_transaction_count, normalize_reason, wait_for_transaction, AnvilForkExecutor, EngineStep,
    MethodExecutionResult, PendingTransaction, TransactionPhase, TransactionPurpose, WatchOutcome,
    MAX_RECEIPT_POLLS, POLL_INTERVAL_MS,
};
use solidity_fuzzer::error::ErrorKind;
use solidity_fuzzer::rpc::{
    JsonRpcError, RpcCall, RpcReply, RpcValue, TransactionReceipt, TransactionRequest,
};
use solidity_fuzzer::types::SolidityValue;

const URL: &str = "http://localhost:8545";
const A0: &str = "0xf39Fd6e51aad88F6F4ce6aB8827279cffFb92266";
const A1: &str = "0x70997970C51812dc3A010C7d01b50e0d17dc79C8";
const A2: &str = "0x3C44CdDdB6a900fa2b585dd299e03d12FA4293BC";

fn text(s: &str) -> RpcReply {
    RpcReply::Result(RpcValue::Text(s.to_string()))
}

fn receipt(status: Option<&str>, address: Option<&str>, gas: Option<&str>) -> RpcReply {
    RpcReply::Result(RpcValue::Receipt(TransactionReceipt {
        contract_address: address.map(|s| s.to_string()),
        status: status.map(|s| s.to_string()),
        gas_used: gas.map(|s| s.to_string()),
    }))
}

fn node_error(code: i32, message: &str) -> RpcReply {
    RpcReply::Error(JsonRpcError { code, message: message.to_string() })
}

fn engine_with_three_accounts() -> AnvilForkExecutor {
    AnvilForkExecutor::new(
        URL,
        vec![A0.to_string(), A1.to_string(), A2.to_string()],
        &vec![text("0x0"), text("0x0"), text("0x0")],
    )
    .unwrap()
}

fn proceed(step: EngineStep) -> (PendingTransaction, RpcCall, u64) {
    match step {
        EngineStep::Continue { transaction, request, delay_ms } => (transaction, request, delay_ms),
        other => panic!("the transaction ended: {:?}", other),
    }
}

fn sent(request: RpcCall) -> TransactionRequest {
    match request {
        RpcCall::SendTransaction(tx) => tx,
        other => panic!("not a submission: {:?}", other),
    }
}

fn deploy(engine: &mut AnvilForkExecutor, name: &str, address: &str) {
    let (tx, _, _) = proceed(engine.deploy_contract(name, &vec![0x60, 0x80], None));
    let (tx, _, _) = proceed(engine.resume(tx, text("0xhash")));
    match engine.resume(tx, receipt(Some("0x1"), Some(address), Some("0x5208"))) {
        EngineStep::Deployed(a) => assert_eq!(a, address),
        other => panic!("{:?}", other),
    }
}

#[test]
fn candidates_are_the_five_test_chain_accounts() {
    assert_eq!(
        candidate_accounts(),
        vec![
            "0xf39Fd6e51aad88F6F4ce6aB8827279cffFb92266",
            "0x70997970C51812dc3A010C7d01b50e0d17dc79C8",
            "0x3C44CdDdB6a900fa2b585dd299e03d12FA4293BC",
            "0x90F79bf6EB2c4f870365E785982E1f101E93b906",
            "0x15d34AAf54267DB7D7c367839AAf71A00a2C6A65",
        ]
    );
}

#[test]
fn accounts_that_respond_are_kept() {
    let replies = vec![
        text("0x21e19e0c9bab2400000"),
        node_error(-32000, "unknown account"),
        text("0x0"),
        RpcReply::Transport("connection refused".to_string()),
        RpcReply::Result(RpcValue::Null),
    ];
    assert_eq!(get_anvil_accounts(&replies), vec![A0.to_string(), A2.to_string()]);
}

#[test]
fn the_first_account_is_kept_when_none_responds() {
    let replies = vec![
        RpcReply::Missing,
        node_error(1, "no"),
        RpcReply::Transport("down".to_string()),
        RpcReply::Result(RpcValue::Null),
        RpcReply::Missing,
    ];
    assert_eq!(get_anvil_accounts(&replies), vec![A0.to_string()]);
    assert_eq!(get_anvil_accounts(&vec![]), vec![A0.to_string()]);
}

#[test]
fn missing_probe_replies_count_as_no_response() {
    let replies = vec![RpcReply::Missing, text("0x1")];
    assert_eq!(get_anvil_accounts(&replies), vec![A1.to_string()]);
}

#[test]
fn nonces_are_read_from_the_pending_count() {
    assert_eq!(get_transaction_count(&text("0x0")), 0);
    assert_eq!(get_transaction_count(&text("0x2a")), 42);
    assert_eq!(get_transaction_count(&text("ff")), 255);
    assert_eq!(get_transaction_count(&text("0xffffffffffffffff")), u64::MAX);
    assert_eq!(get_transaction_count(&text("0x10000000000000000")), 0);
    assert_eq!(get_transaction_count(&text("0xzz")), 0);
    assert_eq!(get_transaction_count(&text("")), 0);
    assert_eq!(get_transaction_count(&RpcReply::Missing), 0);
    assert_eq!(get_transaction_count(&node_error(1, "x")), 0);
    assert_eq!(get_transaction_count(&RpcReply::Result(RpcValue::Null)), 0);
    assert_eq!(get_transaction_count(&RpcReply::Result(RpcValue::Other)), 0);
}

#[test]
fn an_engine_needs_an_account() {
    let e = AnvilForkExecutor::new(URL, vec![], &vec![]).err().unwrap();
    assert_eq!(e.kind, ErrorKind::Setup);
    assert_eq!(e.to_string(), "No accounts found from Anvil");
}

#[test]
fn a_new_engine_starts_with_the_first_account() {
    let engine = AnvilForkExecutor::new(
        URL,
        vec![A0.to_string(), A1.to_string(), A2.to_string()],
        &vec![text("0x5"), node_error(1, "bad")],
    )
    .unwrap();
    assert_eq!(engine.rpc_url(), URL);
    assert_eq!(engine.current_sender(), A0);
    assert_eq!(engine.current_sender_index(), 0);
    assert_eq!(engine.accounts(), &vec![A0.to_string(), A1.to_string(), A2.to_string()]);
    assert_eq!(engine.nonce_of(0), Some(5));
    assert_eq!(engine.nonce_of(1), Some(0));
    assert_eq!(engine.nonce_of(2), Some(0));
    assert_eq!(engine.nonce_of(3), None);
    assert_eq!(engine.deployed_address("Token"), None);
}

#[test]
fn an_index_out_of_range_leaves_the_sender() {
    let mut engine = engine_with_three_accounts();
    engine.set_sender(2);
    assert_eq!(engine.current_sender(), A2);
    engine.set_sender(3);
    assert_eq!(engine.current_sender(), A2);
    engine.set_sender(usize::MAX);
    assert_eq!(engine.current_sender(), A2);
    engine.set_sender(0);
    assert_eq!(engine.current_sender(), A0);
}

#[test]
fn a_deployment_submits_the_bytecode_and_the_arguments() {
    let mut engine = AnvilForkExecutor::new(URL, vec![A0.to_string(), A1.to_string()], &vec![text("0x0"), text("0x1f")]).unwrap();
    engine.set_sender(1);
    let (tx, request, delay) = proceed(engine.deploy_contract("Token", &vec![0x60, 0x80, 0xff], Some(&vec![0x00, 0x2a])));
    assert_eq!(delay, 0);
    let request = sent(request);
    assert_eq!(request.from, A1);
    assert_eq!(request.to, None);
    assert_eq!(request.data, "0x6080ff002a");
    assert_eq!(request.value, "0x0");
    assert_eq!(request.nonce, "0x1f");
    assert_eq!(request.gas, "0x1000000");
    assert_eq!(tx.sender, 1);
    assert_eq!(tx.data, "0x6080ff002a");
    assert_eq!(tx.phase, TransactionPhase::Submitting);
    assert_eq!(tx.purpose, TransactionPurpose::Deployment { contract_name: "Token".to_string() });
    let (_, request, _) = proceed(engine.deploy_contract("Token", &vec![0x01], None));
    assert_eq!(sent(request).data, "0x01");
}

#[test]
fn a_successful_deployment_is_recorded_and_counted() {
    let mut engine = engine_with_three_accounts();
    let (tx, _, _) = proceed(engine.deploy_contract("Token", &vec![0x60, 0x80], None));
    let (tx, request, delay) = proceed(engine.resume(tx, text("0xabc123")));
    assert_eq!(request, RpcCall::GetTransactionReceipt { tx_hash: "0xabc123".to_string() });
    assert_eq!(delay, 0);
    assert_eq!(engine.nonce_of(0), Some(0));
    let step = engine.resume(
        tx,
        receipt(Some("0x1"), Some("0x5fbdb2315678afecb367f032d93f642f64180aa3"), Some("0x5208")),
    );
    assert_eq!(step, EngineStep::Deployed("0x5fbdb2315678afecb367f032d93f642f64180aa3".to_string()));
    assert_eq!(
        engine.deployed_address("Token"),
        Some("0x5fbdb2315678afecb367f032d93f642f64180aa3".to_string())
    );
    assert_eq!(engine.nonce_of(0), Some(1));
    assert_eq!(engine.nonce_of(1), Some(0));
    assert_eq!(engine.nonce_of(2), Some(0));
}

#[test]
fn status_one_without_prefix_is_success() {
    let mut engine = engine_with_three_accounts();
    let (tx, _, _) = proceed(engine.deploy_contract("T", &vec![1], None));
    let (tx, _, _) = proceed(engine.resume(tx, text("0x1")));
    assert_eq!(engine.resume(tx, receipt(Some("1"), Some("0xaa"), None)), EngineStep::Deployed("0xaa".to_string()));
}

#[test]
fn a_later_deployment_replaces_the_address() {
    let mut engine = engine_with_three_accounts();
    deploy(&mut engine, "Token", "0x01");
    deploy(&mut engine, "Other", "0x02");
    deploy(&mut engine, "Token", "0x03");
    assert_eq!(engine.deployed_address("Token"), Some("0x03".to_string()));
    assert_eq!(engine.deployed_address("Other"), Some("0x02".to_string()));
    assert_eq!(engine.deployed_address("token"), None);
    assert_eq!(engine.nonce_of(0), Some(3));
}

#[test]
fn a_node_that_refuses_transactions_is_a_setup_failure() {
    let mut engine = engine_with_three_accounts();
    let (tx, _, _) = proceed(engine.deploy_contract("Token", &vec![0x60], None));
    match engine.resume(tx, node_error(-32601, "the method eth_sendTransaction does not exist")) {
        EngineStep::Failed(e) => {
            assert_eq!(e.kind, ErrorKind::Setup);
            assert_eq!(e.code, Some(-32601));
            let message = e.to_string();
            assert!(message.starts_with("RPC error: the method eth_sendTransaction does not exist (code: -32601)"));
            assert!(message.contains("anvil --fork-url http://localhost:8545"));
            assert!(message.contains("Start Anvil locally"));
            assert!(message.contains("read-only"));
        }
        other => panic!("{:?}", other),
    }
    assert_eq!(engine.nonce_of(0), Some(0));
    assert_eq!(engine.deployed_address("Token"), None);
}

#[test]
fn a_refusal_by_message_is_a_setup_failure_too() {
    let mut engine = engine_with_three_accounts();
    for message in ["method not found", "this call is not supported here"] {
        let (tx, _, _) = proceed(engine.deploy_contract("Token", &vec![0x60], None));
        match engine.resume(tx, node_error(-32000, message)) {
            EngineStep::Failed(e) => assert_eq!(e.kind, ErrorKind::Setup),
            other => panic!("{:?}", other),
        }
    }
}

#[test]
fn another_node_error_on_submission_is_an_rpc_failure() {
    let mut engine = engine_with_three_accounts();
    let (tx, _, _) = proceed(engine.deploy_contract("Token", &vec![0x60], None));
    match engine.resume(tx, node_error(-32000, "nonce too low")) {
        EngineStep::Failed(e) => {
            assert_eq!(e.kind, ErrorKind::Rpc);
            assert_eq!(e.code, Some(-32000));
            assert_eq!(e.to_string(), "RPC error: nonce too low (code: -32000)");
        }
        other => panic!("{:?}", other),
    }
}

#[test]
fn a_submission_without_a_hash_fails() {
    let mut engine = engine_with_three_accounts();
    for reply in [RpcReply::Result(RpcValue::Other), receipt(None, None, None)] {
        let (tx, _, _) = proceed(engine.deploy_contract("Token", &vec![0x60], None));
        match engine.resume(tx, reply) {
            EngineStep::Failed(e) => {
                assert_eq!(e.kind, ErrorKind::Transport);
                assert_eq!(e.to_string(), "Invalid transaction hash");
            }
            other => panic!("{:?}", other),
        }
    }
    for reply in [RpcReply::Result(RpcValue::Null), RpcReply::Missing] {
        let (tx, _, _) = proceed(engine.deploy_contract("Token", &vec![0x60], None));
        match engine.resume(tx, reply) {
            EngineStep::Failed(e) => assert_eq!(e.to_string(), "No result in RPC response"),
            other => panic!("{:?}", other),
        }
    }
}

#[test]
fn a_transaction_that_is_never_mined_is_given_up_after_a_hundred_polls() {
    let mut engine = engine_with_three_accounts();
    let (tx, _, _) = proceed(engine.deploy_contract("Token", &vec![0x60], None));
    let (mut tx, _, _) = proceed(engine.resume(tx, text("0xhash")));
    let mut polls = 1;
    loop {
        match engine.resume(tx, RpcReply::Result(RpcValue::Null)) {
            EngineStep::Continue { transaction, request, delay_ms } => {
                assert_eq!(request, RpcCall::GetTransactionReceipt { tx_hash: "0xhash".to_string() });
                assert_eq!(delay_ms, 100);
                tx = transaction;
                polls += 1;
            }
            EngineStep::Failed(e) => {
                assert_eq!(e.kind, ErrorKind::Deployment);
                assert_eq!(e.to_string(), "Transaction not mined after 100 attempts");
                break;
            }
            other => panic!("{:?}", other),
        }
    }
    assert_eq!(polls, 100);
    assert_eq!(engine.nonce_of(0), Some(0));
    assert_eq!(engine.deployed_address("Token"), None);
}

#[test]
fn polling_limits_are_a_hundred_polls_a_tenth_of_a_second_apart() {
    assert_eq!(MAX_RECEIPT_POLLS, 100);
    assert_eq!(POLL_INTERVAL_MS, 100);
    assert_eq!(wait_for_transaction(0, RpcReply::Result(RpcValue::Null)), WatchOutcome::Again);
    assert_eq!(wait_for_transaction(98, RpcReply::Missing), WatchOutcome::Again);
    assert!(matches!(wait_for_transaction(99, RpcReply::Missing), WatchOutcome::Failed(_)));
    assert!(matches!(wait_for_transaction(u32::MAX, RpcReply::Missing), WatchOutcome::Failed(_)));
}

#[test]
fn a_receipt_ends_the_wait_at_any_time() {
    let r = TransactionReceipt { contract_address: None, status: None, gas_used: None };
    match wait_for_transaction(99, RpcReply::Result(RpcValue::Receipt(r))) {
        WatchOutcome::Mined(receipt) => assert_eq!(receipt.status, None),
        other => panic!("{:?}", other),
    }
}

#[test]
fn a_poll_that_fails_ends_the_wait() {
    match wait_for_transaction(3, node_error(-32601, "method not found")) {
        WatchOutcome::Failed(e) => {
            assert_eq!(e.kind, ErrorKind::Rpc);
            assert_eq!(e.to_string(), "RPC error: method not found (code: -32601)");
        }
        other => panic!("{:?}", other),
    }
    match wait_for_transaction(3, RpcReply::Transport("Failed to send RPC request".to_string())) {
        WatchOutcome::Failed(e) => {
            assert_eq!(e.kind, ErrorKind::Transport);
            assert_eq!(e.to_string(), "Failed to send RPC request");
        }
        other => panic!("{:?}", other),
    }
    for value in [RpcValue::Text("0x1".to_string()), RpcValue::Other] {
        match wait_for_transaction(3, RpcReply::Result(value)) {
            WatchOutcome::Failed(e) => assert_eq!(e.to_string(), "Failed to parse transaction receipt"),
            other => panic!("{:?}", other),
        }
    }
}

#[test]
fn a_reverted_deployment_is_diagnosed_and_counted() {
    let mut engine = engine_with_three_accounts();
    engine.set_sender(1);
    let (tx, _, _) = proceed(engine.deploy_contract("Token", &vec![0x60, 0x80], None));
    let (tx, _, _) = proceed(engine.resume(tx, text("0xhash")));
    let (tx, request, delay) = proceed(engine.resume(tx, receipt(Some("0x0"), None, Some("0x1"))));
    assert_eq!(delay, 0);
    match request {
        RpcCall::Call { request, block } => {
            assert_eq!(block, "latest");
            assert_eq!(request.from, A1);
            assert_eq!(request.to, None);
            assert_eq!(request.data, "0x6080");
        }
        other => panic!("{:?}", other),
    }
    match engine.resume(tx, node_error(3, "execution reverted: supply is zero")) {
        EngineStep::Failed(e) => {
            assert_eq!(e.kind, ErrorKind::Deployment);
            assert_eq!(
                e.to_string(),
                "Contract deployment failed: Transaction reverted (status: 0x0)\nRevert reason: supply is zero"
            );
        }
        other => panic!("{:?}", other),
    }
    assert_eq!(engine.nonce_of(1), Some(1));
    assert_eq!(engine.nonce_of(0), Some(0));
    assert_eq!(engine.deployed_address("Token"), None);
}

#[test]
fn a_receipt_without_status_counts_as_reverted() {
    let mut engine = engine_with_three_accounts();
    let (tx, _, _) = proceed(engine.deploy_contract("Token", &vec![0x60], None));
    let (tx, _, _) = proceed(engine.resume(tx, text("0xhash")));
    let (tx, _, _) = proceed(engine.resume(tx, receipt(None, Some("0xaa"), None)));
    assert_eq!(tx.phase, TransactionPhase::DiagnosingDeployment { status: "0x0".to_string() });
    match engine.resume(tx, text("0x")) {
        EngineStep::Failed(e) => assert_eq!(
            e.to_string(),
            "Contract deployment failed: Transaction reverted (status: 0x0)\nRevert reason: Unknown revert reason"
        ),
        other => panic!("{:?}", other),
    }
    assert_eq!(engine.nonce_of(0), Some(1));
}

#[test]
fn a_successful_deployment_without_an_address_fails() {
    let mut engine = engine_with_three_accounts();
    let (tx, _, _) = proceed(engine.deploy_contract("Token", &vec![0x60], None));
    let (tx, _, _) = proceed(engine.resume(tx, text("0xhash")));
    match engine.resume(tx, receipt(Some("0x1"), None, None)) {
        EngineStep::Failed(e) => {
            assert_eq!(e.kind, ErrorKind::Deployment);
            assert_eq!(e.to_string(), "No contract address in receipt - deployment may have failed");
        }
        other => panic!("{:?}", other),
    }
    assert_eq!(engine.nonce_of(0), Some(1));
    assert_eq!(engine.deployed_address("Token"), None);
}

#[test]
fn a_call_of_an_unknown_contract_fails_at_once() {
    let engine = engine_with_three_accounts();
    match engine.call_method("Ghost", "f()", &vec![]) {
        EngineStep::Failed(e) => {
            assert_eq!(e.kind, ErrorKind::Deployment);
            assert_eq!(e.to_string(), "Contract Ghost not deployed");
        }
        other => panic!("{:?}", other),
    }
}

#[test]
fn a_call_submits_the_selector_and_the_arguments() {
    let mut engine = engine_with_three_accounts();
    deploy(&mut engine, "Token", "0x5fbdb2315678afecb367f032d93f642f64180aa3");
    engine.set_sender(2);
    let args = encode_abi_args(&vec![
        SolidityValue::Address("0x0000000000000000000000000000000000001234".to_string()),
        SolidityValue::Uint256("1000".to_string()),
    ])
    .unwrap();
    let (tx, request, delay) = proceed(engine.call_method("Token", "transfer(address,uint256)", &args));
    assert_eq!(delay, 0);
    let request = sent(request);
    assert_eq!(request.from, A2);
    assert_eq!(request.to, Some("0x5fbdb2315678afecb367f032d93f642f64180aa3".to_string()));
    assert_eq!(
        request.data,
        "0xa9059cbb000000000000000000000000000000000000000000000000000000000000123400000000000000000000000000000000000000000000000000000000000003e8"
    );
    assert_eq!(request.value, "0x0");
    assert_eq!(request.nonce, "0x0");
    assert_eq!(request.gas, "0x1000000");
    assert_eq!(tx.sender, 2);
    assert_eq!(
        tx.purpose,
        TransactionPurpose::Call {
            contract_address: "0x5fbdb2315678afecb367f032d93f642f64180aa3".to_string()
        }
    );
    assert_eq!(&request.data[2..10], hex::encode(calculate_selector("transfer(address,uint256)")));
}

#[test]
fn a_call_that_succeeds_passes_and_is_counted() {
    let mut engine = engine_with_three_accounts();
    deploy(&mut engine, "Token", "0xc0");
    engine.set_sender(1);
    let (tx, _, _) = proceed(engine.call_method("Token", "set(uint256)", &vec![0; 32]));
    let (tx, _, _) = proceed(engine.resume(tx, text("0xh")));
    let step = engine.resume(tx, receipt(Some("0x1"), None, Some("0x5208")));
    assert_eq!(
        step,
        EngineStep::Executed(MethodExecutionResult {
            success: true,
            gas_used: 21000,
            return_data: vec![],
            error: None,
        })
    );
    assert_eq!(engine.nonce_of(1), Some(1));
    assert_eq!(engine.nonce_of(0), Some(1));
}

#[test]
fn a_call_that_reverts_is_counted_and_diagnosed() {
    let mut engine = engine_with_three_accounts();
    deploy(&mut engine, "Vault", "0xc0");
    engine.set_sender(2);
    let (tx, _, _) = proceed(engine.call_method("Vault", "withdraw(uint256)", &vec![0; 32]));
    let data = tx.data.clone();
    let (tx, _, _) = proceed(engine.resume(tx, text("0xh")));
    let (tx, request, _) = proceed(engine.resume(tx, receipt(Some("0x0"), None, Some("0x7530"))));
    assert_eq!(engine.nonce_of(2), Some(1));
    match request {
        RpcCall::Call { request, block } => {
            assert_eq!(block, "latest");
            assert_eq!(request.from, A2);
            assert_eq!(request.to, Some("0xc0".to_string()));
            assert_eq!(request.data, data);
        }
        other => panic!("{:?}", other),
    }
    let step = engine.resume(tx, node_error(3, "execution reverted: Not owner\n"));
    assert_eq!(
        step,
        EngineStep::Executed(MethodExecutionResult {
            success: false,
            gas_used: 30000,
            return_data: vec![],
            error: Some("Not owner".to_string()),
        })
    );
    assert_eq!(engine.nonce_of(2), Some(1));
}

#[test]
fn a_call_that_cannot_be_submitted_fails_without_being_counted() {
    let mut engine = engine_with_three_accounts();
    deploy(&mut engine, "Vault", "0xc0");
    let (tx, _, _) = proceed(engine.call_method("Vault", "f(uint8)", &vec![0; 32]));
    let step = engine.resume(tx, node_error(-32000, "insufficient funds"));
    assert_eq!(
        step,
        EngineStep::Executed(MethodExecutionResult {
            success: false,
            gas_used: 0,
            return_data: vec![],
            error: Some("Transaction failed: RPC error: insufficient funds (code: -32000)".to_string()),
        })
    );
    assert_eq!(engine.nonce_of(0), Some(1));
    let (tx, _, _) = proceed(engine.call_method("Vault", "f(uint8)", &vec![0; 32]));
    let step = engine.resume(tx, RpcReply::Transport("Failed to send RPC request".to_string()));
    match step {
        EngineStep::Executed(result) => {
            assert_eq!(result.error, Some("Transaction failed: Failed to send RPC request".to_string()))
        }
        other => panic!("{:?}", other),
    }
}

#[test]
fn a_call_without_a_receipt_fails_without_being_counted() {
    let mut engine = engine_with_three_accounts();
    deploy(&mut engine, "Vault", "0xc0");
    let (tx, _, _) = proceed(engine.call_method("Vault", "f(uint8)", &vec![0; 32]));
    let (tx, _, _) = proceed(engine.resume(tx, text("0xh")));
    let (tx, _, delay) = proceed(engine.resume(tx, RpcReply::Missing));
    assert_eq!(delay, 100);
    let step = engine.resume(tx, node_error(-32603, "internal"));
    assert_eq!(
        step,
        EngineStep::Executed(MethodExecutionResult {
            success: false,
            gas_used: 0,
            return_data: vec![],
            error: Some("Failed to get receipt: RPC error: internal (code: -32603)".to_string()),
        })
    );
    assert_eq!(engine.nonce_of(0), Some(1));
}

#[test]
fn gas_that_cannot_be_read_is_zero() {
    for gas in [None, Some("zz"), Some(""), Some("0x10000000000000000")] {
        let r = TransactionReceipt { contract_address: None, status: None, gas_used: gas.map(|g| g.to_string()) };
        assert_eq!(r.gas(), 0);
    }
    let r = TransactionReceipt { contract_address: None, status: Some("0x1".to_string()), gas_used: Some("1f".to_string()) };
    assert_eq!(r.gas(), 31);
    assert!(r.succeeded());
    for status in [None, Some("0x0"), Some("0"), Some("0x01"), Some("true"), Some("")] {
        let r = TransactionReceipt { contract_address: None, status: status.map(|g| g.to_string()), gas_used: None };
        assert!(!r.succeeded(), "{:?}", status);
    }
}

#[test]
fn the_nonce_follows_the_mined_transactions_of_each_sender() {
    let mut engine = AnvilForkExecutor::new(
        URL,
        vec![A0.to_string(), A1.to_string(), A2.to_string()],
        &vec![text("0x7"), text("0x0"), text("0x64")],
    )
    .unwrap();
    deploy(&mut engine, "Token", "0xc0");
    assert_eq!(engine.nonce_of(0), Some(8));
    for (sender, count) in [(1usize, 5u64), (2, 3), (0, 2)] {
        let before = engine.nonce_of(sender).unwrap();
        engine.set_sender(sender);
        for i in 0..count {
            let (tx, request, _) = proceed(engine.call_method("Token", "set(uint256)", &vec![0; 32]));
            assert_eq!(sent(request).nonce, format!("0x{:x}", before + i));
            let (tx, _, _) = proceed(engine.resume(tx, text("0xh")));
            assert!(matches!(engine.resume(tx, receipt(Some("0x1"), None, None)), EngineStep::Executed(_)));
        }
        assert_eq!(engine.nonce_of(sender), Some(before + count));
    }
    assert_eq!(engine.nonce_of(0), Some(10));
    assert_eq!(engine.nonce_of(1), Some(5));
    assert_eq!(engine.nonce_of(2), Some(103));
}

#[test]
fn the_sender_at_submission_is_the_one_counted() {
    let mut engine = engine_with_three_accounts();
    deploy(&mut engine, "Token", "0xc0");
    engine.set_sender(1);
    let (tx, _, _) = proceed(engine.call_method("Token", "f(uint8)", &vec![0; 32]));
    engine.set_sender(2);
    let (tx, _, _) = proceed(engine.resume(tx, text("0xh")));
    assert!(matches!(engine.resume(tx, receipt(Some("0x1"), None, None)), EngineStep::Executed(_)));
    assert_eq!(engine.nonce_of(1), Some(1));
    assert_eq!(engine.nonce_of(2), Some(0));
}

#[test]
fn the_nonce_stops_at_the_largest_value() {
    let mut engine = AnvilForkExecutor::new(URL, vec![A0.to_string()], &vec![text("0xfffffffffffffffe")]).unwrap();
    deploy(&mut engine, "Token", "0xc0");
    assert_eq!(engine.nonce_of(0), Some(u64::MAX));
    deploy(&mut engine, "Token", "0xc1");
    assert_eq!(engine.nonce_of(0), Some(u64::MAX));
}

#[test]
fn two_engines_in_the_same_state_submit_the_same_deployment() {
    let mut first = engine_with_three_accounts();
    let mut second = AnvilForkExecutor::new(
        URL,
        vec![A2.to_string(), A1.to_string()],
        &vec![text("0x9"), text("0x0")],
    )
    .unwrap();
    first.set_sender(1);
    second.set_sender(1);
    let code = vec![0x60, 0x80, 0x60, 0x40];
    let args = vec![0u8; 32];
    let (_, a, _) = proceed(first.deploy_contract("Token", &code, Some(&args)));
    let (_, b, _) = proceed(second.deploy_contract("Token", &code, Some(&args)));
    assert_eq!(a, b);
}

#[test]
fn an_address_that_stands_twice_has_one_nonce() {
    let accounts = vec![A0.to_string(), A1.to_string(), A0.to_string()];
    let replies = vec![text("0x1"), text("0x2"), text("0x7")];
    let mut engine = AnvilForkExecutor::new(URL, accounts, &replies).unwrap();
    assert_eq!(engine.nonce_of(0), Some(7));
    assert_eq!(engine.nonce_of(1), Some(2));
    assert_eq!(engine.nonce_of(2), Some(7));
    assert_eq!(engine.nonce_of(3), None);
    let (tx, request, _) = proceed(engine.deploy_contract("Token", &vec![0x60], None));
    assert_eq!(sent(request).nonce, "0x7");
    let (tx, _, _) = proceed(engine.resume(tx, text("0xhash")));
    match engine.resume(tx, receipt(Some("0x1"), Some("0xc0"), None)) {
        EngineStep::Deployed(address) => assert_eq!(address, "0xc0"),
        other => panic!("{:?}", other),
    }
    assert_eq!(engine.nonce_of(0), Some(8));
    assert_eq!(engine.nonce_of(1), Some(2));
    assert_eq!(engine.nonce_of(2), Some(8));
    engine.set_sender(2);
    let (_, request, _) = proceed(engine.call_method("Token", "f()", &vec![]));
    let request = sent(request);
    assert_eq!(request.from, A0);
    assert_eq!(request.nonce, "0x8");
}

#[test]
fn a_later_registration_of_a_name_replaces_the_earlier_one() {
    let mut engine = engine_with_three_accounts();
    deploy(&mut engine, "Vault", "0xc0");
    deploy(&mut engine, "Bank", "0xb0");
    deploy(&mut engine, "Vault", "0xc1");
    assert_eq!(engine.deployed_address("Vault"), Some("0xc1".to_string()));
    assert_eq!(engine.deployed_address("Bank"), Some("0xb0".to_string()));
    assert_eq!(engine.deployed_address("vault"), None);
    assert_eq!(engine.nonce_of(0), Some(3));
}

#[test]
fn revert_reasons_are_read_from_the_simulation() {
    assert_eq!(get_revert_reason(node_error(3, "execution reverted: Not owner")), "execution reverted: Not owner");
    assert_eq!(get_revert_reason(node_error(-32601, "method not found")), "method not found");
    assert_eq!(get_revert_reason(node_error(3, "")), "");
    assert_eq!(get_revert_reason(text("0x")), "Unknown revert reason");
    assert_eq!(get_revert_reason(RpcReply::Result(RpcValue::Other)), "Unknown revert reason");
    assert_eq!(get_revert_reason(RpcReply::Transport("timeout".to_string())), "Unknown revert reason");
    assert_eq!(get_revert_reason(RpcReply::Missing), "Unknown revert reason");
    assert_eq!(get_revert_reason(RpcReply::Result(RpcValue::Null)), "Unknown revert reason");
}

#[test]
fn a_reverted_call_whose_simulation_passes_has_no_known_reason() {
    let mut engine = engine_with_three_accounts();
    deploy(&mut engine, "Vault", "0xc0");
    let (tx, _, _) = proceed(engine.call_method("Vault", "f(uint8)", &vec![0; 32]));
    let (tx, _, _) = proceed(engine.resume(tx, text("0xh")));
    let (tx, _, _) = proceed(engine.resume(tx, receipt(Some("0x0"), None, Some("0x5208"))));
    let step = engine.resume(tx, text("0x"));
    assert_eq!(
        step,
        EngineStep::Executed(MethodExecutionResult {
            success: false,
            gas_used: 21000,
            return_data: vec![],
            error: Some("Unknown revert reason".to_string()),
        })
    );
    assert_eq!(engine.nonce_of(0), Some(2));
}

#[test]
fn revert_reasons_are_normalized() {
    assert_eq!(normalize_reason("RPC error: execution reverted: Not owner (code: 3)"), "Not owner (code: 3)");
    assert_eq!(normalize_reason("execution reverted: Insufficient\nbalance\r\n"), "Insufficient balance");
    assert_eq!(normalize_reason("  RPC error:   out of gas  "), "out of gas");
    assert_eq!(normalize_reason("Unknown revert reason"), "Unknown revert reason");
    assert_eq!(normalize_reason("execution reverted:"), "");
    assert_eq!(normalize_reason("RPC error:execution reverted:x"), "x");
    assert_eq!(normalize_reason("note: execution reverted: y"), "note: execution reverted: y");
    assert_eq!(normalize_reason("execution reverted: RPC error: z"), "RPC error: z");
    assert_eq!(normalize_reason(""), "");
    assert_eq!(normalize_reason("\n\n"), "");
}

#[test]
fn transaction_data_is_prefixed_hexadecimal() {
    assert_eq!(format_transaction_data(&vec![]), "0x");
    assert_eq!(format_transaction_data(&vec![0x00, 0x0f, 0xf0, 0xff, 0xAB]), "0x000ff0ffab");
}
