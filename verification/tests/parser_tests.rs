use solidity_fuzzer::ast_parser::SolidityParser;
use solidity_fuzzer::types::{MethodVisibility, SolidityType};

const TOKEN: &str = "// SPDX-License-Identifier: MIT
pragma solidity ^0.8.0;

contract Token {
    mapping(address => uint256) balances;

    constructor(uint256 initialSupply) {
        balances[msg.sender] = initialSupply;
    }

    function transfer(address to, uint256 amount) public returns (bool) {
        return true;
    }

    function setFlag(bool flag,string memo) external {
    }

    function _mint(address to, uint amount) internal {
    }

    function secret(int8 x) private {
    }

    function implicit(bytes data, int y) {
    }

    function reset() public {
    }

    fallback() external payable {
    }

    receive() external payable {
    }
}
";

#[test]
fn contract_name_is_the_word_after_the_keyword() {
    let mut parser = SolidityParser::new();
    let contracts = parser.parse_contract(TOKEN, "Token.sol").unwrap();
    assert_eq!(contracts.len(), 1);
    assert_eq!(contracts[0].name, "Token");
}

#[test]
fn brace_is_stripped_from_the_contract_name() {
    let parser = SolidityParser::new();
    assert_eq!(parser.extract_contract_name("contract Vault{\n}"), "Vault");
    assert_eq!(parser.extract_contract_name("  contract   Spaced   {"), "Spaced");
    assert_eq!(parser.extract_contract_name("contract A is B {"), "A");
    assert_eq!(parser.extract_contract_name("contract {{X}} {"), "X}}");
}

#[test]
fn source_without_a_contract_is_unknown() {
    let parser = SolidityParser::new();
    assert_eq!(parser.extract_contract_name(""), "UnknownContract");
    assert_eq!(parser.extract_contract_name("library L {}\ninterface I {}"), "UnknownContract");
    assert_eq!(parser.extract_contract_name("contract"), "UnknownContract");
    assert_eq!(parser.extract_contract_name("contracts Foo {"), "UnknownContract");
}

#[test]
fn the_first_contract_gives_the_name() {
    let parser = SolidityParser::new();
    assert_eq!(parser.extract_contract_name("\n\ncontract First {}\ncontract Second {}"), "First");
}

#[test]
fn methods_come_in_source_order() {
    let mut parser = SolidityParser::new();
    let contract = parser.parse_contract(TOKEN, "Token.sol").unwrap().remove(0);
    let names: Vec<&str> = contract.methods.iter().map(|m| m.name.as_str()).collect();
    assert_eq!(
        names,
        vec![
            "constructor",
            "transfer",
            "setFlag",
            "_mint",
            "secret",
            "implicit",
            "reset",
            "fallback",
            "receive"
        ]
    );
}

#[test]
fn visibility_is_read_from_the_line() {
    let mut parser = SolidityParser::new();
    let contract = parser.parse_contract(TOKEN, "Token.sol").unwrap().remove(0);
    let visibility: Vec<MethodVisibility> = contract.methods.iter().map(|m| m.visibility).collect();
    assert_eq!(
        visibility,
        vec![
            MethodVisibility::Public,
            MethodVisibility::Public,
            MethodVisibility::External,
            MethodVisibility::Internal,
            MethodVisibility::Private,
            MethodVisibility::Public,
            MethodVisibility::Public,
            MethodVisibility::External,
            MethodVisibility::External,
        ]
    );
}

#[test]
fn public_wins_over_the_other_visibilities() {
    let parser = SolidityParser::new();
    let line = "function f(uint8 a) external returns (uint8 publicValue)";
    let method = parser.parse_method_from_line(line, 0, &[line]);
    assert_eq!(method.visibility, MethodVisibility::Public);
    let line = "function g() private internal";
    assert_eq!(parser.parse_method_from_line(line, 3, &[]).visibility, MethodVisibility::Internal);
}

#[test]
fn special_methods_are_flagged() {
    let mut parser = SolidityParser::new();
    let contract = parser.parse_contract(TOKEN, "Token.sol").unwrap().remove(0);
    let constructor = contract.constructor.unwrap();
    assert!(constructor.is_constructor && !constructor.is_fallback && !constructor.is_receive);
    assert_eq!(constructor.name, "constructor");
    assert_eq!(constructor.parameters.len(), 1);
    assert_eq!(constructor.parameters[0].name, "initialSupply");
    assert_eq!(constructor.parameters[0].param_type, SolidityType::Uint256);
    let fallback = contract.fallback.unwrap();
    assert!(fallback.is_fallback && !fallback.is_constructor);
    let receive = contract.receive.unwrap();
    assert!(receive.is_receive && !receive.is_fallback);
    assert!(contract.events.is_empty());
    let transfer = &contract.methods[1];
    assert!(!transfer.is_constructor && !transfer.is_fallback && !transfer.is_receive);
}

#[test]
fn contract_without_special_methods_has_none() {
    let mut parser = SolidityParser::new();
    let contract = parser.parse_contract("contract C {\nfunction f(uint8 a) public {}\n}", "C.sol").unwrap().remove(0);
    assert!(contract.constructor.is_none());
    assert!(contract.fallback.is_none());
    assert!(contract.receive.is_none());
    assert_eq!(contract.methods.len(), 1);
}

#[test]
fn parameters_are_type_then_name() {
    let mut parser = SolidityParser::new();
    let contract = parser.parse_contract(TOKEN, "Token.sol").unwrap().remove(0);
    let transfer = &contract.methods[1];
    assert_eq!(transfer.parameters.len(), 2);
    assert_eq!(transfer.parameters[0].param_type, SolidityType::Address);
    assert_eq!(transfer.parameters[0].name, "to");
    assert_eq!(transfer.parameters[1].param_type, SolidityType::Uint256);
    assert_eq!(transfer.parameters[1].name, "amount");
    let set_flag = &contract.methods[2];
    assert_eq!(set_flag.parameters[0].param_type, SolidityType::Bool);
    assert_eq!(set_flag.parameters[1].param_type, SolidityType::String);
    assert_eq!(set_flag.parameters[1].name, "memo");
    let implicit = &contract.methods[5];
    assert_eq!(implicit.parameters[0].param_type, SolidityType::Bytes);
    assert_eq!(implicit.parameters[0].name, "data");
    assert_eq!(implicit.parameters[1].param_type, SolidityType::Int256);
    assert!(contract.methods[6].parameters.is_empty());
}

#[test]
fn fragments_with_one_word_are_no_parameters() {
    let parser = SolidityParser::new();
    let parameters = parser.extract_parameters_from_line("function f(uint256, , address owner,bool) public");
    assert_eq!(parameters.len(), 1);
    assert_eq!(parameters[0].name, "owner");
    assert_eq!(parameters[0].param_type, SolidityType::Address);
}

#[test]
fn the_second_word_is_the_name_even_with_a_data_location() {
    let parser = SolidityParser::new();
    let parameters = parser.extract_parameters_from_line("function f(string memory text) public");
    assert_eq!(parameters.len(), 1);
    assert_eq!(parameters[0].name, "memory");
    assert_eq!(parameters[0].param_type, SolidityType::String);
}

#[test]
fn lines_without_a_parameter_list_have_no_parameters() {
    let parser = SolidityParser::new();
    for text in [
        "function broken",
        "function broken(uint8 a",
        "function broken) uint8 a (",
        "function f()",
        "function f(   )",
    ] {
        assert!(parser.extract_parameters_from_line(text).is_empty(), "{}", text);
    }
}

#[test]
fn type_tokens_are_recognised_exactly() {
    let parser = SolidityParser::new();
    let table = [
        ("uint8", SolidityType::Uint8),
        ("uint16", SolidityType::Uint16),
        ("uint32", SolidityType::Uint32),
        ("uint64", SolidityType::Uint64),
        ("uint128", SolidityType::Uint128),
        ("uint256", SolidityType::Uint256),
        ("uint", SolidityType::Uint256),
        ("int8", SolidityType::Int8),
        ("int16", SolidityType::Int16),
        ("int32", SolidityType::Int32),
        ("int64", SolidityType::Int64),
        ("int128", SolidityType::Int128),
        ("int256", SolidityType::Int256),
        ("int", SolidityType::Int256),
        ("address", SolidityType::Address),
        ("bool", SolidityType::Bool),
        ("string", SolidityType::String),
        ("bytes", SolidityType::Bytes),
    ];
    for (token, expected) in table {
        assert_eq!(parser.parse_type_from_string(token), expected, "{}", token);
    }
}

#[test]
fn unknown_type_tokens_are_kept_as_unsupported() {
    let parser = SolidityParser::new();
    for token in ["uint24", "bytes32", "uint256[]", "Uint8", "MyStruct", "", "address payable"] {
        assert_eq!(
            parser.parse_type_from_string(token),
            SolidityType::Custom(token.to_string()),
            "{}",
            token
        );
    }
}

#[test]
fn function_name_is_the_last_word_before_the_parenthesis() {
    let parser = SolidityParser::new();
    let name = |text: &str| parser.parse_method_from_line(text, 0, &[]).name;
    assert_eq!(name("function transfer(address to) public"), "transfer");
    assert_eq!(name("function   spaced   (uint8 a)"), "spaced");
    assert_eq!(name("function (uint8 a)"), "function");
    assert_eq!(name("function noParens"), "noParens");
    assert_eq!(name("constructor(uint8 a)"), "constructor");
    assert_eq!(name("constructorLike(uint8 a)"), "constructor");
    assert_eq!(name("fallback() external"), "fallback");
    assert_eq!(name("receive() external payable"), "receive");
}

#[test]
fn lines_are_trimmed_before_they_are_read() {
    let parser = SolidityParser::new();
    let methods = parser.extract_methods("\t  function a(uint8 x) public {}  \r\n\u{a0}function b() external\n  // function c()\nevent E();\n");
    assert_eq!(methods.len(), 2);
    assert_eq!(methods[0].name, "a");
    assert_eq!(methods[1].name, "b");
    assert_eq!(methods[1].visibility, MethodVisibility::External);
}

#[test]
fn a_declaration_that_spans_lines_is_read_from_its_first_line() {
    let parser = SolidityParser::new();
    let methods = parser.extract_methods("function long(\n    uint256 a,\n    address b\n) public {");
    assert_eq!(methods.len(), 1);
    assert_eq!(methods[0].name, "long");
    assert!(methods[0].parameters.is_empty());
}

#[test]
fn empty_source_has_no_methods() {
    let mut parser = SolidityParser::new();
    let contract = parser.parse_contract("", "empty.sol").unwrap().remove(0);
    assert_eq!(contract.name, "UnknownContract");
    assert!(contract.methods.is_empty());
}
