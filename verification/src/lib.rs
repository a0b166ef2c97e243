//! A black-box fuzzing harness for smart contracts on an Ethereum-compatible
//! virtual machine, as a verified library.
//!
//! The library parses a contract's surface, generates boundary-biased
//! arguments for its methods, encodes them to the binary calling convention,
//! and drives the life of each transaction against a forked node. It makes no
//! request and runs no process itself: the engine and the driver say which
//! piece of outside work comes next and take what it gave.
//!
//! Four modules hold what is trusted rather than proved, each a thin layer
//! over an outside crate: [`entropy`] (`rand`), [`hex_text`] (`hex`),
//! [`digest`] (`sha3`) and [`abi_record`] (`ethers`). Besides them only the
//! function of [`text`] that appends a character to a string is trusted.

pub mod text;
pub mod numerals;
pub mod words;
pub mod wide;
pub mod entropy;
pub mod hex_text;
pub mod digest;
pub mod abi_record;
pub mod error;
pub mod types;
pub mod ast_parser;
pub mod generator;
pub mod abi;
pub mod laws;
pub mod display;
pub mod rpc;
pub mod anvil_executor;
pub mod contract_compiler;
pub mod fuzz_solidity;
pub mod benchmark;
