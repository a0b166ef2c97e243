//! The constructor of an ABI record as plain values, and the packing of
//! constructor arguments behind the contract's bytecode by the `ethers`
//! crate. The packing is trusted; its result has a name.

use ethers::abi::{Constructor, Param, ParamType, Token};
use ethers::types::{H160, U256};
use vstd::prelude::*;

verus! {

broadcast use vstd::std_specs::vec::group_vec_axioms;

/// The type of an input of a constructor, as the ABI record declares it.
#[derive(Debug, PartialEq)]
pub enum ParamKind {
    Address,
    Bytes,
    /// A signed integer of so many bits.
    Int(usize),
    /// An unsigned integer of so many bits.
    Uint(usize),
    Bool,
    String,
    Array(Box<ParamKind>),
    /// A byte string of so many bytes.
    FixedBytes(usize),
    /// An array of so many items.
    FixedArray(Box<ParamKind>, usize),
    Tuple(Vec<ParamKind>),
}

/// The mathematical view of a [`ParamKind`].
pub enum KindModel {
    Address,
    Bytes,
    Int(usize),
    Uint(usize),
    Bool,
    String,
    Array(Box<KindModel>),
    FixedBytes(usize),
    FixedArray(Box<KindModel>, usize),
    Tuple(Seq<KindModel>),
}

impl ParamKind {
    /// The kind with its parts read as sequences.
    pub open spec fn model(&self) -> KindModel
        decreases self,
    {
        match self {
            ParamKind::Address => KindModel::Address,
            ParamKind::Bytes => KindModel::Bytes,
            ParamKind::Int(bits) => KindModel::Int(*bits),
            ParamKind::Uint(bits) => KindModel::Uint(*bits),
            ParamKind::Bool => KindModel::Bool,
            ParamKind::String => KindModel::String,
            ParamKind::Array(item) => KindModel::Array(Box::new(item.model())),
            ParamKind::FixedBytes(size) => KindModel::FixedBytes(*size),
            ParamKind::FixedArray(item, size) => KindModel::FixedArray(
                Box::new(item.model()),
                *size,
            ),
            ParamKind::Tuple(parts) => KindModel::Tuple(
                Seq::new(
                    parts.len() as nat,
                    |i: int|
                        if 0 <= i < parts.len() {
                            parts[i].model()
                        } else {
                            KindModel::Bool
                        },
                ),
            ),
        }
    }
}

impl View for ParamKind {
    type V = KindModel;

    open spec fn view(&self) -> KindModel {
        self.model()
    }
}

/// The views of the kinds in `kinds`, in order.
pub open spec fn kind_models(kinds: Seq<ParamKind>) -> Seq<KindModel> {
    Seq::new(kinds.len(), |i: int| kinds[i]@)
}

/// An argument for a constructor, as the user gives it: an address of twenty
/// bytes, an unsigned integer of 256 bits in big-endian bytes, a text, or a
/// flag.
#[derive(Debug, PartialEq)]
pub enum ConstructorArgument {
    Address([u8; 20]),
    Uint([u8; 32]),
    Text(String),
    Flag(bool),
}

/// The mathematical view of a [`ConstructorArgument`].
pub enum ArgumentModel {
    Address(Seq<u8>),
    Uint(Seq<u8>),
    Text(Seq<char>),
    Flag(bool),
}

impl View for ConstructorArgument {
    type V = ArgumentModel;

    open spec fn view(&self) -> ArgumentModel {
        match self {
            ConstructorArgument::Address(bytes) => ArgumentModel::Address(bytes@),
            ConstructorArgument::Uint(bytes) => ArgumentModel::Uint(bytes@),
            ConstructorArgument::Text(text) => ArgumentModel::Text(text@),
            ConstructorArgument::Flag(flag) => ArgumentModel::Flag(*flag),
        }
    }
}

/// The views of the arguments in `arguments`, in order.
pub open spec fn argument_models(arguments: Seq<ConstructorArgument>) -> Seq<ArgumentModel> {
    Seq::new(arguments.len(), |i: int| arguments[i]@)
}

/// The argument has the type of the input: an address for an address, an
/// unsigned integer for an unsigned integer of any width, a text for a
/// string, a flag for a boolean.
pub open spec fn argument_matches(argument: ArgumentModel, input: KindModel) -> bool {
    match argument {
        ArgumentModel::Address(_) => input is Address,
        ArgumentModel::Uint(_) => input is Uint,
        ArgumentModel::Text(_) => input is String,
        ArgumentModel::Flag(_) => input is Bool,
    }
}

/// There is one argument for each input, and each has the type of its input.
pub open spec fn arguments_match(arguments: Seq<ArgumentModel>, inputs: Seq<KindModel>) -> bool {
    &&& arguments.len() == inputs.len()
    &&& forall|i: int| 0 <= i < inputs.len() ==> argument_matches(arguments[i], #[trigger] inputs[i])
}

/// `ethers::abi::ParamType`, kept as an opaque type.
#[verifier::external_type_specification]
#[verifier::external_body]
pub struct ExParamType(ParamType);

/// `ethers::abi::Token`, kept as an opaque type.
#[verifier::external_type_specification]
#[verifier::external_body]
pub struct ExToken(Token);

/// What `ethers::abi::Constructor::encode_input` gives for a constructor
/// with the inputs `inputs`, the code `code` and the tokens of `arguments`:
/// the code followed by the encoded tokens where the tokens have the types of
/// the inputs, and nothing where they have not.
pub uninterp spec fn packed_constructor(
    inputs: Seq<KindModel>,
    code: Seq<u8>,
    arguments: Seq<ArgumentModel>,
) -> Option<Seq<u8>>;

/// The `ethers::abi::ParamType` that a kind stands for, variant by variant.
#[verifier::external_body]
fn param_type_of(kind: &ParamKind) -> ParamType {
    match kind {
        ParamKind::Address => ParamType::Address,
        ParamKind::Bytes => ParamType::Bytes,
        ParamKind::Int(bits) => ParamType::Int(*bits),
        ParamKind::Uint(bits) => ParamType::Uint(*bits),
        ParamKind::Bool => ParamType::Bool,
        ParamKind::String => ParamType::String,
        ParamKind::Array(item) => ParamType::Array(Box::new(param_type_of(item))),
        ParamKind::FixedBytes(size) => ParamType::FixedBytes(*size),
        ParamKind::FixedArray(item, size) => {
            ParamType::FixedArray(Box::new(param_type_of(item)), *size)
        },
        ParamKind::Tuple(parts) => ParamType::Tuple(parts.iter().map(param_type_of).collect()),
    }
}

/// The `ethers::abi::Token` that an argument stands for, variant by variant.
#[verifier::external_body]
fn token_of(argument: &ConstructorArgument) -> Token {
    match argument {
        ConstructorArgument::Address(bytes) => Token::Address(H160::from(*bytes)),
        ConstructorArgument::Uint(bytes) => Token::Uint(U256::from_big_endian(bytes)),
        ConstructorArgument::Text(text) => Token::String(text.clone()),
        ConstructorArgument::Flag(flag) => Token::Bool(*flag),
    }
}

/// `ethers::abi::Constructor::encode_input` on a constructor with the inputs
/// `inputs`: the code followed by the encoded arguments, or nothing where the
/// arguments do not have the types of the inputs. The contract claims that
/// the result is the named one, that it is given exactly where there is one
/// argument of the right type for each input, and that it begins with the
/// code.
#[verifier::external_body]
pub(crate) fn pack_constructor(
    inputs: &Vec<ParamKind>,
    code: Vec<u8>,
    arguments: &Vec<ConstructorArgument>,
) -> (r: Option<Vec<u8>>)
    ensures
        match r {
            Some(packed) => packed_constructor(kind_models(inputs@), code@, argument_models(arguments@))
                == Some(packed@),
            None => packed_constructor(kind_models(inputs@), code@, argument_models(arguments@))
                is None,
        },
        r is Some <==> arguments_match(argument_models(arguments@), kind_models(inputs@)),
        r matches Some(packed) ==> packed@.len() >= code@.len() && packed@.subrange(
            0,
            code@.len() as int,
        ) == code@,
{
    let params = inputs
        .iter()
        .map(|kind| Param { name: String::new(), kind: param_type_of(kind), internal_type: None })
        .collect();
    let tokens: Vec<Token> = arguments.iter().map(token_of).collect();
    Constructor { inputs: params }.encode_input(code, &tokens).ok()
}

} // verus!
