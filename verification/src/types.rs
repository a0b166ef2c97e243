//! The type model: parameter types, generated values, method descriptors and
//! the counters of a fuzz run, each with its mathematical view.

use vstd::prelude::*;

verus! {

broadcast use vstd::std_specs::vec::group_vec_axioms;

/// A parameter type of a contract method.
///
/// `Mapping`, `Struct` and `Custom` stand for types that cannot be fuzzed.
#[derive(Debug, PartialEq)]
pub enum SolidityType {
    Uint8,
    Uint16,
    Uint32,
    Uint64,
    Uint128,
    Uint256,
    Int8,
    Int16,
    Int32,
    Int64,
    Int128,
    Int256,
    Address,
    Bool,
    Bytes1,
    Bytes2,
    Bytes4,
    Bytes8,
    Bytes16,
    Bytes32,
    String,
    Bytes,
    Array(Box<SolidityType>),
    Mapping(Box<SolidityType>, Box<SolidityType>),
    Struct(String),
    Custom(String),
}

/// The mathematical view of a [`SolidityType`]: names are sequences of
/// characters.
pub enum TypeModel {
    Uint8,
    Uint16,
    Uint32,
    Uint64,
    Uint128,
    Uint256,
    Int8,
    Int16,
    Int32,
    Int64,
    Int128,
    Int256,
    Address,
    Bool,
    Bytes1,
    Bytes2,
    Bytes4,
    Bytes8,
    Bytes16,
    Bytes32,
    String,
    Bytes,
    Array(Box<TypeModel>),
    Mapping(Box<TypeModel>, Box<TypeModel>),
    Struct(Seq<char>),
    Custom(Seq<char>),
}

impl TypeModel {
    /// A type for which no value can be generated.
    pub open spec fn is_unsupported(self) -> bool {
        self is Mapping || self is Struct || self is Custom
    }
}

impl SolidityType {
    /// The type with its names read as character sequences.
    pub open spec fn model(&self) -> TypeModel
        decreases self,
    {
        match self {
            SolidityType::Uint8 => TypeModel::Uint8,
            SolidityType::Uint16 => TypeModel::Uint16,
            SolidityType::Uint32 => TypeModel::Uint32,
            SolidityType::Uint64 => TypeModel::Uint64,
            SolidityType::Uint128 => TypeModel::Uint128,
            SolidityType::Uint256 => TypeModel::Uint256,
            SolidityType::Int8 => TypeModel::Int8,
            SolidityType::Int16 => TypeModel::Int16,
            SolidityType::Int32 => TypeModel::Int32,
            SolidityType::Int64 => TypeModel::Int64,
            SolidityType::Int128 => TypeModel::Int128,
            SolidityType::Int256 => TypeModel::Int256,
            SolidityType::Address => TypeModel::Address,
            SolidityType::Bool => TypeModel::Bool,
            SolidityType::Bytes1 => TypeModel::Bytes1,
            SolidityType::Bytes2 => TypeModel::Bytes2,
            SolidityType::Bytes4 => TypeModel::Bytes4,
            SolidityType::Bytes8 => TypeModel::Bytes8,
            SolidityType::Bytes16 => TypeModel::Bytes16,
            SolidityType::Bytes32 => TypeModel::Bytes32,
            SolidityType::String => TypeModel::String,
            SolidityType::Bytes => TypeModel::Bytes,
            SolidityType::Array(inner) => TypeModel::Array(Box::new(inner.model())),
            SolidityType::Mapping(key, value) => TypeModel::Mapping(
                Box::new(key.model()),
                Box::new(value.model()),
            ),
            SolidityType::Struct(name) => TypeModel::Struct(name@),
            SolidityType::Custom(name) => TypeModel::Custom(name@),
        }
    }
}

impl View for SolidityType {
    type V = TypeModel;

    open spec fn view(&self) -> TypeModel {
        self.model()
    }
}

impl Clone for SolidityType {
    fn clone(&self) -> (r: Self)
        ensures
            r@ == self@,
        decreases self,
    {
        match self {
            SolidityType::Uint8 => SolidityType::Uint8,
            SolidityType::Uint16 => SolidityType::Uint16,
            SolidityType::Uint32 => SolidityType::Uint32,
            SolidityType::Uint64 => SolidityType::Uint64,
            SolidityType::Uint128 => SolidityType::Uint128,
            SolidityType::Uint256 => SolidityType::Uint256,
            SolidityType::Int8 => SolidityType::Int8,
            SolidityType::Int16 => SolidityType::Int16,
            SolidityType::Int32 => SolidityType::Int32,
            SolidityType::Int64 => SolidityType::Int64,
            SolidityType::Int128 => SolidityType::Int128,
            SolidityType::Int256 => SolidityType::Int256,
            SolidityType::Address => SolidityType::Address,
            SolidityType::Bool => SolidityType::Bool,
            SolidityType::Bytes1 => SolidityType::Bytes1,
            SolidityType::Bytes2 => SolidityType::Bytes2,
            SolidityType::Bytes4 => SolidityType::Bytes4,
            SolidityType::Bytes8 => SolidityType::Bytes8,
            SolidityType::Bytes16 => SolidityType::Bytes16,
            SolidityType::Bytes32 => SolidityType::Bytes32,
            SolidityType::String => SolidityType::String,
            SolidityType::Bytes => SolidityType::Bytes,
            SolidityType::Array(inner) => SolidityType::Array(Box::new((&**inner).clone())),
            SolidityType::Mapping(key, value) => SolidityType::Mapping(
                Box::new((&**key).clone()),
                Box::new((&**value).clone()),
            ),
            SolidityType::Struct(name) => SolidityType::Struct(name.clone()),
            SolidityType::Custom(name) => SolidityType::Custom(name.clone()),
        }
    }
}

/// A generated argument. Integers up to 128 bits are held natively, 256-bit
/// integers as decimal text, addresses as hex text with a `0x` prefix.
/// `Unsupported` stands for a parameter whose type cannot be fuzzed.
#[derive(Debug, PartialEq)]
pub enum SolidityValue {
    Uint8(u8),
    Uint16(u16),
    Uint32(u32),
    Uint64(u64),
    Uint128(u128),
    Uint256(String),
    Int8(i8),
    Int16(i16),
    Int32(i32),
    Int64(i64),
    Int128(i128),
    Int256(String),
    Address(String),
    Bool(bool),
    Bytes1([u8; 1]),
    Bytes2([u8; 2]),
    Bytes4([u8; 4]),
    Bytes8([u8; 8]),
    Bytes16([u8; 16]),
    Bytes32([u8; 32]),
    String(String),
    Bytes(Vec<u8>),
    Array(Vec<SolidityValue>),
    Struct(Vec<(String, SolidityValue)>),
    Unsupported,
}

/// The mathematical view of a [`SolidityValue`].
pub enum ValueModel {
    Uint8(u8),
    Uint16(u16),
    Uint32(u32),
    Uint64(u64),
    Uint128(u128),
    Uint256(Seq<char>),
    Int8(i8),
    Int16(i16),
    Int32(i32),
    Int64(i64),
    Int128(i128),
    Int256(Seq<char>),
    Address(Seq<char>),
    Bool(bool),
    Bytes1(Seq<u8>),
    Bytes2(Seq<u8>),
    Bytes4(Seq<u8>),
    Bytes8(Seq<u8>),
    Bytes16(Seq<u8>),
    Bytes32(Seq<u8>),
    String(Seq<char>),
    Bytes(Seq<u8>),
    Array(Seq<ValueModel>),
    Struct(Seq<(Seq<char>, ValueModel)>),
    Unsupported,
}

impl SolidityValue {
    /// The value with its texts and buffers read as sequences.
    pub open spec fn model(&self) -> ValueModel
        decreases self,
    {
        match self {
            SolidityValue::Uint8(v) => ValueModel::Uint8(*v),
            SolidityValue::Uint16(v) => ValueModel::Uint16(*v),
            SolidityValue::Uint32(v) => ValueModel::Uint32(*v),
            SolidityValue::Uint64(v) => ValueModel::Uint64(*v),
            SolidityValue::Uint128(v) => ValueModel::Uint128(*v),
            SolidityValue::Uint256(v) => ValueModel::Uint256(v@),
            SolidityValue::Int8(v) => ValueModel::Int8(*v),
            SolidityValue::Int16(v) => ValueModel::Int16(*v),
            SolidityValue::Int32(v) => ValueModel::Int32(*v),
            SolidityValue::Int64(v) => ValueModel::Int64(*v),
            SolidityValue::Int128(v) => ValueModel::Int128(*v),
            SolidityValue::Int256(v) => ValueModel::Int256(v@),
            SolidityValue::Address(v) => ValueModel::Address(v@),
            SolidityValue::Bool(v) => ValueModel::Bool(*v),
            SolidityValue::Bytes1(v) => ValueModel::Bytes1(v@),
            SolidityValue::Bytes2(v) => ValueModel::Bytes2(v@),
            SolidityValue::Bytes4(v) => ValueModel::Bytes4(v@),
            SolidityValue::Bytes8(v) => ValueModel::Bytes8(v@),
            SolidityValue::Bytes16(v) => ValueModel::Bytes16(v@),
            SolidityValue::Bytes32(v) => ValueModel::Bytes32(v@),
            SolidityValue::String(v) => ValueModel::String(v@),
            SolidityValue::Bytes(v) => ValueModel::Bytes(v@),
            SolidityValue::Array(items) => ValueModel::Array(
                Seq::new(
                    items.len() as nat,
                    |i: int|
                        if 0 <= i < items.len() {
                            items[i].model()
                        } else {
                            ValueModel::Unsupported
                        },
                ),
            ),
            SolidityValue::Struct(fields) => ValueModel::Struct(
                Seq::new(
                    fields.len() as nat,
                    |i: int|
                        if 0 <= i < fields.len() {
                            (fields[i].0@, fields[i].1.model())
                        } else {
                            (Seq::empty(), ValueModel::Unsupported)
                        },
                ),
            ),
            SolidityValue::Unsupported => ValueModel::Unsupported,
        }
    }
}

impl View for SolidityValue {
    type V = ValueModel;

    open spec fn view(&self) -> ValueModel {
        self.model()
    }
}

impl Clone for SolidityValue {
    fn clone(&self) -> (r: Self)
        ensures
            r@ == self@,
        decreases self,
    {
        match self {
            SolidityValue::Uint8(v) => SolidityValue::Uint8(*v),
            SolidityValue::Uint16(v) => SolidityValue::Uint16(*v),
            SolidityValue::Uint32(v) => SolidityValue::Uint32(*v),
            SolidityValue::Uint64(v) => SolidityValue::Uint64(*v),
            SolidityValue::Uint128(v) => SolidityValue::Uint128(*v),
            SolidityValue::Uint256(v) => SolidityValue::Uint256(v.clone()),
            SolidityValue::Int8(v) => SolidityValue::Int8(*v),
            SolidityValue::Int16(v) => SolidityValue::Int16(*v),
            SolidityValue::Int32(v) => SolidityValue::Int32(*v),
            SolidityValue::Int64(v) => SolidityValue::Int64(*v),
            SolidityValue::Int128(v) => SolidityValue::Int128(*v),
            SolidityValue::Int256(v) => SolidityValue::Int256(v.clone()),
            SolidityValue::Address(v) => SolidityValue::Address(v.clone()),
            SolidityValue::Bool(v) => SolidityValue::Bool(*v),
            SolidityValue::Bytes1(v) => SolidityValue::Bytes1(*v),
            SolidityValue::Bytes2(v) => SolidityValue::Bytes2(*v),
            SolidityValue::Bytes4(v) => SolidityValue::Bytes4(*v),
            SolidityValue::Bytes8(v) => SolidityValue::Bytes8(*v),
            SolidityValue::Bytes16(v) => SolidityValue::Bytes16(*v),
            SolidityValue::Bytes32(v) => SolidityValue::Bytes32(*v),
            SolidityValue::String(v) => SolidityValue::String(v.clone()),
            SolidityValue::Bytes(v) => {
                let mut bytes: Vec<u8> = Vec::new();
                let mut i: usize = 0;
                while i < v.len()
                    invariant
                        i <= v.len(),
                        bytes@ == v@.take(i as int),
                    decreases v.len() - i,
                {
                    bytes.push(v[i]);
                    i += 1;
                }
                assert(v@.take(v.len() as int) == v@);
                SolidityValue::Bytes(bytes)
            },
            SolidityValue::Array(items) => {
                let mut copies: Vec<SolidityValue> = Vec::new();
                let mut i: usize = 0;
                while i < items.len()
                    invariant
                        i <= items.len(),
                        copies.len() == i,
                        decreases_to!(self => items),
                        forall|j: int| 0 <= j < i ==> (#[trigger] copies[j]).model() == items[j].model(),
                    decreases items.len() - i,
                {
                    copies.push(items[i].clone());
                    i += 1;
                }
                let r = SolidityValue::Array(copies);
                assert(r.model()->Array_0 =~= self.model()->Array_0);
                r
            },
            SolidityValue::Struct(fields) => {
                let mut copies: Vec<(String, SolidityValue)> = Vec::new();
                let mut i: usize = 0;
                while i < fields.len()
                    invariant
                        i <= fields.len(),
                        copies.len() == i,
                        decreases_to!(self => fields),
                        forall|j: int|
                            0 <= j < i ==> (#[trigger] copies[j]).0@ == fields[j].0@
                                && copies[j].1.model() == fields[j].1.model(),
                    decreases fields.len() - i,
                {
                    copies.push((fields[i].0.clone(), fields[i].1.clone()));
                    i += 1;
                }
                let r = SolidityValue::Struct(copies);
                assert(r.model()->Struct_0 =~= self.model()->Struct_0);
                r
            },
            SolidityValue::Unsupported => SolidityValue::Unsupported,
        }
    }
}

/// One parameter of a contract method.
#[derive(Debug)]
pub struct MethodParameter {
    pub name: String,
    pub param_type: SolidityType,
}

/// The mathematical view of a [`MethodParameter`].
pub struct ParameterModel {
    pub name: Seq<char>,
    pub param_type: TypeModel,
}

impl View for MethodParameter {
    type V = ParameterModel;

    open spec fn view(&self) -> ParameterModel {
        ParameterModel { name: self.name@, param_type: self.param_type@ }
    }
}

impl Clone for MethodParameter {
    fn clone(&self) -> (r: Self)
        ensures
            r@ == self@,
    {
        MethodParameter { name: self.name.clone(), param_type: self.param_type.clone() }
    }
}

/// Who may call a contract method.
#[derive(Debug, Clone, Copy, PartialEq, Eq, Structural)]
pub enum MethodVisibility {
    Public,
    External,
    Internal,
    Private,
}

impl MethodVisibility {
    /// A method can be reached from outside the contract exactly when it is
    /// public or external.
    pub open spec fn externally_callable(self) -> bool {
        self == MethodVisibility::Public || self == MethodVisibility::External
    }

    /// Says whether a method of this visibility can be reached from outside.
    pub fn is_externally_callable(&self) -> (r: bool)
        ensures
            r == self.externally_callable(),
    {
        match self {
            MethodVisibility::Public => true,
            MethodVisibility::External => true,
            _ => false,
        }
    }
}

/// A method of a contract as its source declares it.
#[derive(Debug)]
pub struct ContractMethod {
    pub name: String,
    pub parameters: Vec<MethodParameter>,
    pub visibility: MethodVisibility,
    pub is_constructor: bool,
    pub is_fallback: bool,
    pub is_receive: bool,
}

/// The mathematical view of a [`ContractMethod`].
pub struct MethodModel {
    pub name: Seq<char>,
    pub parameters: Seq<ParameterModel>,
    pub visibility: MethodVisibility,
    pub is_constructor: bool,
    pub is_fallback: bool,
    pub is_receive: bool,
}

impl MethodModel {
    /// The method is a constructor, a fallback or a receive function.
    pub open spec fn is_special(self) -> bool {
        self.is_constructor || self.is_fallback || self.is_receive
    }

    /// The method is one that a fuzz run may call: it can be reached from
    /// outside and is not special.
    pub open spec fn is_eligible(self) -> bool {
        self.visibility.externally_callable() && !self.is_special()
    }
}

/// The views of the parameters in `parameters`, in order.
pub open spec fn parameter_models(parameters: Seq<MethodParameter>) -> Seq<ParameterModel> {
    Seq::new(parameters.len(), |i: int| parameters[i]@)
}

impl View for ContractMethod {
    type V = MethodModel;

    open spec fn view(&self) -> MethodModel {
        MethodModel {
            name: self.name@,
            parameters: parameter_models(self.parameters@),
            visibility: self.visibility,
            is_constructor: self.is_constructor,
            is_fallback: self.is_fallback,
            is_receive: self.is_receive,
        }
    }
}

impl Clone for ContractMethod {
    fn clone(&self) -> (r: Self)
        ensures
            r@ == self@,
    {
        let mut parameters: Vec<MethodParameter> = Vec::new();
        let mut i: usize = 0;
        while i < self.parameters.len()
            invariant
                i <= self.parameters.len(),
                parameters.len() == i,
                forall|j: int| 0 <= j < i ==> (#[trigger] parameters[j])@ == self.parameters[j]@,
            decreases self.parameters.len() - i,
        {
            parameters.push(self.parameters[i].clone());
            i += 1;
        }
        assert(parameter_models(parameters@) =~= parameter_models(self.parameters@));
        ContractMethod {
            name: self.name.clone(),
            parameters,
            visibility: self.visibility,
            is_constructor: self.is_constructor,
            is_fallback: self.is_fallback,
            is_receive: self.is_receive,
        }
    }
}

/// The counters of a fuzz run.
#[derive(Debug, Clone, Copy, PartialEq, Eq, Structural)]
pub struct FuzzSummary {
    pub total_passed: usize,
    pub total_failed: usize,
    pub total_skipped: usize,
}

/// How one fuzz iteration ended.
#[derive(Debug, PartialEq)]
pub enum TestResult {
    Passed,
    Failed(String),
}

/// The mathematical view of a [`TestResult`].
pub enum TestResultModel {
    Passed,
    Failed(Seq<char>),
}

impl View for TestResult {
    type V = TestResultModel;

    open spec fn view(&self) -> TestResultModel {
        match self {
            TestResult::Passed => TestResultModel::Passed,
            TestResult::Failed(reason) => TestResultModel::Failed(reason@),
        }
    }
}

impl Clone for TestResult {
    fn clone(&self) -> (r: Self)
        ensures
            r@ == self@,
    {
        match self {
            TestResult::Passed => TestResult::Passed,
            TestResult::Failed(reason) => TestResult::Failed(reason.clone()),
        }
    }
}

} // verus!
