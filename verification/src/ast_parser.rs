//! The contract surface parser: a line-oriented scanner that finds the
//! contract's name and its methods in source text.
//!
//! A line is read on its own, after trimming. Parameter lists that span
//! lines, inheritance lists, modifiers and nested braces are not understood.

use vstd::prelude::*;
use crate::error::FuzzError;
use crate::text::{
    chars_of, contains, contains_str, eq_str, find_char, first_index_of, remove_char, slice_of,
    split, split_chars, split_words, starts_with, starts_with_str, string_of, trim, trim_chars,
    without_char, words,
};
use crate::types::{
    parameter_models, ContractMethod, MethodModel, MethodParameter, MethodVisibility,
    ParameterModel, SolidityType, TypeModel,
};

verus! {

/// What a scan of a contract's source found.
#[derive(Debug)]
pub struct ContractInfo {
    pub name: String,
    pub methods: Vec<ContractMethod>,
    pub events: Vec<EventInfo>,
    pub constructor: Option<ContractMethod>,
    pub fallback: Option<ContractMethod>,
    pub receive: Option<ContractMethod>,
}

/// An event of a contract.
#[derive(Debug)]
pub struct EventInfo {
    pub name: String,
    pub parameters: Vec<MethodParameter>,
    pub anonymous: bool,
}

/// The mathematical view of an [`EventInfo`].
pub struct EventModel {
    pub name: Seq<char>,
    pub parameters: Seq<ParameterModel>,
    pub anonymous: bool,
}

impl View for EventInfo {
    type V = EventModel;

    open spec fn view(&self) -> EventModel {
        EventModel {
            name: self.name@,
            parameters: parameter_models(self.parameters@),
            anonymous: self.anonymous,
        }
    }
}

/// The mathematical view of a [`ContractInfo`].
pub struct ContractModel {
    pub name: Seq<char>,
    pub methods: Seq<MethodModel>,
    pub events: Seq<EventModel>,
    pub constructor: Option<MethodModel>,
    pub fallback: Option<MethodModel>,
    pub receive: Option<MethodModel>,
}

/// The views of the methods in `methods`, in order.
pub open spec fn method_models(methods: Seq<ContractMethod>) -> Seq<MethodModel> {
    Seq::new(methods.len(), |i: int| methods[i]@)
}

/// The views of the events in `events`, in order.
pub open spec fn event_models(events: Seq<EventInfo>) -> Seq<EventModel> {
    Seq::new(events.len(), |i: int| events[i]@)
}

/// The view of an optional method.
pub open spec fn optional_method_model(method: Option<ContractMethod>) -> Option<MethodModel> {
    match method {
        Some(m) => Some(m@),
        None => None,
    }
}

impl View for ContractInfo {
    type V = ContractModel;

    open spec fn view(&self) -> ContractModel {
        ContractModel {
            name: self.name@,
            methods: method_models(self.methods@),
            events: event_models(self.events@),
            constructor: optional_method_model(self.constructor),
            fallback: optional_method_model(self.fallback),
            receive: optional_method_model(self.receive),
        }
    }
}

/// The three special roles a method can have.
#[derive(Debug, Clone, Copy, PartialEq, Eq, Structural)]
pub enum SpecialRole {
    Constructor,
    Fallback,
    Receive,
}

/// The method has the role `role`.
pub open spec fn has_role(method: MethodModel, role: SpecialRole) -> bool {
    match role {
        SpecialRole::Constructor => method.is_constructor,
        SpecialRole::Fallback => method.is_fallback,
        SpecialRole::Receive => method.is_receive,
    }
}

/// The first method of `methods` that has the role `role`.
pub open spec fn first_with_role(methods: Seq<MethodModel>, role: SpecialRole) -> Option<
    MethodModel,
>
    decreases methods.len(),
{
    if methods.len() == 0 {
        None
    } else if has_role(methods[0], role) {
        Some(methods[0])
    } else {
        first_with_role(methods.drop_first(), role)
    }
}

/// The type that a type token names: the integer types by width, `uint` and
/// `int` for the 256-bit ones, `address`, `bool`, `string` and `bytes`; any
/// other token is kept as an unsupported type under its own name.
pub open spec fn type_of_token(token: Seq<char>) -> TypeModel {
    if token == "uint8"@ {
        TypeModel::Uint8
    } else if token == "uint16"@ {
        TypeModel::Uint16
    } else if token == "uint32"@ {
        TypeModel::Uint32
    } else if token == "uint64"@ {
        TypeModel::Uint64
    } else if token == "uint128"@ {
        TypeModel::Uint128
    } else if token == "uint256"@ || token == "uint"@ {
        TypeModel::Uint256
    } else if token == "int8"@ {
        TypeModel::Int8
    } else if token == "int16"@ {
        TypeModel::Int16
    } else if token == "int32"@ {
        TypeModel::Int32
    } else if token == "int64"@ {
        TypeModel::Int64
    } else if token == "int128"@ {
        TypeModel::Int128
    } else if token == "int256"@ || token == "int"@ {
        TypeModel::Int256
    } else if token == "address"@ {
        TypeModel::Address
    } else if token == "bool"@ {
        TypeModel::Bool
    } else if token == "string"@ {
        TypeModel::String
    } else if token == "bytes"@ {
        TypeModel::Bytes
    } else {
        TypeModel::Custom(token)
    }
}

/// The index of the first `c` in `s`, if there is one.
pub open spec fn position(s: Seq<char>, c: char) -> Option<int> {
    if s.contains(c) {
        Some(choose|i: int| first_index_of(s, c, i))
    } else {
        None
    }
}

proof fn lemma_position(s: Seq<char>, c: char, i: int)
    requires
        first_index_of(s, c, i),
    ensures
        position(s, c) == Some(i),
{
    let j = choose|j: int| first_index_of(s, c, j);
    assert(j == i) by {
        if j < i {
            assert(s[j] != c);
        } else if i < j {
            assert(s[i] != c);
        }
    }
}

/// The parameters that the comma-separated pieces declare: each piece with at
/// least two words gives one parameter, its type from the first word and its
/// name from the second.
pub open spec fn parameters_in(pieces: Seq<Seq<char>>) -> Seq<ParameterModel>
    decreases pieces.len(),
{
    if pieces.len() == 0 {
        Seq::empty()
    } else {
        let before = parameters_in(pieces.drop_last());
        let parts = words(pieces.last());
        if parts.len() >= 2 {
            before.push(ParameterModel { name: parts[1], param_type: type_of_token(parts[0]) })
        } else {
            before
        }
    }
}

/// The parameters that a line declares: those in the text between the first
/// `(` and the first `)` of the line, where the `(` comes first; none
/// otherwise.
pub open spec fn parameters_of(line: Seq<char>) -> Seq<ParameterModel> {
    match (position(line, '('), position(line, ')')) {
        (Some(open), Some(close)) => if open < close {
            parameters_in(split(line.subrange(open + 1, close), ','))
        } else {
            Seq::empty()
        },
        _ => Seq::empty(),
    }
}

/// The visibility that a line declares: the first of `public`, `external`,
/// `internal` and `private`, in this order, that occurs in it, and public
/// where none does.
pub open spec fn visibility_of(line: Seq<char>) -> MethodVisibility {
    if contains(line, "public"@) {
        MethodVisibility::Public
    } else if contains(line, "external"@) {
        MethodVisibility::External
    } else if contains(line, "internal"@) {
        MethodVisibility::Internal
    } else if contains(line, "private"@) {
        MethodVisibility::Private
    } else {
        MethodVisibility::Public
    }
}

/// The name of the function that a line declares: the last word before the
/// first `(`.
pub open spec fn function_name_of(line: Seq<char>) -> Seq<char> {
    let head = words(split(line, '(')[0]);
    if head.len() > 0 {
        head.last()
    } else {
        "unknown"@
    }
}

/// A trimmed line declares a method: it begins with `function `,
/// `constructor`, `fallback` or `receive`.
pub open spec fn is_method_line(line: Seq<char>) -> bool {
    starts_with(line, "function "@) || starts_with(line, "constructor"@) || starts_with(
        line,
        "fallback"@,
    ) || starts_with(line, "receive"@)
}

/// The method that a trimmed line declares.
pub open spec fn method_of_line(line: Seq<char>) -> MethodModel {
    let is_constructor = starts_with(line, "constructor"@);
    let is_fallback = starts_with(line, "fallback"@);
    let is_receive = starts_with(line, "receive"@);
    MethodModel {
        name: if is_constructor {
            "constructor"@
        } else if is_fallback {
            "fallback"@
        } else if is_receive {
            "receive"@
        } else {
            function_name_of(line)
        },
        parameters: parameters_of(line),
        visibility: visibility_of(line),
        is_constructor,
        is_fallback,
        is_receive,
    }
}

/// The methods that the lines declare, in order.
pub open spec fn methods_of_lines(lines: Seq<Seq<char>>) -> Seq<MethodModel>
    decreases lines.len(),
{
    if lines.len() == 0 {
        Seq::empty()
    } else {
        let before = methods_of_lines(lines.drop_last());
        let line = trim(lines.last());
        if is_method_line(line) {
            before.push(method_of_line(line))
        } else {
            before
        }
    }
}

/// The contract name that a trimmed line declares: where the line begins with
/// `contract ` its second word, without any `{` and trimmed.
pub open spec fn name_on_line(line: Seq<char>) -> Option<Seq<char>> {
    if starts_with(line, "contract "@) && words(line).len() >= 2 {
        Some(trim(without_char(words(line)[1], '{')))
    } else {
        None
    }
}

/// The name that the first line declaring a contract gives.
pub open spec fn first_contract_name(lines: Seq<Seq<char>>) -> Option<Seq<char>>
    decreases lines.len(),
{
    if lines.len() == 0 {
        None
    } else {
        match name_on_line(trim(lines[0])) {
            Some(name) => Some(name),
            None => first_contract_name(lines.drop_first()),
        }
    }
}

/// The name of the contract in `source`, and `UnknownContract` where no line
/// declares one.
pub open spec fn contract_name_of(source: Seq<char>) -> Seq<char> {
    match first_contract_name(split(source, '\n')) {
        Some(name) => name,
        None => "UnknownContract"@,
    }
}

/// The methods of the contract in `source`.
pub open spec fn methods_of(source: Seq<char>) -> Seq<MethodModel> {
    methods_of_lines(split(source, '\n'))
}

/// The surface of the contract in `source`.
pub open spec fn contract_of(source: Seq<char>) -> ContractModel {
    let methods = methods_of(source);
    ContractModel {
        name: contract_name_of(source),
        methods,
        events: Seq::empty(),
        constructor: first_with_role(methods, SpecialRole::Constructor),
        fallback: first_with_role(methods, SpecialRole::Fallback),
        receive: first_with_role(methods, SpecialRole::Receive),
    }
}

/// The scanner. It keeps no state between sources.
pub struct SolidityParser {}

impl SolidityParser {
    /// A scanner.
    pub fn new() -> (r: Self) {
        SolidityParser {  }
    }

    /// Scans `source` and gives the one contract surface found in it.
    /// `_filename` only serves diagnostics and is not read. The scan never
    /// fails.
    pub fn parse_contract(&mut self, source: &str, _filename: &str) -> (r: Result<
        Vec<ContractInfo>,
        FuzzError,
    >)
        ensures
            r matches Ok(contracts) && contracts.len() == 1 && contracts[0]@ == contract_of(
                source@,
            ),
    {
        let name = self.extract_contract_name(source);
        let methods = self.extract_methods(source);
        let constructor = Self::find_role(&methods, SpecialRole::Constructor);
        let fallback = Self::find_role(&methods, SpecialRole::Fallback);
        let receive = Self::find_role(&methods, SpecialRole::Receive);
        let info = ContractInfo {
            name,
            methods,
            events: Vec::new(),
            constructor,
            fallback,
            receive,
        };
        assert(info@.events =~= Seq::empty());
        let mut contracts: Vec<ContractInfo> = Vec::new();
        contracts.push(info);
        Ok(contracts)
    }

    /// The first method of `methods` with the role `role`, copied.
    fn find_role(methods: &Vec<ContractMethod>, role: SpecialRole) -> (r: Option<ContractMethod>)
        ensures
            optional_method_model(r) == first_with_role(method_models(methods@), role),
    {
        let ghost all = method_models(methods@);
        let mut i: usize = 0;
        assert(all.skip(0) == all);
        while i < methods.len()
            invariant
                i <= methods.len(),
                all == method_models(methods@),
                first_with_role(all, role) == first_with_role(all.skip(i as int), role),
            decreases methods.len() - i,
        {
            let m = &methods[i];
            let found = match role {
                SpecialRole::Constructor => m.is_constructor,
                SpecialRole::Fallback => m.is_fallback,
                SpecialRole::Receive => m.is_receive,
            };
            if found {
                return Some(m.clone());
            }
            assert(all.skip(i as int).drop_first() == all.skip(i + 1));
            i += 1;
        }
        None
    }

    /// Finds the name of the contract in `source`.
    pub fn extract_contract_name(&self, source: &str) -> (r: String)
        ensures
            r@ == contract_name_of(source@),
    {
        let text = chars_of(source);
        let lines = split_chars(&text, '\n');
        let ghost all = split(source@, '\n');
        let mut i: usize = 0;
        assert(all.skip(0) == all);
        while i < lines.len()
            invariant
                i <= lines.len() == all.len(),
                forall|k: int| 0 <= k < lines.len() ==> (#[trigger] lines[k])@ == all[k],
                all == split(source@, '\n'),
                first_contract_name(all) == first_contract_name(all.skip(i as int)),
            decreases lines.len() - i,
        {
            let line = trim_chars(&lines[i]);
            assert(all.skip(i as int).drop_first() == all.skip(i + 1));
            if starts_with_str(&line, "contract ") {
                let parts = split_words(&line);
                if parts.len() >= 2 {
                    let name = trim_chars(&remove_char(&parts[1], '{'));
                    return string_of(&name);
                }
            }
            i += 1;
        }
        String::from_str("UnknownContract")
    }

    /// Finds the methods that the lines of `source` declare.
    pub fn extract_methods(&self, source: &str) -> (r: Vec<ContractMethod>)
        ensures
            method_models(r@) == methods_of(source@),
    {
        let text = chars_of(source);
        let lines = split_chars(&text, '\n');
        let ghost all = split(source@, '\n');
        let mut methods: Vec<ContractMethod> = Vec::new();
        let mut i: usize = 0;
        while i < lines.len()
            invariant
                i <= lines.len() == all.len(),
                forall|k: int| 0 <= k < lines.len() ==> (#[trigger] lines[k])@ == all[k],
                method_models(methods@) == methods_of_lines(all.take(i as int)),
            decreases lines.len() - i,
        {
            let line = trim_chars(&lines[i]);
            assert(all.take(i + 1).drop_last() == all.take(i as int));
            if starts_with_str(&line, "function ") || starts_with_str(&line, "constructor")
                || starts_with_str(&line, "fallback") || starts_with_str(&line, "receive") {
                let method = self.method_from_chars(&line);
                methods.push(method);
            }
            i += 1;
        }
        assert(all.take(lines.len() as int) == all);
        methods
    }

    /// Reads the method that a trimmed line declares. The number of the
    /// line and the other lines are not read.
    pub fn parse_method_from_line(&self, line: &str, _line_num: usize, _all_lines: &[&str]) -> (r:
        ContractMethod)
        ensures
            r@ == method_of_line(line@),
    {
        self.method_from_chars(&chars_of(line))
    }

    fn method_from_chars(&self, line: &Vec<char>) -> (r: ContractMethod)
        ensures
            r@ == method_of_line(line@),
    {
        let is_constructor = starts_with_str(line, "constructor");
        let is_fallback = starts_with_str(line, "fallback");
        let is_receive = starts_with_str(line, "receive");
        let name = if is_constructor {
            String::from_str("constructor")
        } else if is_fallback {
            String::from_str("fallback")
        } else if is_receive {
            String::from_str("receive")
        } else {
            let pieces = split_chars(line, '(');
            let head = split_words(&pieces[0]);
            if head.len() > 0 {
                string_of(&head[head.len() - 1])
            } else {
                String::from_str("unknown")
            }
        };
        let visibility = if contains_str(line, "public") {
            MethodVisibility::Public
        } else if contains_str(line, "external") {
            MethodVisibility::External
        } else if contains_str(line, "internal") {
            MethodVisibility::Internal
        } else if contains_str(line, "private") {
            MethodVisibility::Private
        } else {
            MethodVisibility::Public
        };
        let parameters = self.parameters_from_chars(line);
        ContractMethod { name, parameters, visibility, is_constructor, is_fallback, is_receive }
    }

    /// Reads the parameters that a line declares.
    pub fn extract_parameters_from_line(&self, line: &str) -> (r: Vec<MethodParameter>)
        ensures
            parameter_models(r@) == parameters_of(line@),
    {
        self.parameters_from_chars(&chars_of(line))
    }

    fn parameters_from_chars(&self, line: &Vec<char>) -> (r: Vec<MethodParameter>)
        ensures
            parameter_models(r@) == parameters_of(line@),
    {
        let mut parameters: Vec<MethodParameter> = Vec::new();
        let open = match find_char(line, '(') {
            Some(i) => i,
            None => {
                return parameters;
            },
        };
        let close = match find_char(line, ')') {
            Some(i) => i,
            None => {
                return parameters;
            },
        };
        proof {
            lemma_position(line@, '(', open as int);
            lemma_position(line@, ')', close as int);
        }
        if open >= close {
            return parameters;
        }
        let inner = slice_of(line, open + 1, close);
        let pieces = split_chars(&inner, ',');
        let ghost all = split(inner@, ',');
        let mut i: usize = 0;
        while i < pieces.len()
            invariant
                i <= pieces.len() == all.len(),
                forall|k: int| 0 <= k < pieces.len() ==> (#[trigger] pieces[k])@ == all[k],
                parameter_models(parameters@) == parameters_in(all.take(i as int)),
            decreases pieces.len() - i,
        {
            assert(all.take(i + 1).drop_last() == all.take(i as int));
            let parts = split_words(&pieces[i]);
            if parts.len() >= 2 {
                let parameter = MethodParameter {
                    name: string_of(&parts[1]),
                    param_type: self.parse_type_from_chars(&parts[0]),
                };
                parameters.push(parameter);
            }
            i += 1;
        }
        assert(all.take(pieces.len() as int) == all);
        parameters
    }

    /// The type that a type token names.
    pub fn parse_type_from_string(&self, type_str: &str) -> (r: SolidityType)
        ensures
            r@ == type_of_token(type_str@),
    {
        self.parse_type_from_chars(&chars_of(type_str))
    }

    fn parse_type_from_chars(&self, token: &Vec<char>) -> (r: SolidityType)
        ensures
            r@ == type_of_token(token@),
    {
        if eq_str(token, "uint8") {
            SolidityType::Uint8
        } else if eq_str(token, "uint16") {
            SolidityType::Uint16
        } else if eq_str(token, "uint32") {
            SolidityType::Uint32
        } else if eq_str(token, "uint64") {
            SolidityType::Uint64
        } else if eq_str(token, "uint128") {
            SolidityType::Uint128
        } else if eq_str(token, "uint256") || eq_str(token, "uint") {
            SolidityType::Uint256
        } else if eq_str(token, "int8") {
            SolidityType::Int8
        } else if eq_str(token, "int16") {
            SolidityType::Int16
        } else if eq_str(token, "int32") {
            SolidityType::Int32
        } else if eq_str(token, "int64") {
            SolidityType::Int64
        } else if eq_str(token, "int128") {
            SolidityType::Int128
        } else if eq_str(token, "int256") || eq_str(token, "int") {
            SolidityType::Int256
        } else if eq_str(token, "address") {
            SolidityType::Address
        } else if eq_str(token, "bool") {
            SolidityType::Bool
        } else if eq_str(token, "string") {
            SolidityType::String
        } else if eq_str(token, "bytes") {
            SolidityType::Bytes
        } else {
            SolidityType::Custom(string_of(token))
        }
    }
}

} // verus!
