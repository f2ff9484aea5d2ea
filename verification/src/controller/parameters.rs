use vstd::prelude::*;

use crate::controller::error::{Error, ErrorKind};
use crate::input::{has_input, Input, InputStructure, Inputs};
use crate::text::{decimal, str_eq, u64_to_string};

verus! {

/// A value given to a request parameter.
#[derive(Debug, Clone, Copy, PartialEq, Eq, Structural)]
pub enum ParameterValue {
    /// A boolean value.
    Bool(bool),
    /// An unsigned integer.
    U64(u64),
}

/// The text of a parameter value as it is written in a request.
pub open spec fn value_text(v: ParameterValue) -> Seq<char> {
    match v {
        ParameterValue::Bool(true) => seq!['t', 'r', 'u', 'e'],
        ParameterValue::Bool(false) => seq!['f', 'a', 'l', 's', 'e'],
        ParameterValue::U64(n) => decimal(n as nat),
    }
}

/// The value an input takes when no value is given for it; a byte stream
/// has none.
pub open spec fn default_value(s: InputStructure) -> Option<ParameterValue> {
    match s {
        InputStructure::Bool { default } => Some(ParameterValue::Bool(default)),
        InputStructure::U64 { default } => Some(ParameterValue::U64(default)),
        InputStructure::RangeU64 { default, .. } => Some(ParameterValue::U64(default)),
        InputStructure::ByteStream => None,
    }
}

/// Whether a value has the type an input expects.
pub open spec fn value_fits(v: ParameterValue, s: InputStructure) -> bool {
    match (v, s) {
        (ParameterValue::Bool(_), InputStructure::Bool { .. }) => true,
        (ParameterValue::U64(_), InputStructure::U64 { .. }) => true,
        (ParameterValue::U64(_), InputStructure::RangeU64 { .. }) => true,
        _ => false,
    }
}

/// The name of the type an input expects.
pub open spec fn expected_type(s: InputStructure) -> Seq<char> {
    match s {
        InputStructure::Bool { .. } => seq!['b', 'o', 'o', 'l'],
        InputStructure::U64 { .. } => seq!['u', '6', '4'],
        InputStructure::RangeU64 { .. } => seq!['u', '6', '4'],
        InputStructure::ByteStream => seq!['b', 'y', 't', 'e', 's'],
    }
}

/// Returns the text of a parameter value.
pub fn value_as_string(v: ParameterValue) -> (r: String)
    ensures
        r@ == value_text(v),
{
    match v {
        ParameterValue::Bool(b) => {
            if b {
                proof { reveal_strlit("true"); }
                String::from_str("true")
            } else {
                proof { reveal_strlit("false"); }
                String::from_str("false")
            }
        },
        ParameterValue::U64(n) => u64_to_string(n),
    }
}

/// Returns the value an input takes when no value is given for it.
pub fn convert_to_parameter_value(s: InputStructure) -> (r: Option<ParameterValue>)
    ensures
        r == default_value(s),
{
    match s {
        InputStructure::Bool { default } => Some(ParameterValue::Bool(default)),
        InputStructure::U64 { default } => Some(ParameterValue::U64(default)),
        InputStructure::RangeU64 { default, .. } => Some(ParameterValue::U64(default)),
        InputStructure::ByteStream => None,
    }
}

fn fits(v: ParameterValue, s: InputStructure) -> (r: bool)
    ensures
        r == value_fits(v, s),
{
    match (v, s) {
        (ParameterValue::Bool(_), InputStructure::Bool { .. }) => true,
        (ParameterValue::U64(_), InputStructure::U64 { .. }) => true,
        (ParameterValue::U64(_), InputStructure::RangeU64 { .. }) => true,
        _ => false,
    }
}

fn expected_type_str(s: InputStructure) -> (r: &'static str)
    ensures
        r@ == expected_type(s),
{
    match s {
        InputStructure::Bool { .. } => {
            proof { reveal_strlit("bool"); }
            "bool"
        },
        InputStructure::U64 { .. } => {
            proof { reveal_strlit("u64"); }
            "u64"
        },
        InputStructure::RangeU64 { .. } => {
            proof { reveal_strlit("u64"); }
            "u64"
        },
        InputStructure::ByteStream => {
            proof { reveal_strlit("bytes"); }
            "bytes"
        },
    }
}

/// A named parameter value.
#[derive(Debug)]
pub struct Parameter {
    /// Name.
    pub name: String,
    /// Value.
    pub value: ParameterValue,
}

/// The names of a sequence of parameters.
pub open spec fn parameter_names(s: Seq<Parameter>) -> Seq<Seq<char>> {
    s.map_values(|p: Parameter| p.name@)
}

/// The value given for `name` in `s`, if any.
pub open spec fn given_value(s: Seq<(Seq<char>, ParameterValue)>, name: Seq<char>) -> Option<ParameterValue>
    decreases s.len(),
{
    if s.len() == 0 {
        None
    } else if s.last().0 == name {
        Some(s.last().1)
    } else {
        given_value(s.drop_last(), name)
    }
}

/// The parameters of `s` after setting `name` to `value`: the value of a
/// parameter already present is replaced in place, a new parameter is
/// appended.
pub open spec fn parameters_set(s: Seq<(Seq<char>, ParameterValue)>, name: Seq<char>, value: ParameterValue) -> Seq<(Seq<char>, ParameterValue)> {
    if exists|i: int| 0 <= i < s.len() && s[i].0 == name {
        s.map_values(|p: (Seq<char>, ParameterValue)| if p.0 == name { (p.0, value) } else { p })
    } else {
        s.push((name, value))
    }
}

/// The pairs of names and values of a sequence of parameters.
pub open spec fn parameter_pairs(s: Seq<Parameter>) -> Seq<(Seq<char>, ParameterValue)> {
    s.map_values(|p: Parameter| (p.name@, p.value))
}

/// The values given to the parameters of a request, by name.
///
/// Parameters keep their insertion order; setting a parameter that is
/// already present replaces its value.
#[derive(Debug)]
pub struct Parameters {
    parameters: Vec<Parameter>,
}

impl View for Parameters {
    type V = Seq<(Seq<char>, ParameterValue)>;

    closed spec fn view(&self) -> Seq<(Seq<char>, ParameterValue)> {
        parameter_pairs(self.parameters@)
    }
}

impl Parameters {
    #[verifier::type_invariant]
    spec fn distinct_names(self) -> bool {
        parameter_names(self.parameters@).no_duplicates()
    }

    /// Creates an empty collection of parameters.
    pub fn new() -> (r: Self)
        ensures
            r@ == Seq::<(Seq<char>, ParameterValue)>::empty(),
    {
        let r = Parameters { parameters: Vec::new() };
        assert(r@ =~= Seq::<(Seq<char>, ParameterValue)>::empty());
        r
    }

    /// Returns whether no parameter is given.
    pub fn is_empty(&self) -> (r: bool)
        ensures
            r == (self@.len() == 0),
    {
        self.parameters.len() == 0
    }

    /// Returns the number of parameters.
    pub fn len(&self) -> (r: usize)
        ensures
            r == self@.len(),
    {
        self.parameters.len()
    }

    /// Returns the parameter at position `index`.
    pub fn at(&self, index: usize) -> (r: &Parameter)
        requires
            index < self@.len(),
        ensures
            (r.name@, r.value) == self@[index as int],
    {
        &self.parameters[index]
    }

    /// Returns the value given for `name`, if any.
    pub fn get(&self, name: &str) -> (r: Option<ParameterValue>)
        ensures
            r == given_value(self@, name@),
    {
        let mut i: usize = self.parameters.len();
        assert(self@.take(i as int) == self@);
        while i > 0
            invariant
                0 <= i <= self.parameters@.len(),
                self@ == parameter_pairs(self.parameters@),
                given_value(self@, name@) == given_value(self@.take(i as int), name@),
            decreases i,
        {
            let ghost prefix = self@.take(i as int);
            assert(prefix.drop_last() == self@.take(i - 1));
            assert(prefix.last() == (self.parameters@[i - 1].name@, self.parameters@[i - 1].value));
            if str_eq(self.parameters[i - 1].name.as_str(), name) {
                return Some(self.parameters[i - 1].value);
            }
            i = i - 1;
        }
        None
    }

    /// Sets the parameter `name` to `value`.
    pub fn set(&mut self, name: &str, value: ParameterValue)
        ensures
            final(self)@ == parameters_set(old(self)@, name@, value),
    {
        proof {
            use_type_invariant(&*self);
        }
        let ghost before = self.parameters@;
        let mut parameters: Vec<Parameter> = Vec::new();
        std::mem::swap(&mut parameters, &mut self.parameters);
        let mut i: usize = 0;
        let mut found = false;
        while i < parameters.len()
            invariant
                0 <= i <= parameters@.len(),
                parameters@.len() == before.len(),
                parameter_names(parameters@) == parameter_names(before),
                parameter_names(before).no_duplicates(),
                found == (exists|j: int| 0 <= j < i && before[j].name@ == name@),
                forall|j: int| 0 <= j < parameters@.len() ==> #[trigger] parameters@[j].name@ == before[j].name@,
                forall|j: int| 0 <= j < parameters@.len() ==>
                    (#[trigger] parameters@[j]).value == (if j < i && before[j].name@ == name@ { value } else { before[j].value }),
            decreases parameters@.len() - i,
        {
            if str_eq(parameters[i].name.as_str(), name) {
                let old_name = parameters[i].name.clone();
                parameters.set(i, Parameter { name: old_name, value });
                found = true;
            }
            i = i + 1;
            assert(parameter_names(parameters@) =~= parameter_names(before));
        }
        if !found {
            parameters.push(Parameter { name: String::from_str(name), value });
            assert(parameter_names(parameters@) =~= parameter_names(before).push(name@));
            assert(parameter_names(parameters@).no_duplicates()) by {
                let names = parameter_names(parameters@);
                assert forall|a: int, b: int|
                    0 <= a < names.len() && 0 <= b < names.len() && a != b
                    implies names[a] != names[b] by {
                    if a == names.len() - 1 {
                        assert(names[b] == before[b].name@);
                    } else if b == names.len() - 1 {
                        assert(names[a] == before[a].name@);
                    }
                }
            }
            assert(parameter_pairs(parameters@) =~= parameters_set(parameter_pairs(before), name@, value));
        } else {
            assert(exists|j: int| 0 <= j < before.len() && parameter_pairs(before)[j].0 == name@) by {
                let j = choose|j: int| 0 <= j < before.len() && before[j].name@ == name@;
                assert(parameter_pairs(before)[j].0 == name@);
            }
            assert(parameter_pairs(parameters@) =~= parameters_set(parameter_pairs(before), name@, value));
        }
        self.parameters = parameters;
    }

    /// Returns the parameters with the boolean parameter `name` set to
    /// `value`.
    pub fn bool(self, name: &str, value: bool) -> (r: Self)
        ensures
            r@ == parameters_set(self@, name@, ParameterValue::Bool(value)),
    {
        let mut r = self;
        r.set(name, ParameterValue::Bool(value));
        r
    }

    /// Returns the parameters with the unsigned integer parameter `name` set
    /// to `value`.
    pub fn u64(self, name: &str, value: u64) -> (r: Self)
        ensures
            r@ == parameters_set(self@, name@, ParameterValue::U64(value)),
    {
        let mut r = self;
        r.set(name, ParameterValue::U64(value));
        r
    }
}


/// The message of an error for a parameter that no input has.
pub open spec fn missing_message(name: Seq<char>) -> Seq<char> {
    "`"@ + name + "` does not exist"@
}

/// The message of an error for a parameter whose value has the wrong type.
pub open spec fn type_message(name: Seq<char>, expected: Seq<char>) -> Seq<char> {
    "`"@ + name + "` must be of type `"@ + expected + "`"@
}

/// What is wrong with a parameter given for a request whose inputs are
/// `inputs`, if anything.
pub open spec fn parameter_problem(p: (Seq<char>, ParameterValue), inputs: Seq<Input>) -> Option<Seq<char>> {
    if !has_input(inputs, p.0) {
        Some(missing_message(p.0))
    } else {
        let structure = inputs[crate::input::input_index(inputs, p.0)].structure;
        if value_fits(p.1, structure) {
            None
        } else {
            Some(type_message(p.0, expected_type(structure)))
        }
    }
}

/// The problem of the first parameter, in order, that has one.
pub open spec fn first_problem(given: Seq<(Seq<char>, ParameterValue)>, inputs: Seq<Input>) -> Option<Seq<char>>
    decreases given.len(),
{
    if given.len() == 0 {
        None
    } else {
        match parameter_problem(given[0], inputs) {
            Some(m) => Some(m),
            None => first_problem(given.drop_first(), inputs),
        }
    }
}

/// The parameters given for a request pass the check exactly when each of
/// them names an input and has the type that input expects.
pub proof fn law_check_passes_iff_all_fit(given: Seq<(Seq<char>, ParameterValue)>, inputs: Seq<Input>)
    ensures
        first_problem(given, inputs) is None <==> forall|i: int|
            0 <= i < given.len() ==> (#[trigger] parameter_problem(given[i], inputs)) is None,
    decreases given.len(),
{
    if given.len() > 0 {
        law_check_passes_iff_all_fit(given.drop_first(), inputs);
        if first_problem(given, inputs) is None {
            assert forall|i: int| 0 <= i < given.len() implies (#[trigger] parameter_problem(given[i], inputs)) is None by {
                if i > 0 {
                    assert(given[i] == given.drop_first()[i - 1]);
                }
            }
        } else if parameter_problem(given[0], inputs) is None {
            let j = choose|j: int| 0 <= j < given.drop_first().len()
                && !(parameter_problem(given.drop_first()[j], inputs) is None);
            assert(given.drop_first()[j] == given[j + 1]);
        }
    }
}

/// A value has the type an input expects exactly when both are booleans,
/// or the value is an unsigned integer and the input an unsigned integer,
/// ranged or not. A byte stream takes no value.
pub proof fn law_value_fits_same_kind(v: ParameterValue, s: InputStructure)
    ensures
        value_fits(v, s) <==> ((v is Bool && s is Bool) || (v is U64 && (s is U64 || s is RangeU64))),
        v is U64 && s is Bool ==> !value_fits(v, s),
        v is Bool && (s is U64 || s is RangeU64) ==> !value_fits(v, s),
        s is ByteStream ==> !value_fits(v, s),
{
}

/// A parameter that names an input passes the check exactly when its value
/// has the kind of that input; otherwise its problem names the type the
/// input expects.
pub proof fn law_parameter_kind_checked(p: (Seq<char>, ParameterValue), inputs: Seq<Input>)
    requires
        has_input(inputs, p.0),
    ensures
        ({
            let s = inputs[crate::input::input_index(inputs, p.0)].structure;
            &&& parameter_problem(p, inputs) is None <==> ((p.1 is Bool && s is Bool) || (p.1 is U64 && (
                s is U64 || s is RangeU64)))
            &&& parameter_problem(p, inputs) is Some ==> parameter_problem(p, inputs) == Some(
                type_message(p.0, expected_type(s)),
            )
        }),
{
}

/// The check of the parameters given for a request fails as soon as one
/// of them has a value of another kind than the input it names, such as an
/// unsigned integer for a boolean input.
pub proof fn law_wrong_kind_fails_check(given: Seq<(Seq<char>, ParameterValue)>, inputs: Seq<Input>, k: int)
    requires
        0 <= k < given.len(),
        has_input(inputs, given[k].0),
        ({
            let s = inputs[crate::input::input_index(inputs, given[k].0)].structure;
            !((given[k].1 is Bool && s is Bool) || (given[k].1 is U64 && (s is U64 || s is RangeU64)))
        }),
    ensures
        first_problem(given, inputs) is Some,
{
    law_check_passes_iff_all_fit(given, inputs);
    assert(parameter_problem(given[k], inputs) is Some);
}

/// After a parameter is set, the value given for its name is the one set.
pub proof fn law_set_then_given(s: Seq<(Seq<char>, ParameterValue)>, name: Seq<char>, value: ParameterValue)
    ensures
        given_value(parameters_set(s, name, value), name) == Some(value),
{
    let t = parameters_set(s, name, value);
    if exists|i: int| 0 <= i < s.len() && s[i].0 == name {
        let i = choose|i: int| 0 <= i < s.len() && s[i].0 == name;
        assert(t[i].0 == name && t[i].1 == value);
        lemma_given_last_match(t, name, value, i);
    } else {
        assert(t.drop_last() == s);
    }
}

/// In a sequence where every pair named `name` holds `value`, and one
/// does, the value given for `name` is `value`.
proof fn lemma_given_last_match(t: Seq<(Seq<char>, ParameterValue)>, name: Seq<char>, value: ParameterValue, i: int)
    requires
        0 <= i < t.len(),
        t[i].0 == name,
        forall|j: int| 0 <= j < t.len() && (#[trigger] t[j]).0 == name ==> t[j].1 == value,
    ensures
        given_value(t, name) == Some(value),
    decreases t.len(),
{
    if t.last().0 != name {
        let u = t.drop_last();
        assert(u[i] == t[i]);
        assert forall|j: int| 0 <= j < u.len() && (#[trigger] u[j]).0 == name implies u[j].1 == value by {
            assert(u[j] == t[j]);
        }
        lemma_given_last_match(u, name, value, i);
    } else {
        assert(t[t.len() - 1] == t.last());
    }
}

/// Creates an [`Error`] about request parameters.
pub fn parameter_error(info: String) -> (r: Error)
    ensures
        r.kind == ErrorKind::WrongParameter,
        r.info == info,
{
    Error::new(ErrorKind::WrongParameter, info)
}

fn problem_of(p: &Parameter, inputs: &Inputs) -> (r: Option<String>)
    ensures
        match r {
            Some(m) => parameter_problem((p.name@, p.value), inputs@) == Some(m@),
            None => parameter_problem((p.name@, p.value), inputs@) is None,
        },
{
    match inputs.position(p.name.as_str()) {
        None => {
            let mut m = String::from_str("`");
            m.append(p.name.as_str());
            m.append("` does not exist");
            Some(m)
        },
        Some(i) => {
            let structure = inputs.get(i).structure;
            if fits(p.value, structure) {
                None
            } else {
                let mut m = String::from_str("`");
                m.append(p.name.as_str());
                m.append("` must be of type `");
                m.append(expected_type_str(structure));
                m.append("`");
                Some(m)
            }
        },
    }
}

impl Parameters {
    /// Checks the given parameters against the inputs of a request: each
    /// parameter must name an input and have the type that input expects.
    /// The first parameter, in order, that does not is reported.
    pub fn check_parameters(&self, inputs: &Inputs) -> (r: Result<(), Error>)
        ensures
            match first_problem(self@, inputs@) {
                None => r is Ok,
                Some(m) => r is Err && r->Err_0.kind == ErrorKind::WrongParameter && r->Err_0.info@ == m,
            },
    {
        let mut i: usize = 0;
        assert(self@.skip(0) == self@);
        while i < self.parameters.len()
            invariant
                0 <= i <= self.parameters@.len(),
                self@ == parameter_pairs(self.parameters@),
                first_problem(self@, inputs@) == first_problem(self@.skip(i as int), inputs@),
            decreases self.parameters@.len() - i,
        {
            let ghost rest = self@.skip(i as int);
            assert(rest[0] == (self.parameters@[i as int].name@, self.parameters@[i as int].value));
            assert(rest.drop_first() == self@.skip(i + 1));
            if let Some(m) = problem_of(&self.parameters[i], inputs) {
                return Err(parameter_error(m));
            }
            i = i + 1;
        }
        assert(self@.skip(i as int).len() == 0);
        Ok(())
    }
}

}
