use vstd::prelude::*;

use crate::text::str_eq;

verus! {

/// The structure of an input: its type, its bounds and its default value.
#[allow(inconsistent_fields)]
#[derive(Debug, Clone, Copy, PartialEq, Eq, Structural)]
pub enum InputStructure {
    /// A boolean value.
    Bool {
        /// Default value.
        default: bool,
    },
    /// An unsigned integer.
    U64 {
        /// Default value.
        default: u64,
    },
    /// An unsigned integer within a range.
    RangeU64 {
        /// Minimum value.
        min: u64,
        /// Maximum value.
        max: u64,
        /// Step between two values.
        step: u64,
        /// Default value.
        default: u64,
    },
    /// A stream of bytes.
    ByteStream,
}

/// An input of a route: a named argument of a device action.
#[derive(Debug)]
pub struct Input {
    /// Name.
    pub name: String,
    /// Structure.
    pub structure: InputStructure,
}

impl Clone for Input {
    fn clone(&self) -> (r: Self)
        ensures
            r == *self,
    {
        Input { name: self.name.clone(), structure: self.structure }
    }
}

impl Input {
    /// Creates a boolean [`Input`].
    pub fn bool(name: &str, default: bool) -> (r: Self)
        ensures
            r.name@ == name@,
            r.structure == (InputStructure::Bool { default }),
    {
        Input { name: String::from_str(name), structure: InputStructure::Bool { default } }
    }

    /// Creates an unsigned integer [`Input`].
    pub fn u64(name: &str, default: u64) -> (r: Self)
        ensures
            r.name@ == name@,
            r.structure == (InputStructure::U64 { default }),
    {
        Input { name: String::from_str(name), structure: InputStructure::U64 { default } }
    }

    /// Creates a ranged unsigned integer [`Input`] whose default value is
    /// the minimum of the range `(min, max, step)`.
    pub fn rangeu64(name: &str, range: (u64, u64, u64)) -> (r: Self)
        ensures
            r.name@ == name@,
            r.structure == (InputStructure::RangeU64 {
                min: range.0,
                max: range.1,
                step: range.2,
                default: range.0,
            }),
    {
        Self::rangeu64_with_default(name, range, range.0)
    }

    /// Creates a ranged unsigned integer [`Input`] with a default value.
    pub fn rangeu64_with_default(name: &str, range: (u64, u64, u64), default: u64) -> (r: Self)
        ensures
            r.name@ == name@,
            r.structure == (InputStructure::RangeU64 {
                min: range.0,
                max: range.1,
                step: range.2,
                default,
            }),
    {
        Input {
            name: String::from_str(name),
            structure: InputStructure::RangeU64 { min: range.0, max: range.1, step: range.2, default },
        }
    }

    /// Creates a byte stream [`Input`].
    pub fn byte_stream(name: &str) -> (r: Self)
        ensures
            r.name@ == name@,
            r.structure == InputStructure::ByteStream,
    {
        Input { name: String::from_str(name), structure: InputStructure::ByteStream }
    }
}

/// The names of a sequence of inputs.
pub open spec fn input_names(s: Seq<Input>) -> Seq<Seq<char>> {
    s.map_values(|i: Input| i.name@)
}

/// Whether an input called `name` occurs in `s`.
pub open spec fn has_input(s: Seq<Input>, name: Seq<char>) -> bool {
    exists|i: int| 0 <= i < s.len() && s[i].name@ == name
}

/// The position of an input called `name` in `s`.
pub open spec fn input_index(s: Seq<Input>, name: Seq<char>) -> int {
    choose|i: int| 0 <= i < s.len() && s[i].name@ == name
}

/// The sequence obtained by appending `input` to `s` when no input of `s`
/// has its name.
pub open spec fn inputs_insert(s: Seq<Input>, input: Input) -> Seq<Input> {
    if has_input(s, input.name@) { s } else { s.push(input) }
}

/// An ordered collection of inputs with distinct names.
///
/// Inputs keep their insertion order; adding an input whose name is already
/// present leaves the collection unchanged.
#[derive(Debug)]
pub struct Inputs {
    inputs: Vec<Input>,
}

impl View for Inputs {
    type V = Seq<Input>;

    closed spec fn view(&self) -> Seq<Input> {
        self.inputs@
    }
}

impl Clone for Inputs {
    fn clone(&self) -> (r: Self)
        ensures
            r@ == self@,
    {
        proof {
            use_type_invariant(self);
        }
        let mut inputs: Vec<Input> = Vec::new();
        let mut i: usize = 0;
        while i < self.inputs.len()
            invariant
                0 <= i <= self.inputs@.len(),
                inputs@ == self.inputs@.take(i as int),
            decreases self.inputs@.len() - i,
        {
            inputs.push(self.inputs[i].clone());
            assert(inputs@ == self.inputs@.take(i + 1));
            i = i + 1;
        }
        assert(inputs@ == self.inputs@);
        Inputs { inputs }
    }
}

impl Inputs {
    #[verifier::type_invariant]
    spec fn distinct_names(self) -> bool {
        input_names(self.inputs@).no_duplicates()
    }

    /// Creates an empty collection of inputs.
    pub fn new() -> (r: Self)
        ensures
            r@ == Seq::<Input>::empty(),
    {
        Inputs { inputs: Vec::new() }
    }

    /// Returns whether the collection holds no input.
    pub fn is_empty(&self) -> (r: bool)
        ensures
            r == (self@.len() == 0),
    {
        self.inputs.len() == 0
    }

    /// Returns the number of inputs.
    pub fn len(&self) -> (r: usize)
        ensures
            r == self@.len(),
    {
        self.inputs.len()
    }

    /// Returns the input at position `index`.
    pub fn get(&self, index: usize) -> (r: &Input)
        requires
            index < self@.len(),
        ensures
            *r == self@[index as int],
    {
        &self.inputs[index]
    }

    /// Returns the position of the input called `name`, if any.
    pub fn position(&self, name: &str) -> (r: Option<usize>)
        ensures
            match r {
                Some(i) => i < self@.len() && self@[i as int].name@ == name@
                    && i == input_index(self@, name@),
                None => !has_input(self@, name@),
            },
    {
        proof {
            use_type_invariant(self);
        }
        let mut i: usize = 0;
        while i < self.inputs.len()
            invariant
                0 <= i <= self.inputs@.len(),
                forall|j: int| 0 <= j < i ==> self.inputs@[j].name@ != name@,
                input_names(self.inputs@).no_duplicates(),
            decreases self.inputs@.len() - i,
        {
            if str_eq(self.inputs[i].name.as_str(), name) {
                proof {
                    assert(self.inputs@[i as int].name@ == name@);
                    assert(exists|j: int| 0 <= j < self.inputs@.len() && self.inputs@[j].name@ == name@);
                    let k = input_index(self.inputs@, name@);
                    assert(0 <= k < self.inputs@.len() && self.inputs@[k].name@ == name@);
                    let names = input_names(self.inputs@);
                    assert(names[i as int] == name@);
                    assert(names[k] == name@);
                    assert(names.no_duplicates());
                    if k != i {
                        assert(names[k] != names[i as int]);
                    }
                }
                return Some(i);
            }
            i = i + 1;
        }
        None
    }

    /// Adds `input` when no input with the same name is present.
    pub fn add(&mut self, input: Input)
        ensures
            final(self)@ == inputs_insert(old(self)@, input),
    {
        proof {
            use_type_invariant(&*self);
        }
        if self.position(input.name.as_str()).is_none() {
            let mut inputs = Vec::new();
            std::mem::swap(&mut inputs, &mut self.inputs);
            let ghost before = inputs@;
            inputs.push(input);
            assert(input_names(inputs@) == input_names(before).push(input.name@));
            assert(input_names(inputs@).no_duplicates()) by {
                let names = input_names(inputs@);
                assert forall|i: int, j: int|
                    0 <= i < names.len() && 0 <= j < names.len() && i != j
                    implies names[i] != names[j] by {
                    if i == names.len() - 1 {
                        assert(names[j] == before[j].name@);
                    } else if j == names.len() - 1 {
                        assert(names[i] == before[i].name@);
                    }
                }
            }
            self.inputs = inputs;
        }
    }

    /// Returns the collection with `input` added when no input with the same
    /// name is present.
    pub fn insert(self, input: Input) -> (r: Self)
        ensures
            r@ == inputs_insert(self@, input),
    {
        let mut inputs = self;
        inputs.add(input);
        inputs
    }
}

}
