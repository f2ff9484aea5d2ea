use vstd::prelude::*;

verus! {

/// The maximum number of characters a [`MiniString`] can hold.
pub const MAXIMUM_STRING_SIZE: usize = 64;

/// The error returned when a [`MiniString`] cannot hold more text.
#[derive(Debug, Clone, Copy, PartialEq, Eq, Structural)]
pub struct CapacityError;

/// A string with a bounded number of characters.
#[derive(Debug)]
pub struct MiniString {
    text: String,
}

impl View for MiniString {
    type V = Seq<char>;

    closed spec fn view(&self) -> Seq<char> {
        self.text@
    }
}

impl MiniString {
    #[verifier::type_invariant]
    spec fn bounded(self) -> bool {
        self.text@.len() <= MAXIMUM_STRING_SIZE
    }

    /// Creates an empty [`MiniString`].
    pub fn empty() -> (r: Self)
        ensures
            r@ == Seq::<char>::empty(),
    {
        MiniString { text: String::new() }
    }

    /// Every [`MiniString`] holds at most [`MAXIMUM_STRING_SIZE`] characters.
    pub fn len(&self) -> (r: usize)
        ensures
            r == self@.len(),
            r <= MAXIMUM_STRING_SIZE,
    {
        proof {
            use_type_invariant(self);
        }
        self.text.as_str().unicode_len()
    }

    /// Returns whether the string is empty.
    pub fn is_empty(&self) -> (r: bool)
        ensures
            r == (self@.len() == 0),
    {
        self.len() == 0
    }

    /// Appends `text` when the result fits in [`MAXIMUM_STRING_SIZE`]
    /// characters; otherwise leaves the string unchanged and returns an
    /// error.
    pub fn push(&mut self, text: &str) -> (r: Result<(), CapacityError>)
        ensures
            r is Ok <==> old(self)@.len() + text@.len() <= MAXIMUM_STRING_SIZE,
            r is Ok ==> final(self)@ == old(self)@ + text@,
            r is Err ==> final(self)@ == old(self)@,
    {
        let len = self.len();
        let extra = text.unicode_len();
        if extra <= MAXIMUM_STRING_SIZE - len {
            let mut s = String::new();
            std::mem::swap(&mut s, &mut self.text);
            s.append(text);
            self.text = s;
            Ok(())
        } else {
            Err(CapacityError)
        }
    }

    /// Returns the string as a slice.
    pub fn as_str(&self) -> (r: &str)
        ensures
            r@ == self@,
    {
        self.text.as_str()
    }
}

}
