//! A script property that the editor must assign before the script uses it.
use vstd::prelude::*;

verus! {

enum ValueState<T> {
    Invalid,
    Valid(T),
}

/// A property whose value is set in the editor. Until it is set, it holds
/// no value and reading it is not allowed.
pub struct OnEditor<T> {
    value: ValueState<T>,
}

impl<T> View for OnEditor<T> {
    type V = Option<T>;

    closed spec fn view(&self) -> Option<T> {
        match self.value {
            ValueState::Invalid => None,
            ValueState::Valid(v) => Some(v),
        }
    }
}

impl<T> Default for OnEditor<T> {
    fn default() -> (r: Self)
        ensures
            r@ is None,
    {
        OnEditor { value: ValueState::Invalid }
    }
}

impl<T> OnEditor<T> {
    /// A property that holds no value yet.
    pub fn new() -> (r: Self)
        ensures
            r@ is None,
    {
        OnEditor { value: ValueState::Invalid }
    }

    /// The value that the property holds, if any: what the engine reads.
    pub fn var_get(&self) -> (r: Option<&T>)
        ensures
            match r {
                None => self@ is None,
                Some(v) => self@ == Some(*v),
            },
    {
        match self.value {
            ValueState::Invalid => None,
            ValueState::Valid(ref value) => Some(value),
        }
    }

    /// Stores what the engine writes: a value, or nothing.
    pub fn var_set(&mut self, value: Option<T>)
        ensures
            final(self)@ == value,
    {
        match value {
            Some(value) => self.value = ValueState::Valid(value),
            None => self.value = ValueState::Invalid,
        }
    }

    /// Whether the property holds a value.
    pub fn is_initialized(&self) -> (r: bool)
        ensures
            r == (self@ is Some),
    {
        match self.value {
            ValueState::Invalid => false,
            ValueState::Valid(_) => true,
        }
    }

    /// The value of an initialized property.
    pub fn get(&self) -> (r: &T)
        requires
            self@ is Some,
        ensures
            Some(*r) == self@,
    {
        match self.value {
            ValueState::Valid(ref value) => value,
            ValueState::Invalid => vstd::pervasive::unreached(),
        }
    }

    /// Mutable access to the value of an initialized property.
    pub fn get_mut(&mut self) -> (r: &mut T)
        requires
            old(self)@ is Some,
        ensures
            Some(*r) == old(self)@,
            final(self)@ == Some(*final(r)),
    {
        match self.value {
            ValueState::Valid(ref mut value) => value,
            ValueState::Invalid => vstd::pervasive::unreached(),
        }
    }
}

} // verus!
