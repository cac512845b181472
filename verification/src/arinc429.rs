//! Values that travel with a statement of their own validity.
//!
//! An air-data unit qualifies each value it sends with a sign/status matrix.
//! Only a value sent under normal operation may be used; for any other status
//! the receiver substitutes a value it has locally.

use vstd::prelude::*;

verus! {

/// The sign/status matrix of a transmitted word.
#[derive(Clone, Copy, Debug, PartialEq, Eq, Structural)]
pub enum SignStatus {
    FailureWarning,
    NoComputedData,
    FunctionalTest,
    NormalOperation,
}

/// A value together with the status under which it was sent.
#[derive(Debug, PartialEq, Eq)]
pub struct Arinc429Word<T> {
    pub value: T,
    pub ssm: SignStatus,
}

impl<T: Copy> Clone for Arinc429Word<T> {
    fn clone(&self) -> (w: Self)
        ensures
            w == *self,
    {
        *self
    }
}

impl<T: Copy> Copy for Arinc429Word<T> {
}

impl<T: Copy> Arinc429Word<T> {
    /// The value to use in place of this word: the word's own value where it
    /// was sent under normal operation, else `fallback`.
    pub open spec fn spec_resolve(self, fallback: T) -> T {
        if self.ssm == SignStatus::NormalOperation {
            self.value
        } else {
            fallback
        }
    }

    /// The word that carries `value` under status `ssm`.
    pub fn new(value: T, ssm: SignStatus) -> (w: Self)
        ensures
            w.value == value,
            w.ssm == ssm,
    {
        Arinc429Word { value, ssm }
    }

    /// The value as sent, whatever its status.
    pub fn value(&self) -> (v: T)
        ensures
            v == self.value,
    {
        self.value
    }

    /// The status under which the value was sent.
    pub fn ssm(&self) -> (s: SignStatus)
        ensures
            s == self.ssm,
    {
        self.ssm
    }

    /// Whether the value was sent under normal operation.
    pub fn is_normal_operation(&self) -> (b: bool)
        ensures
            b == (self.ssm == SignStatus::NormalOperation),
    {
        match self.ssm {
            SignStatus::NormalOperation => true,
            _ => false,
        }
    }

    /// Substitutes `fallback` for a value that was not sent under normal
    /// operation.
    pub fn resolve(&self, fallback: T) -> (v: T)
        ensures
            v == self.spec_resolve(fallback),
    {
        match self.ssm {
            SignStatus::NormalOperation => self.value,
            _ => fallback,
        }
    }
}

} // verus!
