use vstd::prelude::*;

verus! {

/// The outcome of validating a value read from an untrusted document.
#[derive(Copy, Clone, Debug, PartialEq, Eq)]
pub enum Checked<T> {
    /// The value was recognised.
    Valid(T),
    /// The value was not recognised.
    Invalid,
}

impl<T> Checked<T> {
    /// Whether the value was recognised.
    pub fn is_valid(&self) -> (r: bool)
        ensures
            r == (*self is Valid),
    {
        match self {
            Checked::Valid(_) => true,
            Checked::Invalid => false,
        }
    }

    /// Returns the recognised value; calling it on `Invalid` is a contract
    /// violation of the caller.
    pub fn unwrap(self) -> (r: T)
        requires
            self is Valid,
        ensures
            self == Checked::Valid(r),
    {
        match self {
            Checked::Valid(v) => v,
            Checked::Invalid => vstd::pervasive::unreached(),
        }
    }
}

} // verus!
