use vstd::prelude::*;

verus! {

/// The kind of account a user holds.
#[derive(Clone, Copy, Debug, PartialEq, Eq, Structural)]
pub enum AccountType {
    Savings,
    Current,
}

impl Default for AccountType {
    /// An account is a savings account unless said otherwise.
    fn default() -> (r: Self)
        ensures
            r == AccountType::Savings,
    {
        AccountType::Savings
    }
}

} // verus!
