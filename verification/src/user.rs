use vstd::prelude::*;

use crate::account_type::AccountType;
use crate::address::{Address, AddressView};

verus! {

/// A fully resolved user record: every field holds a concrete value.
/// The three name fields are required at construction; the remaining
/// fields come either from a setter call or from their type's default.
#[derive(Debug)]
pub struct User {
    pub first_name: String,
    pub last_name: String,
    pub account_number: String,
    pub account_type: AccountType,
    pub age: u8,
    pub address: Address,
}

/// Ghost mirror of `User`, with text fields as character sequences.
#[verifier::ext_equal]
pub struct UserView {
    pub first_name: Seq<char>,
    pub last_name: Seq<char>,
    pub account_number: Seq<char>,
    pub account_type: AccountType,
    pub age: u8,
    pub address: AddressView,
}

impl View for User {
    type V = UserView;

    open spec fn view(&self) -> UserView {
        UserView {
            first_name: self.first_name@,
            last_name: self.last_name@,
            account_number: self.account_number@,
            account_type: self.account_type,
            age: self.age,
            address: self.address@,
        }
    }
}

/// Staging area for a `User`: the required fields are fixed when the
/// builder is created, the optional slots stay `None` until a setter
/// fills them. Finalizing never fails and leaves the builder usable.
#[derive(Debug)]
pub struct UserBuilder {
    pub first_name: String,
    pub last_name: String,
    pub account_number: String,
    pub account_type: Option<AccountType>,
    pub age: Option<u8>,
    pub address: Option<Address>,
}

/// Ghost mirror of `UserBuilder`: an unset optional slot is `None`.
#[verifier::ext_equal]
pub struct UserBuilderView {
    pub first_name: Seq<char>,
    pub last_name: Seq<char>,
    pub account_number: Seq<char>,
    pub account_type: Option<AccountType>,
    pub age: Option<u8>,
    pub address: Option<AddressView>,
}

impl View for UserBuilder {
    type V = UserBuilderView;

    open spec fn view(&self) -> UserBuilderView {
        UserBuilderView {
            first_name: self.first_name@,
            last_name: self.last_name@,
            account_number: self.account_number@,
            account_type: self.account_type,
            age: self.age,
            address: match self.address {
                Some(ad) => Some(ad@),
                None => None,
            },
        }
    }
}

/// The builder state right after `User::new(f, l, a)`: the required
/// fields hold the given text and every optional slot is unset.
pub open spec fn fresh_builder(f: Seq<char>, l: Seq<char>, a: Seq<char>) -> UserBuilderView {
    UserBuilderView {
        first_name: f,
        last_name: l,
        account_number: a,
        account_type: None,
        age: None,
        address: None,
    }
}

/// `b` with its account-type slot overwritten.
pub open spec fn with_account_type(b: UserBuilderView, t: AccountType) -> UserBuilderView {
    UserBuilderView { account_type: Some(t), ..b }
}

/// `b` with its age slot overwritten.
pub open spec fn with_age(b: UserBuilderView, n: u8) -> UserBuilderView {
    UserBuilderView { age: Some(n), ..b }
}

/// `b` with its address slot overwritten.
pub open spec fn with_address(b: UserBuilderView, ad: AddressView) -> UserBuilderView {
    UserBuilderView { address: Some(ad), ..b }
}

/// The user a builder state finalizes to: required fields are carried
/// over verbatim; each optional slot resolves to the value it holds,
/// or to its field's default when it is unset (`Savings`, age `0`,
/// the all-empty address).
pub open spec fn resolved(b: UserBuilderView) -> UserView {
    UserView {
        first_name: b.first_name,
        last_name: b.last_name,
        account_number: b.account_number,
        account_type: match b.account_type {
            Some(t) => t,
            None => AccountType::Savings,
        },
        age: match b.age {
            Some(n) => n,
            None => 0u8,
        },
        address: match b.address {
            Some(ad) => ad,
            None => AddressView::empty(),
        },
    }
}

impl User {
    /// Begin building a user. The three required fields are taken up
    /// front, with no constraint on their contents (empty text is
    /// accepted); every optional slot starts out unset.
    pub fn new(first_name: String, last_name: String, account_number: String) -> (b: UserBuilder)
        ensures
            b@ == fresh_builder(first_name@, last_name@, account_number@),
    {
        UserBuilder {
            first_name,
            last_name,
            account_number,
            account_type: None,
            age: None,
            address: None,
        }
    }
}

impl UserBuilder {
    /// Overwrite the account-type slot; returns the builder for chaining.
    pub fn account_type(&mut self, account_type: AccountType) -> (r: &mut Self)
        ensures
            (*r)@ == with_account_type(old(self)@, account_type),
            *final(self) == *final(r),
    {
        self.account_type = Some(account_type);
        self
    }

    /// Overwrite the age slot; returns the builder for chaining.
    pub fn age(&mut self, age: u8) -> (r: &mut Self)
        ensures
            (*r)@ == with_age(old(self)@, age),
            *final(self) == *final(r),
    {
        self.age = Some(age);
        self
    }

    /// Overwrite the address slot; returns the builder for chaining.
    pub fn address(&mut self, address: Address) -> (r: &mut Self)
        ensures
            (*r)@ == with_address(old(self)@, address@),
            *final(self) == *final(r),
    {
        self.address = Some(address);
        self
    }

    /// Materialize a `User` from the builder's current state. Never
    /// fails; the builder keeps its state, so finalizing again yields
    /// a user with the same content.
    pub fn build(&mut self) -> (u: User)
        ensures
            u@ == resolved(old(self)@),
            *final(self) == *old(self),
    {
        User {
            first_name: self.first_name.clone(),
            last_name: self.last_name.clone(),
            account_number: self.account_number.clone(),
            account_type: match &self.account_type {
                Some(t) => *t,
                None => AccountType::default(),
            },
            age: match self.age {
                Some(n) => n,
                None => 0,
            },
            address: match &self.address {
                Some(ad) => ad.clone(),
                None => Address::default(),
            },
        }
    }
}

/// Finalizing a builder straight after construction yields a user that
/// carries the given required fields and has every optional field at
/// its default: `Savings`, age `0`, and the all-empty address.
pub proof fn lemma_fresh_build(f: Seq<char>, l: Seq<char>, a: Seq<char>)
    ensures
        resolved(fresh_builder(f, l, a)) == (UserView {
            first_name: f,
            last_name: l,
            account_number: a,
            account_type: AccountType::Savings,
            age: 0u8,
            address: AddressView::empty(),
        }),
{
}

/// Whatever subset of the optional slots is set, finalizing copies the
/// required fields verbatim, resolves each set slot to the value it
/// holds, and each unset slot to its field's default.
pub proof fn lemma_set_or_default(b: UserBuilderView)
    ensures
        resolved(b).first_name == b.first_name,
        resolved(b).last_name == b.last_name,
        resolved(b).account_number == b.account_number,
        b.account_type is Some ==> resolved(b).account_type == b.account_type->0,
        b.account_type is None ==> resolved(b).account_type == AccountType::Savings,
        b.age is Some ==> resolved(b).age == b.age->0,
        b.age is None ==> resolved(b).age == 0,
        b.address is Some ==> resolved(b).address == b.address->0,
        b.address is None ==> resolved(b).address == AddressView::empty(),
{
}

/// Calling the same setter twice keeps the last value: the earlier
/// write is overwritten and leaves no trace in the builder's state.
pub proof fn lemma_setter_last_wins(
    b: UserBuilderView,
    t1: AccountType,
    t2: AccountType,
    n1: u8,
    n2: u8,
    ad1: AddressView,
    ad2: AddressView,
)
    ensures
        with_account_type(with_account_type(b, t1), t2) == with_account_type(b, t2),
        with_age(with_age(b, n1), n2) == with_age(b, n2),
        with_address(with_address(b, ad1), ad2) == with_address(b, ad2),
{
}

/// Setters of distinct fields write disjoint slots, so any two of them
/// commute; hence every permutation of a set of setter calls leaves
/// the builder in the same state.
pub proof fn lemma_setters_commute(b: UserBuilderView, t: AccountType, n: u8, ad: AddressView)
    ensures
        with_age(with_account_type(b, t), n) == with_account_type(with_age(b, n), t),
        with_address(with_account_type(b, t), ad) == with_account_type(with_address(b, ad), t),
        with_address(with_age(b, n), ad) == with_age(with_address(b, ad), n),
{
}

/// Finalizing the same builder state twice, with no setter call in
/// between, produces two structurally equal users.
pub proof fn lemma_refinalize(b: UserBuilderView, u1: UserView, u2: UserView)
    requires
        u1 == resolved(b),
        u2 == resolved(b),
    ensures
        u1 == u2,
{
}

} // verus!
