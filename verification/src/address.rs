use vstd::prelude::*;

verus! {

/// A postal address. Any field may be empty text; no validation is done.
#[derive(Debug)]
pub struct Address {
    pub country: String,
    pub state: String,
    pub city: String,
}

/// Ghost mirror of `Address`: each text field as its character sequence.
#[verifier::ext_equal]
pub struct AddressView {
    pub country: Seq<char>,
    pub state: Seq<char>,
    pub city: Seq<char>,
}

impl AddressView {
    /// The view of the default address: every field is empty text.
    pub open spec fn empty() -> AddressView {
        AddressView {
            country: Seq::empty(),
            state: Seq::empty(),
            city: Seq::empty(),
        }
    }
}

impl View for Address {
    type V = AddressView;

    open spec fn view(&self) -> AddressView {
        AddressView {
            country: self.country@,
            state: self.state@,
            city: self.city@,
        }
    }
}

impl Clone for Address {
    /// A clone carries the exact same text in every field.
    fn clone(&self) -> (r: Self)
        ensures
            r@ == self@,
    {
        Address {
            country: self.country.clone(),
            state: self.state.clone(),
            city: self.city.clone(),
        }
    }
}

impl Default for Address {
    /// The default address has empty country, state and city.
    fn default() -> (r: Self)
        ensures
            r@ == AddressView::empty(),
    {
        Address {
            country: String::new(),
            state: String::new(),
            city: String::new(),
        }
    }
}

} // verus!
