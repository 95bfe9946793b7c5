use vstd::prelude::*;

verus! {

/// An authenticated party, identified by its textual address.
pub struct Principal {
    address: String,
}

impl View for Principal {
    type V = Seq<char>;

    closed spec fn view(&self) -> Seq<char> {
        self.address@
    }
}

impl Principal {
    /// A principal identified by `address`.
    pub fn new(address: &str) -> (r: Principal)
        ensures
            r@ == address@,
    {
        Principal { address: String::from_str(address) }
    }

    /// The textual address of this principal.
    pub fn address(&self) -> (r: &str)
        ensures
            r@ == self@,
    {
        self.address.as_str()
    }

    /// A second principal with the same address.
    pub fn duplicate(&self) -> (r: Principal)
        ensures
            r@ == self@,
    {
        Principal { address: self.address.clone() }
    }
}

impl PartialEq for Principal {
    fn eq(&self, other: &Principal) -> (r: bool) {
        self.address == other.address
    }
}

impl vstd::std_specs::cmp::PartialEqSpecImpl for Principal {
    open spec fn obeys_eq_spec() -> bool {
        true
    }

    open spec fn eq_spec(&self, other: &Principal) -> bool {
        self@ == other@
    }
}

} // verus!
