use vstd::prelude::*;

verus! {

/// The name of a device, unique within the simulation that holds it.
#[derive(Debug, Clone, PartialEq, Eq)]
pub struct DeviceName(pub String);

impl View for DeviceName {
    type V = Seq<char>;

    open spec fn view(&self) -> Seq<char> {
        self.0@
    }
}

impl DeviceName {
    pub fn new(name: String) -> (r: Self)
        ensures
            r@ == name@,
    {
        DeviceName(name)
    }

    pub fn as_str(&self) -> (r: &str)
        ensures
            r@ == self@,
    {
        self.0.as_str()
    }
}

} // verus!
