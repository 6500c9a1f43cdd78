//! A method call received on a method channel.
use vstd::prelude::*;

verus! {

/// A call of the method named `method`, with optional arguments.
pub struct MethodCall<T> {
    method: String,
    arguments: Option<Box<T>>,
}

impl<T> MethodCall<T> {
    /// The method's name.
    pub closed spec fn spec_method(&self) -> Seq<char> {
        self.method@
    }

    /// The call's arguments.
    pub closed spec fn spec_arguments(&self) -> Option<T> {
        match self.arguments {
            Some(b) => Some(*b),
            None => None,
        }
    }

    pub fn new(method: String, arguments: Option<Box<T>>) -> (r: Self)
        ensures
            r.spec_method() == method@,
            r.spec_arguments() == (match arguments {
                Some(b) => Some(*b),
                None => None,
            }),
    {
        MethodCall { method, arguments }
    }

    pub fn method(&self) -> (r: &str)
        ensures
            r@ == self.spec_method(),
    {
        self.method.as_str()
    }

    pub fn arguments(&self) -> (r: Option<&T>)
        ensures
            r == (match self.spec_arguments() {
                Some(a) => Some(&a),
                None => None,
            }),
    {
        match &self.arguments {
            Some(b) => Some(&**b),
            None => None,
        }
    }
}

} // verus!
