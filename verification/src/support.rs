use std::rc::Rc;
use vstd::prelude::*;

verus! {

/// `<String as From<&str>>::from`: the std documentation says that it
/// converts a `&str` into a `String` holding the same characters.
pub assume_specification<'a>[ <std::string::String as From<&'a str>>::from ](s: &str) -> (res: std::string::String)
    ensures
        res@ == s@,
;

/// `<A as From<A>>::from`, the reflexive conversion of core: its
/// documentation says that it returns the argument unchanged.
pub assume_specification<A>[ <A as core::convert::From<A>>::from ](a: A) -> (res: A)
    ensures
        res == a,
;

/// Calls `Rc::clone`, which hands out another pointer to the same
/// allocation; the contract claims that the new pointer shows the same value.
#[verifier::external_body]
pub(crate) fn share(rc: &Rc<String>) -> (res: Rc<String>)
    ensures
        *res == **rc,
{
    Rc::clone(rc)
}

} // verus!
