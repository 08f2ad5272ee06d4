//! Chained composition example: three parent contracts composed into one,
//! with `foo` resolved to the composite's own implementation and the
//! parent-specific methods reachable through the components.

use vstd::prelude::*;
use crate::uint256::U256;

verus! {

/// First parent contract.
pub struct A {
    pub a_value: U256,
}

impl A {
    /// A fresh contract: storage starts at zero.
    pub fn new() -> (r: A)
        ensures
            r.a_value.as_nat() == 0,
    {
        A { a_value: U256::zero() }
    }

    /// The parent implementation that the composite shadows.
    pub fn foo(&self) -> (r: Result<(), Vec<u8>>)
        ensures
            r is Ok,
    {
        Ok(())
    }

    /// A method only this parent provides.
    pub fn a_method(&self) -> (r: Result<(), Vec<u8>>)
        ensures
            r is Ok,
    {
        Ok(())
    }
}

/// Second parent contract.
pub struct B {
    pub b_value: U256,
}

impl B {
    /// A fresh contract: storage starts at zero.
    pub fn new() -> (r: B)
        ensures
            r.b_value.as_nat() == 0,
    {
        B { b_value: U256::zero() }
    }

    /// Shadowed twice over: by the first parent's `foo` in composition
    /// order, and by the composite's own.
    pub fn foo(&self) -> (r: Result<(), Vec<u8>>)
        ensures
            r is Ok,
    {
        Ok(())
    }

    /// A method only this parent provides.
    pub fn bar(&self) -> (r: Result<(), Vec<u8>>)
        ensures
            r is Ok,
    {
        Ok(())
    }
}

/// Third parent contract.
pub struct C {
    pub c_value: U256,
}

impl C {
    /// A fresh contract: storage starts at zero.
    pub fn new() -> (r: C)
        ensures
            r.c_value.as_nat() == 0,
    {
        C { c_value: U256::zero() }
    }

    /// A method only this parent provides.
    pub fn baz(&self) -> (r: Result<(), Vec<u8>>)
        ensures
            r is Ok,
    {
        Ok(())
    }
}

/// The composite: one instance of each parent plus a value of its own.
/// Method resolution is fixed at build time: `foo` is the composite's own,
/// `a_method`, `bar` and `baz` come from their single providers.
pub struct MyContract {
    pub a: A,
    pub b: B,
    pub c: C,
    pub my_value: U256,
}

impl MyContract {
    /// A fresh composite: all storage starts at zero.
    pub fn new() -> (r: MyContract)
        ensures
            r.a.a_value.as_nat() == 0,
            r.b.b_value.as_nat() == 0,
            r.c.c_value.as_nat() == 0,
            r.my_value.as_nat() == 0,
    {
        MyContract { a: A::new(), b: B::new(), c: C::new(), my_value: U256::zero() }
    }

    /// The composite's own `foo`, shadowing both parents'.
    pub fn foo(&self) -> (r: Result<(), Vec<u8>>)
        ensures
            r is Ok,
    {
        Ok(())
    }

    /// A method only the composite provides.
    pub fn my_method(&self) -> (r: Result<(), Vec<u8>>)
        ensures
            r is Ok,
    {
        Ok(())
    }
}

} // verus!
