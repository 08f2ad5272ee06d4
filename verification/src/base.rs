//! Basic composition example: a contract holding one stored value, and a
//! child that keeps the base as a component and adds a second value of its
//! own. The base's getter and setter stay reachable through the component.

use vstd::prelude::*;
use crate::uint256::U256;

verus! {

/// A contract holding one 256-bit stored value.
pub struct BaseContract {
    value: U256,
}

impl BaseContract {
    /// The stored value.
    pub closed spec fn spec_value(self) -> nat {
        self.value.as_nat()
    }

    /// A fresh contract: storage starts at zero.
    pub fn new() -> (r: BaseContract)
        ensures
            r.spec_value() == 0,
    {
        BaseContract { value: U256::zero() }
    }

    /// Reads the stored value.
    pub fn get_value(&self) -> (r: Result<U256, Vec<u8>>)
        ensures
            r matches Ok(v) && v.as_nat() == self.spec_value(),
    {
        Ok(self.value)
    }

    /// Stores a new value.
    pub fn set_value(&mut self, new_value: U256) -> (r: Result<(), Vec<u8>>)
        ensures
            r is Ok,
            final(self).spec_value() == new_value.as_nat(),
    {
        self.value = new_value;
        Ok(())
    }
}

/// The child: the base contract as a component plus one value of its own.
pub struct ChildContract {
    pub base_contract: BaseContract,
    pub additional_value: U256,
}

impl ChildContract {
    /// The child's own stored value.
    pub closed spec fn spec_additional_value(self) -> nat {
        self.additional_value.as_nat()
    }

    /// A fresh child: both stored values start at zero.
    pub fn new() -> (r: ChildContract)
        ensures
            r.base_contract.spec_value() == 0,
            r.spec_additional_value() == 0,
    {
        ChildContract { base_contract: BaseContract::new(), additional_value: U256::zero() }
    }

    /// Reads the child's own stored value.
    pub fn get_additional_value(&self) -> (r: Result<U256, Vec<u8>>)
        ensures
            r matches Ok(v) && v.as_nat() == self.spec_additional_value(),
    {
        Ok(self.additional_value)
    }

    /// Stores a new value in the child's own slot; the base is untouched.
    pub fn set_additional_value(&mut self, new_value: U256) -> (r: Result<(), Vec<u8>>)
        ensures
            r is Ok,
            final(self).spec_additional_value() == new_value.as_nat(),
            final(self).base_contract == old(self).base_contract,
    {
        self.additional_value = new_value;
        Ok(())
    }
}

} // verus!
