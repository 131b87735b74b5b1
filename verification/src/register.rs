use vstd::prelude::*;

verus! {

/// An 8-bit register that can be read and loaded as a whole.
pub trait Register {
    /// The byte the register holds.
    spec fn value(&self) -> u8;

    /// Reads the register.
    fn get(&self) -> (data: u8)
        ensures
            data == self.value(),
    ;

    /// Replaces the register's contents with `r_prime`.
    fn load(&mut self, r_prime: u8)
        ensures
            final(self).value() == r_prime,
    ;
}

/// One of the general-purpose 8-bit registers as a value of its own.
#[derive(Clone, Copy, Debug, PartialEq, Eq, Structural)]
pub struct GeneralPurposeRegister {
    pub value: u8,
}

impl Register for GeneralPurposeRegister {
    open spec fn value(&self) -> u8 {
        self.value
    }

    fn get(&self) -> (data: u8) {
        self.value
    }

    fn load(&mut self, r_prime: u8) {
        self.value = r_prime;
    }
}

impl GeneralPurposeRegister {
    /// A register that holds 0.
    pub fn new() -> (register: GeneralPurposeRegister)
        ensures
            register.value == 0,
    {
        GeneralPurposeRegister { value: 0 }
    }
}

} // verus!
