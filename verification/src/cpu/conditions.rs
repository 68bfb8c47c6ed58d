//! The conditions a branch can depend on.

use vstd::prelude::*;
use crate::cpu::register::Flags;
use crate::cpu::CPU;

verus! {

/// The condition of a branch: none, or a state of Z or C.
#[derive(PartialEq, Eq, Structural, Debug, Clone, Copy)]
pub enum ConditionType {
    NONE,
    NZ,
    Z,
    NC,
    C,
}

impl ConditionType {
    /// Whether the condition holds of the given flags; no condition always
    /// holds.
    pub open spec fn holds(self, flags: Flags) -> bool {
        match self {
            ConditionType::NONE => true,
            ConditionType::NZ => !flags.z,
            ConditionType::Z => flags.z,
            ConditionType::NC => !flags.c,
            ConditionType::C => flags.c,
        }
    }

    /// Says whether the condition holds of the flags of `cpu`.
    pub fn check(&self, cpu: &CPU) -> (taken: bool)
        ensures
            taken == self.holds(cpu@.register.flags()),
    {
        let register = cpu.registers();
        match self {
            ConditionType::NONE => true,
            ConditionType::NZ => !register.z_flag(),
            ConditionType::Z => register.z_flag(),
            ConditionType::NC => !register.c_flag(),
            ConditionType::C => register.c_flag(),
        }
    }
}

} // verus!
