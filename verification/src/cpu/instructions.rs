//! The instruction descriptors and the two decodings: the main page of 256
//! opcodes and the page behind the prefix 0xCB.

use vstd::prelude::*;
use crate::cpu::actions::Action;
use crate::cpu::addresses::AddressMode;
use crate::cpu::conditions::ConditionType;
use crate::cpu::register::{operand, reg_lookup, RegisterType};
use crate::cpu::{CpuView, CPU};

verus! {

/// What an opcode decodes to.
#[derive(Debug, Clone, Copy, PartialEq, Eq, Structural)]
pub struct Instruction {
    pub action: Action,
    pub address: AddressMode,
    pub register_1: RegisterType,
    pub register_2: RegisterType,
    pub condition: ConditionType,
    /// The restart address of RST; the bit index of BIT, RES and SET.
    pub param: u16,
}

/// The register pair that a 2-bit field selects in loads and arithmetic.
pub open spec fn pair(p: int) -> RegisterType {
    if p == 0 {
        RegisterType::BC
    } else if p == 1 {
        RegisterType::DE
    } else if p == 2 {
        RegisterType::HL
    } else {
        RegisterType::SP
    }
}

/// The register pair that a 2-bit field selects in PUSH and POP.
pub open spec fn stack_pair(p: int) -> RegisterType {
    if p == 3 {
        RegisterType::AF
    } else {
        pair(p)
    }
}

/// The condition that a 2-bit field selects.
pub open spec fn condition(c: int) -> ConditionType {
    if c == 0 {
        ConditionType::NZ
    } else if c == 1 {
        ConditionType::Z
    } else if c == 2 {
        ConditionType::NC
    } else {
        ConditionType::C
    }
}

/// The 8-bit arithmetic that a 3-bit field selects.
pub open spec fn arithmetic(y: int) -> Action {
    if y == 0 {
        Action::ADD
    } else if y == 1 {
        Action::ADC
    } else if y == 2 {
        Action::SUB
    } else if y == 3 {
        Action::SBC
    } else if y == 4 {
        Action::AND
    } else if y == 5 {
        Action::XOR
    } else if y == 6 {
        Action::OR
    } else {
        Action::CP
    }
}

/// The operation on A and the flags that a 3-bit field selects.
pub open spec fn accumulator_op(y: int) -> Action {
    if y == 0 {
        Action::RLCA
    } else if y == 1 {
        Action::RRCA
    } else if y == 2 {
        Action::RLA
    } else if y == 3 {
        Action::RRA
    } else if y == 4 {
        Action::DAA
    } else if y == 5 {
        Action::CPL
    } else if y == 6 {
        Action::SCF
    } else {
        Action::CCF
    }
}

/// The rotate or shift that a 3-bit field selects behind the prefix.
pub open spec fn shift(y: int) -> Action {
    if y == 0 {
        Action::RLC
    } else if y == 1 {
        Action::RRC
    } else if y == 2 {
        Action::RL
    } else if y == 3 {
        Action::RR
    } else if y == 4 {
        Action::SLA
    } else if y == 5 {
        Action::SRA
    } else if y == 6 {
        Action::SWAP
    } else {
        Action::SRL
    }
}

impl Instruction {
    pub open spec fn make(
        action: Action,
        address: AddressMode,
        register_1: RegisterType,
        register_2: RegisterType,
        condition: ConditionType,
        param: u16,
    ) -> Instruction {
        Instruction { action, address, register_1, register_2, condition, param }
    }

    /// A descriptor with an action and an address mode alone.
    pub open spec fn plain(action: Action, address: AddressMode) -> Instruction {
        Instruction::make(
            action,
            address,
            RegisterType::NONE,
            RegisterType::NONE,
            ConditionType::NONE,
            0,
        )
    }

    /// A descriptor without a condition.
    pub open spec fn on(
        action: Action,
        address: AddressMode,
        register_1: RegisterType,
        register_2: RegisterType,
    ) -> Instruction {
        Instruction::make(action, address, register_1, register_2, ConditionType::NONE, 0)
    }

    /// A descriptor of a conditional branch.
    pub open spec fn branch(
        action: Action,
        address: AddressMode,
        condition: ConditionType,
    ) -> Instruction {
        Instruction::make(action, address, RegisterType::NONE, RegisterType::NONE, condition, 0)
    }

    /// What an unassigned opcode decodes to.
    pub open spec fn unassigned() -> Instruction {
        Instruction::plain(Action::NONE, AddressMode::NONE)
    }

    /// The opcode is one of the eleven that the processor does not have.
    pub open spec fn illegal(opcode: u8) -> bool {
        opcode == 0xD3 || opcode == 0xDB || opcode == 0xDD || opcode == 0xE3 || opcode == 0xE4
            || opcode == 0xEB || opcode == 0xEC || opcode == 0xED || opcode == 0xF4 || opcode
            == 0xFC || opcode == 0xFD
    }

    /// Decoding of the opcodes 0x00..=0x3F, by the fields of the opcode.
    pub open spec fn decode_low(y: int, z: int) -> Instruction {
        let p = y / 2;
        let q = y % 2;
        if z == 0 {
            if y == 0 {
                Instruction::plain(Action::NOP, AddressMode::IMP)
            } else if y == 1 {
                Instruction::on(Action::LD, AddressMode::A16R, RegisterType::NONE, RegisterType::SP)
            } else if y == 2 {
                Instruction::plain(Action::STOP, AddressMode::NONE)
            } else if y == 3 {
                Instruction::plain(Action::JR, AddressMode::D8)
            } else {
                Instruction::branch(Action::JR, AddressMode::D8, condition(y - 4))
            }
        } else if z == 1 {
            if q == 0 {
                Instruction::on(Action::LD, AddressMode::RD16, pair(p), RegisterType::NONE)
            } else {
                Instruction::on(Action::ADD, AddressMode::RR, RegisterType::HL, pair(p))
            }
        } else if z == 2 {
            if q == 0 {
                if p == 0 {
                    Instruction::on(Action::LD, AddressMode::MRR, RegisterType::BC, RegisterType::A)
                } else if p == 1 {
                    Instruction::on(Action::LD, AddressMode::MRR, RegisterType::DE, RegisterType::A)
                } else if p == 2 {
                    Instruction::on(Action::LD, AddressMode::HLIR, RegisterType::HL, RegisterType::A)
                } else {
                    Instruction::on(Action::LD, AddressMode::HLDR, RegisterType::HL, RegisterType::A)
                }
            } else {
                if p == 0 {
                    Instruction::on(Action::LD, AddressMode::RMR, RegisterType::A, RegisterType::BC)
                } else if p == 1 {
                    Instruction::on(Action::LD, AddressMode::RMR, RegisterType::A, RegisterType::DE)
                } else if p == 2 {
                    Instruction::on(Action::LD, AddressMode::RHLI, RegisterType::A, RegisterType::HL)
                } else {
                    Instruction::on(Action::LD, AddressMode::RHLD, RegisterType::A, RegisterType::HL)
                }
            }
        } else if z == 3 {
            Instruction::on(
                if q == 0 { Action::INC } else { Action::DEC },
                AddressMode::R,
                pair(p),
                RegisterType::NONE,
            )
        } else if z == 4 || z == 5 {
            Instruction::on(
                if z == 4 { Action::INC } else { Action::DEC },
                if y == 6 { AddressMode::MR } else { AddressMode::R },
                operand(y as u8),
                RegisterType::NONE,
            )
        } else if z == 6 {
            Instruction::on(
                Action::LD,
                if y == 6 { AddressMode::MRD8 } else { AddressMode::RD8 },
                operand(y as u8),
                RegisterType::NONE,
            )
        } else {
            Instruction::plain(accumulator_op(y), AddressMode::NONE)
        }
    }

    /// Decoding of the opcodes 0x40..=0x7F: the loads between registers and
    /// (HL), with HALT in the place of a load from (HL) to (HL).
    pub open spec fn decode_load(y: int, z: int) -> Instruction {
        if y == 6 && z == 6 {
            Instruction::plain(Action::HALT, AddressMode::NONE)
        } else if z == 6 {
            Instruction::on(Action::LD, AddressMode::RMR, operand(y as u8), RegisterType::HL)
        } else if y == 6 {
            Instruction::on(Action::LD, AddressMode::MRR, RegisterType::HL, operand(z as u8))
        } else {
            Instruction::on(Action::LD, AddressMode::RR, operand(y as u8), operand(z as u8))
        }
    }

    /// Decoding of the opcodes 0x80..=0xBF: arithmetic on A with a register
    /// or (HL).
    pub open spec fn decode_arithmetic(y: int, z: int) -> Instruction {
        if z == 6 {
            Instruction::on(arithmetic(y), AddressMode::RMR, RegisterType::A, RegisterType::HL)
        } else {
            Instruction::on(arithmetic(y), AddressMode::RR, RegisterType::A, operand(z as u8))
        }
    }

    /// Decoding of the opcodes 0xC0..=0xFF.
    pub open spec fn decode_high(y: int, z: int) -> Instruction {
        let p = y / 2;
        let q = y % 2;
        if z == 0 {
            if y < 4 {
                Instruction::branch(Action::RET, AddressMode::IMP, condition(y))
            } else if y == 4 {
                Instruction::on(Action::LDH, AddressMode::A8R, RegisterType::NONE, RegisterType::A)
            } else if y == 5 {
                Instruction::on(Action::ADD, AddressMode::RD8, RegisterType::SP, RegisterType::NONE)
            } else if y == 6 {
                Instruction::on(Action::LDH, AddressMode::RA8, RegisterType::A, RegisterType::NONE)
            } else {
                Instruction::on(Action::LD, AddressMode::HLSPR, RegisterType::HL, RegisterType::SP)
            }
        } else if z == 1 {
            if q == 0 {
                Instruction::on(Action::POP, AddressMode::R, stack_pair(p), RegisterType::NONE)
            } else if p == 0 {
                Instruction::plain(Action::RET, AddressMode::NONE)
            } else if p == 1 {
                Instruction::plain(Action::RETI, AddressMode::NONE)
            } else if p == 2 {
                Instruction::on(Action::JPHL, AddressMode::R, RegisterType::HL, RegisterType::NONE)
            } else {
                Instruction::on(Action::LD, AddressMode::RR, RegisterType::SP, RegisterType::HL)
            }
        } else if z == 2 {
            if y < 4 {
                Instruction::branch(Action::JUMP, AddressMode::D16, condition(y))
            } else if y == 4 {
                Instruction::on(Action::LD, AddressMode::MRR, RegisterType::C, RegisterType::A)
            } else if y == 5 {
                Instruction::on(Action::LD, AddressMode::A16R, RegisterType::NONE, RegisterType::A)
            } else if y == 6 {
                Instruction::on(Action::LD, AddressMode::RMR, RegisterType::A, RegisterType::C)
            } else {
                Instruction::on(Action::LD, AddressMode::RA16, RegisterType::A, RegisterType::NONE)
            }
        } else if z == 3 {
            if y == 0 {
                Instruction::plain(Action::JUMP, AddressMode::D16)
            } else if y == 1 {
                Instruction::plain(Action::CB, AddressMode::D8)
            } else if y == 6 {
                Instruction::plain(Action::DI, AddressMode::NONE)
            } else if y == 7 {
                Instruction::plain(Action::EI, AddressMode::NONE)
            } else {
                Instruction::unassigned()
            }
        } else if z == 4 {
            if y < 4 {
                Instruction::branch(Action::CALL, AddressMode::D16, condition(y))
            } else {
                Instruction::unassigned()
            }
        } else if z == 5 {
            if q == 0 {
                Instruction::on(Action::PUSH, AddressMode::R, stack_pair(p), RegisterType::NONE)
            } else if p == 0 {
                Instruction::plain(Action::CALL, AddressMode::D16)
            } else {
                Instruction::unassigned()
            }
        } else if z == 6 {
            Instruction::on(arithmetic(y), AddressMode::RD8, RegisterType::A, RegisterType::NONE)
        } else {
            Instruction::make(
                Action::RST,
                AddressMode::IMP,
                RegisterType::NONE,
                RegisterType::NONE,
                ConditionType::NONE,
                (8 * y) as u16,
            )
        }
    }

    /// What an opcode of the main page decodes to. The two high bits of the
    /// opcode select the quarter of the page, the three bits below them and
    /// the three low bits select within it. The eleven unassigned opcodes
    /// decode to the descriptor `unassigned()`.
    pub open spec fn decode(opcode: u8) -> Instruction {
        let x = opcode / 64;
        let y = (opcode / 8) % 8;
        let z = opcode % 8;
        if x == 0 {
            Instruction::decode_low(y as int, z as int)
        } else if x == 1 {
            Instruction::decode_load(y as int, z as int)
        } else if x == 2 {
            Instruction::decode_arithmetic(y as int, z as int)
        } else {
            Instruction::decode_high(y as int, z as int)
        }
    }

    /// What the byte behind the prefix 0xCB decodes to. The three low bits
    /// select the operand, the three bits above them a bit index, and the two
    /// high bits the family: rotates and shifts (for which the index selects
    /// the operation), BIT, RES or SET.
    pub open spec fn decode_cb(opcode: u8) -> Instruction {
        let x = opcode / 64;
        let y = (opcode / 8) % 8;
        let z = opcode % 8;
        Instruction::make(
            if x == 0 {
                shift(y as int)
            } else if x == 1 {
                Action::BIT
            } else if x == 2 {
                Action::RES
            } else {
                Action::SET
            },
            if z == 6 { AddressMode::MR } else { AddressMode::R },
            operand(z),
            RegisterType::NONE,
            ConditionType::NONE,
            if x == 0 { 0u16 } else { y as u16 },
        )
    }

    /// The descriptor is that of an unassigned opcode.
    pub open spec fn is_unassigned(self) -> bool {
        self.action == Action::NONE
    }

    fn of(
        action: Action,
        address: AddressMode,
        register_1: RegisterType,
        register_2: RegisterType,
        condition: ConditionType,
        param: u16,
    ) -> (instruction: Instruction)
        ensures
            instruction == Instruction::make(
                action,
                address,
                register_1,
                register_2,
                condition,
                param,
            ),
    {
        Instruction { action, address, register_1, register_2, condition, param }
    }

    #[verifier::rlimit(50)]
    fn from_low(y: u8, z: u8) -> (instruction: Instruction)
        requires
            y < 8,
            z < 8,
        ensures
            instruction == Instruction::decode_low(y as int, z as int),
    {
        match (y, z) {
            // 0x00
            (0, 0) => Instruction::of(Action::NOP, AddressMode::IMP, RegisterType::NONE, RegisterType::NONE, ConditionType::NONE, 0x00),
            // 0x01
            (0, 1) => Instruction::of(Action::LD, AddressMode::RD16, RegisterType::BC, RegisterType::NONE, ConditionType::NONE, 0x00),
            // 0x02
            (0, 2) => Instruction::of(Action::LD, AddressMode::MRR, RegisterType::BC, RegisterType::A, ConditionType::NONE, 0x00),
            // 0x03
            (0, 3) => Instruction::of(Action::INC, AddressMode::R, RegisterType::BC, RegisterType::NONE, ConditionType::NONE, 0x00),
            // 0x04
            (0, 4) => Instruction::of(Action::INC, AddressMode::R, RegisterType::B, RegisterType::NONE, ConditionType::NONE, 0x00),
            // 0x05
            (0, 5) => Instruction::of(Action::DEC, AddressMode::R, RegisterType::B, RegisterType::NONE, ConditionType::NONE, 0x00),
            // 0x06
            (0, 6) => Instruction::of(Action::LD, AddressMode::RD8, RegisterType::B, RegisterType::NONE, ConditionType::NONE, 0x00),
            // 0x07
            (0, 7) => Instruction::of(Action::RLCA, AddressMode::NONE, RegisterType::NONE, RegisterType::NONE, ConditionType::NONE, 0x00),
            // 0x08
            (1, 0) => Instruction::of(Action::LD, AddressMode::A16R, RegisterType::NONE, RegisterType::SP, ConditionType::NONE, 0x00),
            // 0x09
            (1, 1) => Instruction::of(Action::ADD, AddressMode::RR, RegisterType::HL, RegisterType::BC, ConditionType::NONE, 0x00),
            // 0x0A
            (1, 2) => Instruction::of(Action::LD, AddressMode::RMR, RegisterType::A, RegisterType::BC, ConditionType::NONE, 0x00),
            // 0x0B
            (1, 3) => Instruction::of(Action::DEC, AddressMode::R, RegisterType::BC, RegisterType::NONE, ConditionType::NONE, 0x00),
            // 0x0C
            (1, 4) => Instruction::of(Action::INC, AddressMode::R, RegisterType::C, RegisterType::NONE, ConditionType::NONE, 0x00),
            // 0x0D
            (1, 5) => Instruction::of(Action::DEC, AddressMode::R, RegisterType::C, RegisterType::NONE, ConditionType::NONE, 0x00),
            // 0x0E
            (1, 6) => Instruction::of(Action::LD, AddressMode::RD8, RegisterType::C, RegisterType::NONE, ConditionType::NONE, 0x00),
            // 0x0F
            (1, 7) => Instruction::of(Action::RRCA, AddressMode::NONE, RegisterType::NONE, RegisterType::NONE, ConditionType::NONE, 0x00),
            // 0x10
            (2, 0) => Instruction::of(Action::STOP, AddressMode::NONE, RegisterType::NONE, RegisterType::NONE, ConditionType::NONE, 0x00),
            // 0x11
            (2, 1) => Instruction::of(Action::LD, AddressMode::RD16, RegisterType::DE, RegisterType::NONE, ConditionType::NONE, 0x00),
            // 0x12
            (2, 2) => Instruction::of(Action::LD, AddressMode::MRR, RegisterType::DE, RegisterType::A, ConditionType::NONE, 0x00),
            // 0x13
            (2, 3) => Instruction::of(Action::INC, AddressMode::R, RegisterType::DE, RegisterType::NONE, ConditionType::NONE, 0x00),
            // 0x14
            (2, 4) => Instruction::of(Action::INC, AddressMode::R, RegisterType::D, RegisterType::NONE, ConditionType::NONE, 0x00),
            // 0x15
            (2, 5) => Instruction::of(Action::DEC, AddressMode::R, RegisterType::D, RegisterType::NONE, ConditionType::NONE, 0x00),
            // 0x16
            (2, 6) => Instruction::of(Action::LD, AddressMode::RD8, RegisterType::D, RegisterType::NONE, ConditionType::NONE, 0x00),
            // 0x17
            (2, 7) => Instruction::of(Action::RLA, AddressMode::NONE, RegisterType::NONE, RegisterType::NONE, ConditionType::NONE, 0x00),
            // 0x18
            (3, 0) => Instruction::of(Action::JR, AddressMode::D8, RegisterType::NONE, RegisterType::NONE, ConditionType::NONE, 0x00),
            // 0x19
            (3, 1) => Instruction::of(Action::ADD, AddressMode::RR, RegisterType::HL, RegisterType::DE, ConditionType::NONE, 0x00),
            // 0x1A
            (3, 2) => Instruction::of(Action::LD, AddressMode::RMR, RegisterType::A, RegisterType::DE, ConditionType::NONE, 0x00),
            // 0x1B
            (3, 3) => Instruction::of(Action::DEC, AddressMode::R, RegisterType::DE, RegisterType::NONE, ConditionType::NONE, 0x00),
            // 0x1C
            (3, 4) => Instruction::of(Action::INC, AddressMode::R, RegisterType::E, RegisterType::NONE, ConditionType::NONE, 0x00),
            // 0x1D
            (3, 5) => Instruction::of(Action::DEC, AddressMode::R, RegisterType::E, RegisterType::NONE, ConditionType::NONE, 0x00),
            // 0x1E
            (3, 6) => Instruction::of(Action::LD, AddressMode::RD8, RegisterType::E, RegisterType::NONE, ConditionType::NONE, 0x00),
            // 0x1F
            (3, 7) => Instruction::of(Action::RRA, AddressMode::NONE, RegisterType::NONE, RegisterType::NONE, ConditionType::NONE, 0x00),
            // 0x20
            (4, 0) => Instruction::of(Action::JR, AddressMode::D8, RegisterType::NONE, RegisterType::NONE, ConditionType::NZ, 0x00),
            // 0x21
            (4, 1) => Instruction::of(Action::LD, AddressMode::RD16, RegisterType::HL, RegisterType::NONE, ConditionType::NONE, 0x00),
            // 0x22
            (4, 2) => Instruction::of(Action::LD, AddressMode::HLIR, RegisterType::HL, RegisterType::A, ConditionType::NONE, 0x00),
            // 0x23
            (4, 3) => Instruction::of(Action::INC, AddressMode::R, RegisterType::HL, RegisterType::NONE, ConditionType::NONE, 0x00),
            // 0x24
            (4, 4) => Instruction::of(Action::INC, AddressMode::R, RegisterType::H, RegisterType::NONE, ConditionType::NONE, 0x00),
            // 0x25
            (4, 5) => Instruction::of(Action::DEC, AddressMode::R, RegisterType::H, RegisterType::NONE, ConditionType::NONE, 0x00),
            // 0x26
            (4, 6) => Instruction::of(Action::LD, AddressMode::RD8, RegisterType::H, RegisterType::NONE, ConditionType::NONE, 0x00),
            // 0x27
            (4, 7) => Instruction::of(Action::DAA, AddressMode::NONE, RegisterType::NONE, RegisterType::NONE, ConditionType::NONE, 0x00),
            // 0x28
            (5, 0) => Instruction::of(Action::JR, AddressMode::D8, RegisterType::NONE, RegisterType::NONE, ConditionType::Z, 0x00),
            // 0x29
            (5, 1) => Instruction::of(Action::ADD, AddressMode::RR, RegisterType::HL, RegisterType::HL, ConditionType::NONE, 0x00),
            // 0x2A
            (5, 2) => Instruction::of(Action::LD, AddressMode::RHLI, RegisterType::A, RegisterType::HL, ConditionType::NONE, 0x00),
            // 0x2B
            (5, 3) => Instruction::of(Action::DEC, AddressMode::R, RegisterType::HL, RegisterType::NONE, ConditionType::NONE, 0x00),
            // 0x2C
            (5, 4) => Instruction::of(Action::INC, AddressMode::R, RegisterType::L, RegisterType::NONE, ConditionType::NONE, 0x00),
            // 0x2D
            (5, 5) => Instruction::of(Action::DEC, AddressMode::R, RegisterType::L, RegisterType::NONE, ConditionType::NONE, 0x00),
            // 0x2E
            (5, 6) => Instruction::of(Action::LD, AddressMode::RD8, RegisterType::L, RegisterType::NONE, ConditionType::NONE, 0x00),
            // 0x2F
            (5, 7) => Instruction::of(Action::CPL, AddressMode::NONE, RegisterType::NONE, RegisterType::NONE, ConditionType::NONE, 0x00),
            // 0x30
            (6, 0) => Instruction::of(Action::JR, AddressMode::D8, RegisterType::NONE, RegisterType::NONE, ConditionType::NC, 0x00),
            // 0x31
            (6, 1) => Instruction::of(Action::LD, AddressMode::RD16, RegisterType::SP, RegisterType::NONE, ConditionType::NONE, 0x00),
            // 0x32
            (6, 2) => Instruction::of(Action::LD, AddressMode::HLDR, RegisterType::HL, RegisterType::A, ConditionType::NONE, 0x00),
            // 0x33
            (6, 3) => Instruction::of(Action::INC, AddressMode::R, RegisterType::SP, RegisterType::NONE, ConditionType::NONE, 0x00),
            // 0x34
            (6, 4) => Instruction::of(Action::INC, AddressMode::MR, RegisterType::HL, RegisterType::NONE, ConditionType::NONE, 0x00),
            // 0x35
            (6, 5) => Instruction::of(Action::DEC, AddressMode::MR, RegisterType::HL, RegisterType::NONE, ConditionType::NONE, 0x00),
            // 0x36
            (6, 6) => Instruction::of(Action::LD, AddressMode::MRD8, RegisterType::HL, RegisterType::NONE, ConditionType::NONE, 0x00),
            // 0x37
            (6, 7) => Instruction::of(Action::SCF, AddressMode::NONE, RegisterType::NONE, RegisterType::NONE, ConditionType::NONE, 0x00),
            // 0x38
            (7, 0) => Instruction::of(Action::JR, AddressMode::D8, RegisterType::NONE, RegisterType::NONE, ConditionType::C, 0x00),
            // 0x39
            (7, 1) => Instruction::of(Action::ADD, AddressMode::RR, RegisterType::HL, RegisterType::SP, ConditionType::NONE, 0x00),
            // 0x3A
            (7, 2) => Instruction::of(Action::LD, AddressMode::RHLD, RegisterType::A, RegisterType::HL, ConditionType::NONE, 0x00),
            // 0x3B
            (7, 3) => Instruction::of(Action::DEC, AddressMode::R, RegisterType::SP, RegisterType::NONE, ConditionType::NONE, 0x00),
            // 0x3C
            (7, 4) => Instruction::of(Action::INC, AddressMode::R, RegisterType::A, RegisterType::NONE, ConditionType::NONE, 0x00),
            // 0x3D
            (7, 5) => Instruction::of(Action::DEC, AddressMode::R, RegisterType::A, RegisterType::NONE, ConditionType::NONE, 0x00),
            // 0x3E
            (7, 6) => Instruction::of(Action::LD, AddressMode::RD8, RegisterType::A, RegisterType::NONE, ConditionType::NONE, 0x00),
            // 0x3F
            (7, 7) => Instruction::of(Action::CCF, AddressMode::NONE, RegisterType::NONE, RegisterType::NONE, ConditionType::NONE, 0x00),
            _ => Instruction::of(Action::NONE, AddressMode::NONE, RegisterType::NONE, RegisterType::NONE, ConditionType::NONE, 0x00),
        }
    }

    #[verifier::rlimit(50)]
    fn from_load(y: u8, z: u8) -> (instruction: Instruction)
        requires
            y < 8,
            z < 8,
        ensures
            instruction == Instruction::decode_load(y as int, z as int),
    {
        match (y, z) {
            // 0x40
            (0, 0) => Instruction::of(Action::LD, AddressMode::RR, RegisterType::B, RegisterType::B, ConditionType::NONE, 0x00),
            // 0x41
            (0, 1) => Instruction::of(Action::LD, AddressMode::RR, RegisterType::B, RegisterType::C, ConditionType::NONE, 0x00),
            // 0x42
            (0, 2) => Instruction::of(Action::LD, AddressMode::RR, RegisterType::B, RegisterType::D, ConditionType::NONE, 0x00),
            // 0x43
            (0, 3) => Instruction::of(Action::LD, AddressMode::RR, RegisterType::B, RegisterType::E, ConditionType::NONE, 0x00),
            // 0x44
            (0, 4) => Instruction::of(Action::LD, AddressMode::RR, RegisterType::B, RegisterType::H, ConditionType::NONE, 0x00),
            // 0x45
            (0, 5) => Instruction::of(Action::LD, AddressMode::RR, RegisterType::B, RegisterType::L, ConditionType::NONE, 0x00),
            // 0x46
            (0, 6) => Instruction::of(Action::LD, AddressMode::RMR, RegisterType::B, RegisterType::HL, ConditionType::NONE, 0x00),
            // 0x47
            (0, 7) => Instruction::of(Action::LD, AddressMode::RR, RegisterType::B, RegisterType::A, ConditionType::NONE, 0x00),
            // 0x48
            (1, 0) => Instruction::of(Action::LD, AddressMode::RR, RegisterType::C, RegisterType::B, ConditionType::NONE, 0x00),
            // 0x49
            (1, 1) => Instruction::of(Action::LD, AddressMode::RR, RegisterType::C, RegisterType::C, ConditionType::NONE, 0x00),
            // 0x4A
            (1, 2) => Instruction::of(Action::LD, AddressMode::RR, RegisterType::C, RegisterType::D, ConditionType::NONE, 0x00),
            // 0x4B
            (1, 3) => Instruction::of(Action::LD, AddressMode::RR, RegisterType::C, RegisterType::E, ConditionType::NONE, 0x00),
            // 0x4C
            (1, 4) => Instruction::of(Action::LD, AddressMode::RR, RegisterType::C, RegisterType::H, ConditionType::NONE, 0x00),
            // 0x4D
            (1, 5) => Instruction::of(Action::LD, AddressMode::RR, RegisterType::C, RegisterType::L, ConditionType::NONE, 0x00),
            // 0x4E
            (1, 6) => Instruction::of(Action::LD, AddressMode::RMR, RegisterType::C, RegisterType::HL, ConditionType::NONE, 0x00),
            // 0x4F
            (1, 7) => Instruction::of(Action::LD, AddressMode::RR, RegisterType::C, RegisterType::A, ConditionType::NONE, 0x00),
            // 0x50
            (2, 0) => Instruction::of(Action::LD, AddressMode::RR, RegisterType::D, RegisterType::B, ConditionType::NONE, 0x00),
            // 0x51
            (2, 1) => Instruction::of(Action::LD, AddressMode::RR, RegisterType::D, RegisterType::C, ConditionType::NONE, 0x00),
            // 0x52
            (2, 2) => Instruction::of(Action::LD, AddressMode::RR, RegisterType::D, RegisterType::D, ConditionType::NONE, 0x00),
            // 0x53
            (2, 3) => Instruction::of(Action::LD, AddressMode::RR, RegisterType::D, RegisterType::E, ConditionType::NONE, 0x00),
            // 0x54
            (2, 4) => Instruction::of(Action::LD, AddressMode::RR, RegisterType::D, RegisterType::H, ConditionType::NONE, 0x00),
            // 0x55
            (2, 5) => Instruction::of(Action::LD, AddressMode::RR, RegisterType::D, RegisterType::L, ConditionType::NONE, 0x00),
            // 0x56
            (2, 6) => Instruction::of(Action::LD, AddressMode::RMR, RegisterType::D, RegisterType::HL, ConditionType::NONE, 0x00),
            // 0x57
            (2, 7) => Instruction::of(Action::LD, AddressMode::RR, RegisterType::D, RegisterType::A, ConditionType::NONE, 0x00),
            // 0x58
            (3, 0) => Instruction::of(Action::LD, AddressMode::RR, RegisterType::E, RegisterType::B, ConditionType::NONE, 0x00),
            // 0x59
            (3, 1) => Instruction::of(Action::LD, AddressMode::RR, RegisterType::E, RegisterType::C, ConditionType::NONE, 0x00),
            // 0x5A
            (3, 2) => Instruction::of(Action::LD, AddressMode::RR, RegisterType::E, RegisterType::D, ConditionType::NONE, 0x00),
            // 0x5B
            (3, 3) => Instruction::of(Action::LD, AddressMode::RR, RegisterType::E, RegisterType::E, ConditionType::NONE, 0x00),
            // 0x5C
            (3, 4) => Instruction::of(Action::LD, AddressMode::RR, RegisterType::E, RegisterType::H, ConditionType::NONE, 0x00),
            // 0x5D
            (3, 5) => Instruction::of(Action::LD, AddressMode::RR, RegisterType::E, RegisterType::L, ConditionType::NONE, 0x00),
            // 0x5E
            (3, 6) => Instruction::of(Action::LD, AddressMode::RMR, RegisterType::E, RegisterType::HL, ConditionType::NONE, 0x00),
            // 0x5F
            (3, 7) => Instruction::of(Action::LD, AddressMode::RR, RegisterType::E, RegisterType::A, ConditionType::NONE, 0x00),
            // 0x60
            (4, 0) => Instruction::of(Action::LD, AddressMode::RR, RegisterType::H, RegisterType::B, ConditionType::NONE, 0x00),
            // 0x61
            (4, 1) => Instruction::of(Action::LD, AddressMode::RR, RegisterType::H, RegisterType::C, ConditionType::NONE, 0x00),
            // 0x62
            (4, 2) => Instruction::of(Action::LD, AddressMode::RR, RegisterType::H, RegisterType::D, ConditionType::NONE, 0x00),
            // 0x63
            (4, 3) => Instruction::of(Action::LD, AddressMode::RR, RegisterType::H, RegisterType::E, ConditionType::NONE, 0x00),
            // 0x64
            (4, 4) => Instruction::of(Action::LD, AddressMode::RR, RegisterType::H, RegisterType::H, ConditionType::NONE, 0x00),
            // 0x65
            (4, 5) => Instruction::of(Action::LD, AddressMode::RR, RegisterType::H, RegisterType::L, ConditionType::NONE, 0x00),
            // 0x66
            (4, 6) => Instruction::of(Action::LD, AddressMode::RMR, RegisterType::H, RegisterType::HL, ConditionType::NONE, 0x00),
            // 0x67
            (4, 7) => Instruction::of(Action::LD, AddressMode::RR, RegisterType::H, RegisterType::A, ConditionType::NONE, 0x00),
            // 0x68
            (5, 0) => Instruction::of(Action::LD, AddressMode::RR, RegisterType::L, RegisterType::B, ConditionType::NONE, 0x00),
            // 0x69
            (5, 1) => Instruction::of(Action::LD, AddressMode::RR, RegisterType::L, RegisterType::C, ConditionType::NONE, 0x00),
            // 0x6A
            (5, 2) => Instruction::of(Action::LD, AddressMode::RR, RegisterType::L, RegisterType::D, ConditionType::NONE, 0x00),
            // 0x6B
            (5, 3) => Instruction::of(Action::LD, AddressMode::RR, RegisterType::L, RegisterType::E, ConditionType::NONE, 0x00),
            // 0x6C
            (5, 4) => Instruction::of(Action::LD, AddressMode::RR, RegisterType::L, RegisterType::H, ConditionType::NONE, 0x00),
            // 0x6D
            (5, 5) => Instruction::of(Action::LD, AddressMode::RR, RegisterType::L, RegisterType::L, ConditionType::NONE, 0x00),
            // 0x6E
            (5, 6) => Instruction::of(Action::LD, AddressMode::RMR, RegisterType::L, RegisterType::HL, ConditionType::NONE, 0x00),
            // 0x6F
            (5, 7) => Instruction::of(Action::LD, AddressMode::RR, RegisterType::L, RegisterType::A, ConditionType::NONE, 0x00),
            // 0x70
            (6, 0) => Instruction::of(Action::LD, AddressMode::MRR, RegisterType::HL, RegisterType::B, ConditionType::NONE, 0x00),
            // 0x71
            (6, 1) => Instruction::of(Action::LD, AddressMode::MRR, RegisterType::HL, RegisterType::C, ConditionType::NONE, 0x00),
            // 0x72
            (6, 2) => Instruction::of(Action::LD, AddressMode::MRR, RegisterType::HL, RegisterType::D, ConditionType::NONE, 0x00),
            // 0x73
            (6, 3) => Instruction::of(Action::LD, AddressMode::MRR, RegisterType::HL, RegisterType::E, ConditionType::NONE, 0x00),
            // 0x74
            (6, 4) => Instruction::of(Action::LD, AddressMode::MRR, RegisterType::HL, RegisterType::H, ConditionType::NONE, 0x00),
            // 0x75
            (6, 5) => Instruction::of(Action::LD, AddressMode::MRR, RegisterType::HL, RegisterType::L, ConditionType::NONE, 0x00),
            // 0x76
            (6, 6) => Instruction::of(Action::HALT, AddressMode::NONE, RegisterType::NONE, RegisterType::NONE, ConditionType::NONE, 0x00),
            // 0x77
            (6, 7) => Instruction::of(Action::LD, AddressMode::MRR, RegisterType::HL, RegisterType::A, ConditionType::NONE, 0x00),
            // 0x78
            (7, 0) => Instruction::of(Action::LD, AddressMode::RR, RegisterType::A, RegisterType::B, ConditionType::NONE, 0x00),
            // 0x79
            (7, 1) => Instruction::of(Action::LD, AddressMode::RR, RegisterType::A, RegisterType::C, ConditionType::NONE, 0x00),
            // 0x7A
            (7, 2) => Instruction::of(Action::LD, AddressMode::RR, RegisterType::A, RegisterType::D, ConditionType::NONE, 0x00),
            // 0x7B
            (7, 3) => Instruction::of(Action::LD, AddressMode::RR, RegisterType::A, RegisterType::E, ConditionType::NONE, 0x00),
            // 0x7C
            (7, 4) => Instruction::of(Action::LD, AddressMode::RR, RegisterType::A, RegisterType::H, ConditionType::NONE, 0x00),
            // 0x7D
            (7, 5) => Instruction::of(Action::LD, AddressMode::RR, RegisterType::A, RegisterType::L, ConditionType::NONE, 0x00),
            // 0x7E
            (7, 6) => Instruction::of(Action::LD, AddressMode::RMR, RegisterType::A, RegisterType::HL, ConditionType::NONE, 0x00),
            // 0x7F
            (7, 7) => Instruction::of(Action::LD, AddressMode::RR, RegisterType::A, RegisterType::A, ConditionType::NONE, 0x00),
            _ => Instruction::of(Action::NONE, AddressMode::NONE, RegisterType::NONE, RegisterType::NONE, ConditionType::NONE, 0x00),
        }
    }

    #[verifier::rlimit(50)]
    fn from_arithmetic(y: u8, z: u8) -> (instruction: Instruction)
        requires
            y < 8,
            z < 8,
        ensures
            instruction == Instruction::decode_arithmetic(y as int, z as int),
    {
        match (y, z) {
            // 0x80
            (0, 0) => Instruction::of(Action::ADD, AddressMode::RR, RegisterType::A, RegisterType::B, ConditionType::NONE, 0x00),
            // 0x81
            (0, 1) => Instruction::of(Action::ADD, AddressMode::RR, RegisterType::A, RegisterType::C, ConditionType::NONE, 0x00),
            // 0x82
            (0, 2) => Instruction::of(Action::ADD, AddressMode::RR, RegisterType::A, RegisterType::D, ConditionType::NONE, 0x00),
            // 0x83
            (0, 3) => Instruction::of(Action::ADD, AddressMode::RR, RegisterType::A, RegisterType::E, ConditionType::NONE, 0x00),
            // 0x84
            (0, 4) => Instruction::of(Action::ADD, AddressMode::RR, RegisterType::A, RegisterType::H, ConditionType::NONE, 0x00),
            // 0x85
            (0, 5) => Instruction::of(Action::ADD, AddressMode::RR, RegisterType::A, RegisterType::L, ConditionType::NONE, 0x00),
            // 0x86
            (0, 6) => Instruction::of(Action::ADD, AddressMode::RMR, RegisterType::A, RegisterType::HL, ConditionType::NONE, 0x00),
            // 0x87
            (0, 7) => Instruction::of(Action::ADD, AddressMode::RR, RegisterType::A, RegisterType::A, ConditionType::NONE, 0x00),
            // 0x88
            (1, 0) => Instruction::of(Action::ADC, AddressMode::RR, RegisterType::A, RegisterType::B, ConditionType::NONE, 0x00),
            // 0x89
            (1, 1) => Instruction::of(Action::ADC, AddressMode::RR, RegisterType::A, RegisterType::C, ConditionType::NONE, 0x00),
            // 0x8A
            (1, 2) => Instruction::of(Action::ADC, AddressMode::RR, RegisterType::A, RegisterType::D, ConditionType::NONE, 0x00),
            // 0x8B
            (1, 3) => Instruction::of(Action::ADC, AddressMode::RR, RegisterType::A, RegisterType::E, ConditionType::NONE, 0x00),
            // 0x8C
            (1, 4) => Instruction::of(Action::ADC, AddressMode::RR, RegisterType::A, RegisterType::H, ConditionType::NONE, 0x00),
            // 0x8D
            (1, 5) => Instruction::of(Action::ADC, AddressMode::RR, RegisterType::A, RegisterType::L, ConditionType::NONE, 0x00),
            // 0x8E
            (1, 6) => Instruction::of(Action::ADC, AddressMode::RMR, RegisterType::A, RegisterType::HL, ConditionType::NONE, 0x00),
            // 0x8F
            (1, 7) => Instruction::of(Action::ADC, AddressMode::RR, RegisterType::A, RegisterType::A, ConditionType::NONE, 0x00),
            // 0x90
            (2, 0) => Instruction::of(Action::SUB, AddressMode::RR, RegisterType::A, RegisterType::B, ConditionType::NONE, 0x00),
            // 0x91
            (2, 1) => Instruction::of(Action::SUB, AddressMode::RR, RegisterType::A, RegisterType::C, ConditionType::NONE, 0x00),
            // 0x92
            (2, 2) => Instruction::of(Action::SUB, AddressMode::RR, RegisterType::A, RegisterType::D, ConditionType::NONE, 0x00),
            // 0x93
            (2, 3) => Instruction::of(Action::SUB, AddressMode::RR, RegisterType::A, RegisterType::E, ConditionType::NONE, 0x00),
            // 0x94
            (2, 4) => Instruction::of(Action::SUB, AddressMode::RR, RegisterType::A, RegisterType::H, ConditionType::NONE, 0x00),
            // 0x95
            (2, 5) => Instruction::of(Action::SUB, AddressMode::RR, RegisterType::A, RegisterType::L, ConditionType::NONE, 0x00),
            // 0x96
            (2, 6) => Instruction::of(Action::SUB, AddressMode::RMR, RegisterType::A, RegisterType::HL, ConditionType::NONE, 0x00),
            // 0x97
            (2, 7) => Instruction::of(Action::SUB, AddressMode::RR, RegisterType::A, RegisterType::A, ConditionType::NONE, 0x00),
            // 0x98
            (3, 0) => Instruction::of(Action::SBC, AddressMode::RR, RegisterType::A, RegisterType::B, ConditionType::NONE, 0x00),
            // 0x99
            (3, 1) => Instruction::of(Action::SBC, AddressMode::RR, RegisterType::A, RegisterType::C, ConditionType::NONE, 0x00),
            // 0x9A
            (3, 2) => Instruction::of(Action::SBC, AddressMode::RR, RegisterType::A, RegisterType::D, ConditionType::NONE, 0x00),
            // 0x9B
            (3, 3) => Instruction::of(Action::SBC, AddressMode::RR, RegisterType::A, RegisterType::E, ConditionType::NONE, 0x00),
            // 0x9C
            (3, 4) => Instruction::of(Action::SBC, AddressMode::RR, RegisterType::A, RegisterType::H, ConditionType::NONE, 0x00),
            // 0x9D
            (3, 5) => Instruction::of(Action::SBC, AddressMode::RR, RegisterType::A, RegisterType::L, ConditionType::NONE, 0x00),
            // 0x9E
            (3, 6) => Instruction::of(Action::SBC, AddressMode::RMR, RegisterType::A, RegisterType::HL, ConditionType::NONE, 0x00),
            // 0x9F
            (3, 7) => Instruction::of(Action::SBC, AddressMode::RR, RegisterType::A, RegisterType::A, ConditionType::NONE, 0x00),
            // 0xA0
            (4, 0) => Instruction::of(Action::AND, AddressMode::RR, RegisterType::A, RegisterType::B, ConditionType::NONE, 0x00),
            // 0xA1
            (4, 1) => Instruction::of(Action::AND, AddressMode::RR, RegisterType::A, RegisterType::C, ConditionType::NONE, 0x00),
            // 0xA2
            (4, 2) => Instruction::of(Action::AND, AddressMode::RR, RegisterType::A, RegisterType::D, ConditionType::NONE, 0x00),
            // 0xA3
            (4, 3) => Instruction::of(Action::AND, AddressMode::RR, RegisterType::A, RegisterType::E, ConditionType::NONE, 0x00),
            // 0xA4
            (4, 4) => Instruction::of(Action::AND, AddressMode::RR, RegisterType::A, RegisterType::H, ConditionType::NONE, 0x00),
            // 0xA5
            (4, 5) => Instruction::of(Action::AND, AddressMode::RR, RegisterType::A, RegisterType::L, ConditionType::NONE, 0x00),
            // 0xA6
            (4, 6) => Instruction::of(Action::AND, AddressMode::RMR, RegisterType::A, RegisterType::HL, ConditionType::NONE, 0x00),
            // 0xA7
            (4, 7) => Instruction::of(Action::AND, AddressMode::RR, RegisterType::A, RegisterType::A, ConditionType::NONE, 0x00),
            // 0xA8
            (5, 0) => Instruction::of(Action::XOR, AddressMode::RR, RegisterType::A, RegisterType::B, ConditionType::NONE, 0x00),
            // 0xA9
            (5, 1) => Instruction::of(Action::XOR, AddressMode::RR, RegisterType::A, RegisterType::C, ConditionType::NONE, 0x00),
            // 0xAA
            (5, 2) => Instruction::of(Action::XOR, AddressMode::RR, RegisterType::A, RegisterType::D, ConditionType::NONE, 0x00),
            // 0xAB
            (5, 3) => Instruction::of(Action::XOR, AddressMode::RR, RegisterType::A, RegisterType::E, ConditionType::NONE, 0x00),
            // 0xAC
            (5, 4) => Instruction::of(Action::XOR, AddressMode::RR, RegisterType::A, RegisterType::H, ConditionType::NONE, 0x00),
            // 0xAD
            (5, 5) => Instruction::of(Action::XOR, AddressMode::RR, RegisterType::A, RegisterType::L, ConditionType::NONE, 0x00),
            // 0xAE
            (5, 6) => Instruction::of(Action::XOR, AddressMode::RMR, RegisterType::A, RegisterType::HL, ConditionType::NONE, 0x00),
            // 0xAF
            (5, 7) => Instruction::of(Action::XOR, AddressMode::RR, RegisterType::A, RegisterType::A, ConditionType::NONE, 0x00),
            // 0xB0
            (6, 0) => Instruction::of(Action::OR, AddressMode::RR, RegisterType::A, RegisterType::B, ConditionType::NONE, 0x00),
            // 0xB1
            (6, 1) => Instruction::of(Action::OR, AddressMode::RR, RegisterType::A, RegisterType::C, ConditionType::NONE, 0x00),
            // 0xB2
            (6, 2) => Instruction::of(Action::OR, AddressMode::RR, RegisterType::A, RegisterType::D, ConditionType::NONE, 0x00),
            // 0xB3
            (6, 3) => Instruction::of(Action::OR, AddressMode::RR, RegisterType::A, RegisterType::E, ConditionType::NONE, 0x00),
            // 0xB4
            (6, 4) => Instruction::of(Action::OR, AddressMode::RR, RegisterType::A, RegisterType::H, ConditionType::NONE, 0x00),
            // 0xB5
            (6, 5) => Instruction::of(Action::OR, AddressMode::RR, RegisterType::A, RegisterType::L, ConditionType::NONE, 0x00),
            // 0xB6
            (6, 6) => Instruction::of(Action::OR, AddressMode::RMR, RegisterType::A, RegisterType::HL, ConditionType::NONE, 0x00),
            // 0xB7
            (6, 7) => Instruction::of(Action::OR, AddressMode::RR, RegisterType::A, RegisterType::A, ConditionType::NONE, 0x00),
            // 0xB8
            (7, 0) => Instruction::of(Action::CP, AddressMode::RR, RegisterType::A, RegisterType::B, ConditionType::NONE, 0x00),
            // 0xB9
            (7, 1) => Instruction::of(Action::CP, AddressMode::RR, RegisterType::A, RegisterType::C, ConditionType::NONE, 0x00),
            // 0xBA
            (7, 2) => Instruction::of(Action::CP, AddressMode::RR, RegisterType::A, RegisterType::D, ConditionType::NONE, 0x00),
            // 0xBB
            (7, 3) => Instruction::of(Action::CP, AddressMode::RR, RegisterType::A, RegisterType::E, ConditionType::NONE, 0x00),
            // 0xBC
            (7, 4) => Instruction::of(Action::CP, AddressMode::RR, RegisterType::A, RegisterType::H, ConditionType::NONE, 0x00),
            // 0xBD
            (7, 5) => Instruction::of(Action::CP, AddressMode::RR, RegisterType::A, RegisterType::L, ConditionType::NONE, 0x00),
            // 0xBE
            (7, 6) => Instruction::of(Action::CP, AddressMode::RMR, RegisterType::A, RegisterType::HL, ConditionType::NONE, 0x00),
            // 0xBF
            (7, 7) => Instruction::of(Action::CP, AddressMode::RR, RegisterType::A, RegisterType::A, ConditionType::NONE, 0x00),
            _ => Instruction::of(Action::NONE, AddressMode::NONE, RegisterType::NONE, RegisterType::NONE, ConditionType::NONE, 0x00),
        }
    }

    #[verifier::rlimit(50)]
    fn from_high(y: u8, z: u8) -> (instruction: Instruction)
        requires
            y < 8,
            z < 8,
        ensures
            instruction == Instruction::decode_high(y as int, z as int),
    {
        match (y, z) {
            // 0xC0
            (0, 0) => Instruction::of(Action::RET, AddressMode::IMP, RegisterType::NONE, RegisterType::NONE, ConditionType::NZ, 0x00),
            // 0xC1
            (0, 1) => Instruction::of(Action::POP, AddressMode::R, RegisterType::BC, RegisterType::NONE, ConditionType::NONE, 0x00),
            // 0xC2
            (0, 2) => Instruction::of(Action::JUMP, AddressMode::D16, RegisterType::NONE, RegisterType::NONE, ConditionType::NZ, 0x00),
            // 0xC3
            (0, 3) => Instruction::of(Action::JUMP, AddressMode::D16, RegisterType::NONE, RegisterType::NONE, ConditionType::NONE, 0x00),
            // 0xC4
            (0, 4) => Instruction::of(Action::CALL, AddressMode::D16, RegisterType::NONE, RegisterType::NONE, ConditionType::NZ, 0x00),
            // 0xC5
            (0, 5) => Instruction::of(Action::PUSH, AddressMode::R, RegisterType::BC, RegisterType::NONE, ConditionType::NONE, 0x00),
            // 0xC6
            (0, 6) => Instruction::of(Action::ADD, AddressMode::RD8, RegisterType::A, RegisterType::NONE, ConditionType::NONE, 0x00),
            // 0xC7
            (0, 7) => Instruction::of(Action::RST, AddressMode::IMP, RegisterType::NONE, RegisterType::NONE, ConditionType::NONE, 0x00),
            // 0xC8
            (1, 0) => Instruction::of(Action::RET, AddressMode::IMP, RegisterType::NONE, RegisterType::NONE, ConditionType::Z, 0x00),
            // 0xC9
            (1, 1) => Instruction::of(Action::RET, AddressMode::NONE, RegisterType::NONE, RegisterType::NONE, ConditionType::NONE, 0x00),
            // 0xCA
            (1, 2) => Instruction::of(Action::JUMP, AddressMode::D16, RegisterType::NONE, RegisterType::NONE, ConditionType::Z, 0x00),
            // 0xCB
            (1, 3) => Instruction::of(Action::CB, AddressMode::D8, RegisterType::NONE, RegisterType::NONE, ConditionType::NONE, 0x00),
            // 0xCC
            (1, 4) => Instruction::of(Action::CALL, AddressMode::D16, RegisterType::NONE, RegisterType::NONE, ConditionType::Z, 0x00),
            // 0xCD
            (1, 5) => Instruction::of(Action::CALL, AddressMode::D16, RegisterType::NONE, RegisterType::NONE, ConditionType::NONE, 0x00),
            // 0xCE
            (1, 6) => Instruction::of(Action::ADC, AddressMode::RD8, RegisterType::A, RegisterType::NONE, ConditionType::NONE, 0x00),
            // 0xCF
            (1, 7) => Instruction::of(Action::RST, AddressMode::IMP, RegisterType::NONE, RegisterType::NONE, ConditionType::NONE, 0x08),
            // 0xD0
            (2, 0) => Instruction::of(Action::RET, AddressMode::IMP, RegisterType::NONE, RegisterType::NONE, ConditionType::NC, 0x00),
            // 0xD1
            (2, 1) => Instruction::of(Action::POP, AddressMode::R, RegisterType::DE, RegisterType::NONE, ConditionType::NONE, 0x00),
            // 0xD2
            (2, 2) => Instruction::of(Action::JUMP, AddressMode::D16, RegisterType::NONE, RegisterType::NONE, ConditionType::NC, 0x00),
            // 0xD3
            (2, 3) => Instruction::of(Action::NONE, AddressMode::NONE, RegisterType::NONE, RegisterType::NONE, ConditionType::NONE, 0x00),
            // 0xD4
            (2, 4) => Instruction::of(Action::CALL, AddressMode::D16, RegisterType::NONE, RegisterType::NONE, ConditionType::NC, 0x00),
            // 0xD5
            (2, 5) => Instruction::of(Action::PUSH, AddressMode::R, RegisterType::DE, RegisterType::NONE, ConditionType::NONE, 0x00),
            // 0xD6
            (2, 6) => Instruction::of(Action::SUB, AddressMode::RD8, RegisterType::A, RegisterType::NONE, ConditionType::NONE, 0x00),
            // 0xD7
            (2, 7) => Instruction::of(Action::RST, AddressMode::IMP, RegisterType::NONE, RegisterType::NONE, ConditionType::NONE, 0x10),
            // 0xD8
            (3, 0) => Instruction::of(Action::RET, AddressMode::IMP, RegisterType::NONE, RegisterType::NONE, ConditionType::C, 0x00),
            // 0xD9
            (3, 1) => Instruction::of(Action::RETI, AddressMode::NONE, RegisterType::NONE, RegisterType::NONE, ConditionType::NONE, 0x00),
            // 0xDA
            (3, 2) => Instruction::of(Action::JUMP, AddressMode::D16, RegisterType::NONE, RegisterType::NONE, ConditionType::C, 0x00),
            // 0xDB
            (3, 3) => Instruction::of(Action::NONE, AddressMode::NONE, RegisterType::NONE, RegisterType::NONE, ConditionType::NONE, 0x00),
            // 0xDC
            (3, 4) => Instruction::of(Action::CALL, AddressMode::D16, RegisterType::NONE, RegisterType::NONE, ConditionType::C, 0x00),
            // 0xDD
            (3, 5) => Instruction::of(Action::NONE, AddressMode::NONE, RegisterType::NONE, RegisterType::NONE, ConditionType::NONE, 0x00),
            // 0xDE
            (3, 6) => Instruction::of(Action::SBC, AddressMode::RD8, RegisterType::A, RegisterType::NONE, ConditionType::NONE, 0x00),
            // 0xDF
            (3, 7) => Instruction::of(Action::RST, AddressMode::IMP, RegisterType::NONE, RegisterType::NONE, ConditionType::NONE, 0x18),
            // 0xE0
            (4, 0) => Instruction::of(Action::LDH, AddressMode::A8R, RegisterType::NONE, RegisterType::A, ConditionType::NONE, 0x00),
            // 0xE1
            (4, 1) => Instruction::of(Action::POP, AddressMode::R, RegisterType::HL, RegisterType::NONE, ConditionType::NONE, 0x00),
            // 0xE2
            (4, 2) => Instruction::of(Action::LD, AddressMode::MRR, RegisterType::C, RegisterType::A, ConditionType::NONE, 0x00),
            // 0xE3
            (4, 3) => Instruction::of(Action::NONE, AddressMode::NONE, RegisterType::NONE, RegisterType::NONE, ConditionType::NONE, 0x00),
            // 0xE4
            (4, 4) => Instruction::of(Action::NONE, AddressMode::NONE, RegisterType::NONE, RegisterType::NONE, ConditionType::NONE, 0x00),
            // 0xE5
            (4, 5) => Instruction::of(Action::PUSH, AddressMode::R, RegisterType::HL, RegisterType::NONE, ConditionType::NONE, 0x00),
            // 0xE6
            (4, 6) => Instruction::of(Action::AND, AddressMode::RD8, RegisterType::A, RegisterType::NONE, ConditionType::NONE, 0x00),
            // 0xE7
            (4, 7) => Instruction::of(Action::RST, AddressMode::IMP, RegisterType::NONE, RegisterType::NONE, ConditionType::NONE, 0x20),
            // 0xE8
            (5, 0) => Instruction::of(Action::ADD, AddressMode::RD8, RegisterType::SP, RegisterType::NONE, ConditionType::NONE, 0x00),
            // 0xE9
            (5, 1) => Instruction::of(Action::JPHL, AddressMode::R, RegisterType::HL, RegisterType::NONE, ConditionType::NONE, 0x00),
            // 0xEA
            (5, 2) => Instruction::of(Action::LD, AddressMode::A16R, RegisterType::NONE, RegisterType::A, ConditionType::NONE, 0x00),
            // 0xEB
            (5, 3) => Instruction::of(Action::NONE, AddressMode::NONE, RegisterType::NONE, RegisterType::NONE, ConditionType::NONE, 0x00),
            // 0xEC
            (5, 4) => Instruction::of(Action::NONE, AddressMode::NONE, RegisterType::NONE, RegisterType::NONE, ConditionType::NONE, 0x00),
            // 0xED
            (5, 5) => Instruction::of(Action::NONE, AddressMode::NONE, RegisterType::NONE, RegisterType::NONE, ConditionType::NONE, 0x00),
            // 0xEE
            (5, 6) => Instruction::of(Action::XOR, AddressMode::RD8, RegisterType::A, RegisterType::NONE, ConditionType::NONE, 0x00),
            // 0xEF
            (5, 7) => Instruction::of(Action::RST, AddressMode::IMP, RegisterType::NONE, RegisterType::NONE, ConditionType::NONE, 0x28),
            // 0xF0
            (6, 0) => Instruction::of(Action::LDH, AddressMode::RA8, RegisterType::A, RegisterType::NONE, ConditionType::NONE, 0x00),
            // 0xF1
            (6, 1) => Instruction::of(Action::POP, AddressMode::R, RegisterType::AF, RegisterType::NONE, ConditionType::NONE, 0x00),
            // 0xF2
            (6, 2) => Instruction::of(Action::LD, AddressMode::RMR, RegisterType::A, RegisterType::C, ConditionType::NONE, 0x00),
            // 0xF3
            (6, 3) => Instruction::of(Action::DI, AddressMode::NONE, RegisterType::NONE, RegisterType::NONE, ConditionType::NONE, 0x00),
            // 0xF4
            (6, 4) => Instruction::of(Action::NONE, AddressMode::NONE, RegisterType::NONE, RegisterType::NONE, ConditionType::NONE, 0x00),
            // 0xF5
            (6, 5) => Instruction::of(Action::PUSH, AddressMode::R, RegisterType::AF, RegisterType::NONE, ConditionType::NONE, 0x00),
            // 0xF6
            (6, 6) => Instruction::of(Action::OR, AddressMode::RD8, RegisterType::A, RegisterType::NONE, ConditionType::NONE, 0x00),
            // 0xF7
            (6, 7) => Instruction::of(Action::RST, AddressMode::IMP, RegisterType::NONE, RegisterType::NONE, ConditionType::NONE, 0x30),
            // 0xF8
            (7, 0) => Instruction::of(Action::LD, AddressMode::HLSPR, RegisterType::HL, RegisterType::SP, ConditionType::NONE, 0x00),
            // 0xF9
            (7, 1) => Instruction::of(Action::LD, AddressMode::RR, RegisterType::SP, RegisterType::HL, ConditionType::NONE, 0x00),
            // 0xFA
            (7, 2) => Instruction::of(Action::LD, AddressMode::RA16, RegisterType::A, RegisterType::NONE, ConditionType::NONE, 0x00),
            // 0xFB
            (7, 3) => Instruction::of(Action::EI, AddressMode::NONE, RegisterType::NONE, RegisterType::NONE, ConditionType::NONE, 0x00),
            // 0xFC
            (7, 4) => Instruction::of(Action::NONE, AddressMode::NONE, RegisterType::NONE, RegisterType::NONE, ConditionType::NONE, 0x00),
            // 0xFD
            (7, 5) => Instruction::of(Action::NONE, AddressMode::NONE, RegisterType::NONE, RegisterType::NONE, ConditionType::NONE, 0x00),
            // 0xFE
            (7, 6) => Instruction::of(Action::CP, AddressMode::RD8, RegisterType::A, RegisterType::NONE, ConditionType::NONE, 0x00),
            // 0xFF
            (7, 7) => Instruction::of(Action::RST, AddressMode::IMP, RegisterType::NONE, RegisterType::NONE, ConditionType::NONE, 0x38),
            _ => Instruction::of(Action::NONE, AddressMode::NONE, RegisterType::NONE, RegisterType::NONE, ConditionType::NONE, 0x00),
        }
    }

    /// Looks an opcode up in the table of the main page.
    pub fn from(opcode: u8) -> (instruction: Instruction)
        ensures
            instruction == Instruction::decode(opcode),
            instruction.is_unassigned() == Instruction::illegal(opcode),
    {
        proof {
            Instruction::lemma_unassigned(opcode);
        }
        let y = (opcode / 8) % 8;
        let z = opcode % 8;
        match opcode / 64 {
            0 => Instruction::from_low(y, z),
            1 => Instruction::from_load(y, z),
            2 => Instruction::from_arithmetic(y, z),
            _ => Instruction::from_high(y, z),
        }
    }

    /// Decodes the byte behind the prefix 0xCB.
    pub fn from_cb(opcode: u8) -> (instruction: Instruction)
        ensures
            instruction == Instruction::decode_cb(opcode),
            instruction.register_1.is_operand(),
            instruction.param < 8,
    {
        let family = opcode / 64;
        let index = (opcode / 8) % 8;
        let action = if family == 1 {
            Action::BIT
        } else if family == 2 {
            Action::RES
        } else if family == 3 {
            Action::SET
        } else {
            match index {
                0 => Action::RLC,
                1 => Action::RRC,
                2 => Action::RL,
                3 => Action::RR,
                4 => Action::SLA,
                5 => Action::SRA,
                6 => Action::SWAP,
                _ => Action::SRL,
            }
        };
        Instruction {
            action,
            address: if opcode % 8 == 6 { AddressMode::MR } else { AddressMode::R },
            register_1: reg_lookup(opcode % 8),
            register_2: RegisterType::NONE,
            condition: ConditionType::NONE,
            param: if family == 0 { 0 } else { index as u16 },
        }
    }

    /// The state after the instruction: its operands are fetched in its
    /// address mode, then its action is carried out.
    #[verifier::opaque]
    pub open spec fn executed(self, cpu: CpuView) -> CpuView {
        self.action.executed(self.address.fetched(cpu, self), self)
    }

    /// Machine cycles of the instruction after its opcode is read.
    #[verifier::opaque]
    pub open spec fn cycles(self, cpu: CpuView) -> nat {
        self.address.fetch_cycles() + self.action.execute_cycles(
            self.address.fetched(cpu, self),
            self,
        )
    }

    /// Fetches the operands and carries the action out; says how many
    /// machine cycles both took.
    pub fn execute(&self, cpu: &mut CPU) -> (cycles: u8)
        requires
            old(cpu).wf(),
        ensures
            final(cpu).wf(),
            final(cpu)@ == self.executed(old(cpu)@),
            cycles == self.cycles(old(cpu)@),
            cycles <= 7,
    {
        reveal(Instruction::executed);
        reveal(Instruction::cycles);
        let fetching = self.address.fetch(cpu, self);
        proof {
            self.action.lemma_execute_cycles(cpu@, *self);
        }
        let acting = self.action.execute(cpu, self);
        fetching + acting
    }

    /// The opcodes that decode to the unassigned descriptor are the eleven
    /// that the processor does not have.
    pub proof fn lemma_unassigned(opcode: u8)
        ensures
            Instruction::decode(opcode).is_unassigned() == Instruction::illegal(opcode),
    {
        let y = ((opcode / 8) % 8) as int;
        let z = (opcode % 8) as int;
        assert(opcode == 64 * (opcode / 64) + 8 * y + z);
    }
}

} // verus!
