//! Mnemonics, addressing modes and the opcode table.

use vstd::prelude::*;

verus! {

/// The register, if any, that is added to an operand's base address.
#[derive(Clone, Copy, Debug, PartialEq, Eq, Structural)]
pub enum IndexedBy {
    NoIndex,
    X,
    Y,
}

/// What an instruction does, whatever its operand.
#[derive(Clone, Copy, Debug, PartialEq, Eq, Structural)]
pub enum Mnemonic {
    NOP,
    LDA,
    LDX,
    LDY,
    STA,
    STX,
    STY,
    TAX,
    TAY,
    TSX,
    TXA,
    TXS,
    TYA,
}

/// How an instruction finds its operand.
#[derive(Clone, Copy, Debug, PartialEq, Eq, Structural)]
pub enum AddressingMode {
    Implied,
    Immediate,
    ZeroPage(IndexedBy),
    Absolute(IndexedBy),
    Indirect(IndexedBy),
}

impl Mnemonic {
    /// LDA, LDX, LDY.
    pub open spec fn is_load(self) -> bool {
        self == Mnemonic::LDA || self == Mnemonic::LDX || self == Mnemonic::LDY
    }

    /// STA, STX, STY.
    pub open spec fn is_store(self) -> bool {
        self == Mnemonic::STA || self == Mnemonic::STX || self == Mnemonic::STY
    }

    /// TAX, TAY, TSX, TXA, TXS, TYA.
    pub open spec fn is_transfer(self) -> bool {
        self == Mnemonic::TAX || self == Mnemonic::TAY || self == Mnemonic::TSX || self
            == Mnemonic::TXA || self == Mnemonic::TXS || self == Mnemonic::TYA
    }
}

impl AddressingMode {
    /// Number of operand bytes that follow the opcode byte.
    pub open spec fn spec_instruction_length(&self) -> u8 {
        match self {
            AddressingMode::Implied => 0,
            AddressingMode::Immediate => 1,
            AddressingMode::ZeroPage(_) => 1,
            AddressingMode::Absolute(_) => 2,
            AddressingMode::Indirect(_) => 1,
        }
    }

    /// Number of operand bytes that follow the opcode byte.
    #[verifier::when_used_as_spec(spec_instruction_length)]
    pub fn instruction_length(&self) -> (length: u8)
        ensures
            length == self.spec_instruction_length(),
    {
        match self {
            AddressingMode::Implied => 0,
            AddressingMode::Immediate => 1,
            AddressingMode::ZeroPage(_) => 1,
            AddressingMode::Absolute(_) => 2,
            AddressingMode::Indirect(_) => 1,
        }
    }

    /// Whether adding the index register can carry into the high byte of the
    /// address: absolute indexed by X or Y, and indirect indexed by Y.
    pub open spec fn spec_can_cross_page(&self) -> bool {
        *self == AddressingMode::Absolute(IndexedBy::X) || *self == AddressingMode::Absolute(
            IndexedBy::Y,
        ) || *self == AddressingMode::Indirect(IndexedBy::Y)
    }

    /// Whether adding the index register can carry into the high byte of the
    /// address.
    #[verifier::when_used_as_spec(spec_can_cross_page)]
    pub fn can_cross_page(&self) -> (can_cross: bool)
        ensures
            can_cross == self.spec_can_cross_page(),
    {
        match self {
            AddressingMode::Absolute(IndexedBy::X) => true,
            AddressingMode::Absolute(IndexedBy::Y) => true,
            AddressingMode::Indirect(IndexedBy::Y) => true,
            _ => false,
        }
    }

    /// The modes that name an operand in memory. Implied addressing has no
    /// operand, and indirect addressing exists only with an index register.
    pub open spec fn is_resolvable(&self) -> bool {
        *self != AddressingMode::Implied && *self != AddressingMode::Indirect(IndexedBy::NoIndex)
    }
}

/// A decoded opcode.
#[derive(Clone, Copy, Debug, PartialEq, Eq, Structural)]
pub struct Instruction {
    pub mnemonic: Mnemonic,
    pub addressing_mode: AddressingMode,
}

impl Instruction {
    /// The opcode byte that encodes `mnemonic` with `addressing_mode`, where
    /// the processor has such an instruction.
    pub open spec fn opcode(mnemonic: Mnemonic, addressing_mode: AddressingMode) -> Option<u8> {
        match mnemonic {
            Mnemonic::LDA => match addressing_mode {
                AddressingMode::Immediate => Some(0xA9u8),
                AddressingMode::ZeroPage(IndexedBy::NoIndex) => Some(0xA5u8),
                AddressingMode::ZeroPage(IndexedBy::X) => Some(0xB5u8),
                AddressingMode::Absolute(IndexedBy::NoIndex) => Some(0xADu8),
                AddressingMode::Absolute(IndexedBy::X) => Some(0xBDu8),
                AddressingMode::Absolute(IndexedBy::Y) => Some(0xB9u8),
                AddressingMode::Indirect(IndexedBy::X) => Some(0xA1u8),
                AddressingMode::Indirect(IndexedBy::Y) => Some(0xB1u8),
                _ => None,
            },
            Mnemonic::LDX => match addressing_mode {
                AddressingMode::Immediate => Some(0xA2u8),
                AddressingMode::ZeroPage(IndexedBy::NoIndex) => Some(0xA6u8),
                AddressingMode::ZeroPage(IndexedBy::Y) => Some(0xB6u8),
                AddressingMode::Absolute(IndexedBy::NoIndex) => Some(0xAEu8),
                AddressingMode::Absolute(IndexedBy::Y) => Some(0xBEu8),
                _ => None,
            },
            Mnemonic::LDY => match addressing_mode {
                AddressingMode::Immediate => Some(0xA0u8),
                AddressingMode::ZeroPage(IndexedBy::NoIndex) => Some(0xA4u8),
                AddressingMode::ZeroPage(IndexedBy::X) => Some(0xB4u8),
                AddressingMode::Absolute(IndexedBy::NoIndex) => Some(0xACu8),
                AddressingMode::Absolute(IndexedBy::X) => Some(0xBCu8),
                _ => None,
            },
            Mnemonic::STA => match addressing_mode {
                AddressingMode::ZeroPage(IndexedBy::NoIndex) => Some(0x85u8),
                AddressingMode::ZeroPage(IndexedBy::X) => Some(0x95u8),
                AddressingMode::Absolute(IndexedBy::NoIndex) => Some(0x8Du8),
                AddressingMode::Absolute(IndexedBy::X) => Some(0x9Du8),
                AddressingMode::Absolute(IndexedBy::Y) => Some(0x99u8),
                AddressingMode::Indirect(IndexedBy::X) => Some(0x81u8),
                AddressingMode::Indirect(IndexedBy::Y) => Some(0x91u8),
                _ => None,
            },
            Mnemonic::STX => match addressing_mode {
                AddressingMode::ZeroPage(IndexedBy::NoIndex) => Some(0x86u8),
                AddressingMode::ZeroPage(IndexedBy::Y) => Some(0x96u8),
                AddressingMode::Absolute(IndexedBy::NoIndex) => Some(0x8Eu8),
                _ => None,
            },
            Mnemonic::STY => match addressing_mode {
                AddressingMode::ZeroPage(IndexedBy::NoIndex) => Some(0x84u8),
                AddressingMode::ZeroPage(IndexedBy::X) => Some(0x94u8),
                AddressingMode::Absolute(IndexedBy::NoIndex) => Some(0x8Cu8),
                _ => None,
            },
            Mnemonic::TAX => if addressing_mode == AddressingMode::Implied {
                Some(0xAAu8)
            } else {
                None
            },
            Mnemonic::TAY => if addressing_mode == AddressingMode::Implied {
                Some(0xA8u8)
            } else {
                None
            },
            Mnemonic::TSX => if addressing_mode == AddressingMode::Implied {
                Some(0xBAu8)
            } else {
                None
            },
            Mnemonic::TXA => if addressing_mode == AddressingMode::Implied {
                Some(0x8Au8)
            } else {
                None
            },
            Mnemonic::TXS => if addressing_mode == AddressingMode::Implied {
                Some(0x9Au8)
            } else {
                None
            },
            Mnemonic::TYA => if addressing_mode == AddressingMode::Implied {
                Some(0x98u8)
            } else {
                None
            },
            Mnemonic::NOP => if addressing_mode == AddressingMode::Implied {
                Some(0xEAu8)
            } else {
                None
            },
        }
    }

    /// The instruction that `byte` encodes: the one whose `opcode` is `byte`,
    /// and `None` where no instruction has that opcode.
    pub open spec fn spec_from_byte(byte: u8) -> Option<Instruction> {
        if exists|instruction: Instruction|
            Instruction::opcode(instruction.mnemonic, instruction.addressing_mode) == Some(byte) {
            Some(
                choose|instruction: Instruction|
                    Instruction::opcode(instruction.mnemonic, instruction.addressing_mode) == Some(
                        byte,
                    ),
            )
        } else {
            None
        }
    }

    /// The instructions that the evaluators accept: those that the processor
    /// has an opcode for.
    pub open spec fn is_executable(self) -> bool {
        Instruction::opcode(self.mnemonic, self.addressing_mode) is Some
    }

    /// Number of bytes that the instruction occupies, the opcode byte included.
    pub open spec fn encoded_length(self) -> int {
        1 + self.addressing_mode.spec_instruction_length()
    }

    /// No two instructions share an opcode.
    pub proof fn lemma_opcode_injective(a: Instruction, b: Instruction)
        requires
            Instruction::opcode(a.mnemonic, a.addressing_mode) is Some,
            Instruction::opcode(a.mnemonic, a.addressing_mode) == Instruction::opcode(
                b.mnemonic,
                b.addressing_mode,
            ),
        ensures
            a == b,
    {
    }

    /// Decoding inverts encoding: `byte` decodes to `instruction` exactly if
    /// `instruction` is encoded as `byte`.
    pub proof fn lemma_from_byte_inverts_opcode(byte: u8, instruction: Instruction)
        ensures
            Instruction::spec_from_byte(byte) == Some(instruction) <==> Instruction::opcode(
                instruction.mnemonic,
                instruction.addressing_mode,
            ) == Some(byte),
    {
        if Instruction::opcode(instruction.mnemonic, instruction.addressing_mode) == Some(byte) {
            let chosen = Instruction::spec_from_byte(byte)->0;
            Instruction::lemma_opcode_injective(instruction, chosen);
        }
    }

    /// An instruction that has an opcode is a load or a store with a mode
    /// that names an operand, or a transfer or NOP with implied addressing.
    pub proof fn lemma_executable_modes(instruction: Instruction)
        requires
            instruction.is_executable(),
        ensures
            if instruction.mnemonic.is_load() || instruction.mnemonic.is_store() {
                instruction.addressing_mode.is_resolvable()
            } else {
                instruction.addressing_mode == AddressingMode::Implied
            },
            !instruction.mnemonic.is_store() || instruction.addressing_mode
                != AddressingMode::Immediate,
    {
    }

    /// The instruction with this mnemonic and mode, whether or not the
    /// processor has an opcode for it.
    pub fn new(mnemonic: Mnemonic, addressing_mode: AddressingMode) -> (instruction: Instruction)
        ensures
            instruction == (Instruction { mnemonic, addressing_mode }),
    {
        Instruction { mnemonic, addressing_mode }
    }

    /// Decodes an opcode byte. `None` means that the byte is no opcode of the
    /// modeled instruction set.
    pub fn from_byte(byte: u8) -> (decoded: Option<Instruction>)
        ensures
            decoded == Instruction::spec_from_byte(byte),
            decoded matches Some(instruction) ==> Instruction::opcode(
                instruction.mnemonic,
                instruction.addressing_mode,
            ) == Some(byte),
            decoded is None ==> forall|mnemonic: Mnemonic, addressing_mode: AddressingMode|
                Instruction::opcode(mnemonic, addressing_mode) != Some(byte),
    {
        let decoded = match byte {
            0xA9 => Some(Instruction::new(Mnemonic::LDA, AddressingMode::Immediate)),
            0xA5 => Some(Instruction::new(Mnemonic::LDA, AddressingMode::ZeroPage(IndexedBy::NoIndex))),
            0xB5 => Some(Instruction::new(Mnemonic::LDA, AddressingMode::ZeroPage(IndexedBy::X))),
            0xAD => Some(Instruction::new(Mnemonic::LDA, AddressingMode::Absolute(IndexedBy::NoIndex))),
            0xBD => Some(Instruction::new(Mnemonic::LDA, AddressingMode::Absolute(IndexedBy::X))),
            0xB9 => Some(Instruction::new(Mnemonic::LDA, AddressingMode::Absolute(IndexedBy::Y))),
            0xA1 => Some(Instruction::new(Mnemonic::LDA, AddressingMode::Indirect(IndexedBy::X))),
            0xB1 => Some(Instruction::new(Mnemonic::LDA, AddressingMode::Indirect(IndexedBy::Y))),
            0xA2 => Some(Instruction::new(Mnemonic::LDX, AddressingMode::Immediate)),
            0xA6 => Some(Instruction::new(Mnemonic::LDX, AddressingMode::ZeroPage(IndexedBy::NoIndex))),
            0xB6 => Some(Instruction::new(Mnemonic::LDX, AddressingMode::ZeroPage(IndexedBy::Y))),
            0xAE => Some(Instruction::new(Mnemonic::LDX, AddressingMode::Absolute(IndexedBy::NoIndex))),
            0xBE => Some(Instruction::new(Mnemonic::LDX, AddressingMode::Absolute(IndexedBy::Y))),
            0xA0 => Some(Instruction::new(Mnemonic::LDY, AddressingMode::Immediate)),
            0xA4 => Some(Instruction::new(Mnemonic::LDY, AddressingMode::ZeroPage(IndexedBy::NoIndex))),
            0xB4 => Some(Instruction::new(Mnemonic::LDY, AddressingMode::ZeroPage(IndexedBy::X))),
            0xAC => Some(Instruction::new(Mnemonic::LDY, AddressingMode::Absolute(IndexedBy::NoIndex))),
            0xBC => Some(Instruction::new(Mnemonic::LDY, AddressingMode::Absolute(IndexedBy::X))),
            0x85 => Some(Instruction::new(Mnemonic::STA, AddressingMode::ZeroPage(IndexedBy::NoIndex))),
            0x95 => Some(Instruction::new(Mnemonic::STA, AddressingMode::ZeroPage(IndexedBy::X))),
            0x8D => Some(Instruction::new(Mnemonic::STA, AddressingMode::Absolute(IndexedBy::NoIndex))),
            0x9D => Some(Instruction::new(Mnemonic::STA, AddressingMode::Absolute(IndexedBy::X))),
            0x99 => Some(Instruction::new(Mnemonic::STA, AddressingMode::Absolute(IndexedBy::Y))),
            0x81 => Some(Instruction::new(Mnemonic::STA, AddressingMode::Indirect(IndexedBy::X))),
            0x91 => Some(Instruction::new(Mnemonic::STA, AddressingMode::Indirect(IndexedBy::Y))),
            0x86 => Some(Instruction::new(Mnemonic::STX, AddressingMode::ZeroPage(IndexedBy::NoIndex))),
            0x96 => Some(Instruction::new(Mnemonic::STX, AddressingMode::ZeroPage(IndexedBy::Y))),
            0x8E => Some(Instruction::new(Mnemonic::STX, AddressingMode::Absolute(IndexedBy::NoIndex))),
            0x84 => Some(Instruction::new(Mnemonic::STY, AddressingMode::ZeroPage(IndexedBy::NoIndex))),
            0x94 => Some(Instruction::new(Mnemonic::STY, AddressingMode::ZeroPage(IndexedBy::X))),
            0x8C => Some(Instruction::new(Mnemonic::STY, AddressingMode::Absolute(IndexedBy::NoIndex))),
            0xAA => Some(Instruction::new(Mnemonic::TAX, AddressingMode::Implied)),
            0xA8 => Some(Instruction::new(Mnemonic::TAY, AddressingMode::Implied)),
            0xBA => Some(Instruction::new(Mnemonic::TSX, AddressingMode::Implied)),
            0x8A => Some(Instruction::new(Mnemonic::TXA, AddressingMode::Implied)),
            0x9A => Some(Instruction::new(Mnemonic::TXS, AddressingMode::Implied)),
            0x98 => Some(Instruction::new(Mnemonic::TYA, AddressingMode::Implied)),
            0xEA => Some(Instruction::new(Mnemonic::NOP, AddressingMode::Implied)),
            _ => None,
        };
        proof {
            match decoded {
                Some(instruction) => {
                    Instruction::lemma_from_byte_inverts_opcode(byte, instruction);
                },
                None => {
                    assert forall|instruction: Instruction|
                        Instruction::opcode(instruction.mnemonic, instruction.addressing_mode)
                            != Some(byte) by {}
                    assert forall|mnemonic: Mnemonic, addressing_mode: AddressingMode|
                        Instruction::opcode(mnemonic, addressing_mode) != Some(byte) by {
                        let instruction = Instruction { mnemonic, addressing_mode };
                        assert(Instruction::opcode(
                            instruction.mnemonic,
                            instruction.addressing_mode,
                        ) != Some(byte));
                    }
                },
            }
        }
        decoded
    }
}

} // verus!
