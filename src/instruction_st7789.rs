use vstd::prelude::*;

verus! {

/// ST7789 instructions, each standing for one fixed opcode byte.
#[allow(non_camel_case_types)]
#[derive(Clone, Copy, Debug, PartialEq, Eq, Structural)]
pub enum InstructionST7789 {
    NOP,
    SWRESET,
    RDDID,
    RDDST,
    SLPIN,
    SLPOUT,
    PTLON,
    NORON,
    INVOFF,
    INVON,
    DISPOFF,
    DISPON,
    CASET,
    RASET,
    RAMWR,
    RAMRD,
    PTLAR,
    COLMOD,
    MADCTL,
    MADCTL_MY,
    MADCTL_MX,
    RDID1,
    RDID2,
    RDID3,
    RDID4,
}

impl InstructionST7789 {
    /// The opcode byte that the panel expects for this instruction.
    pub open spec fn opcode(self) -> u8 {
        match self {
            InstructionST7789::NOP => 0x00,
            InstructionST7789::SWRESET => 0x01,
            InstructionST7789::RDDID => 0x04,
            InstructionST7789::RDDST => 0x09,
            InstructionST7789::SLPIN => 0x10,
            InstructionST7789::SLPOUT => 0x11,
            InstructionST7789::PTLON => 0x12,
            InstructionST7789::NORON => 0x13,
            InstructionST7789::INVOFF => 0x20,
            InstructionST7789::INVON => 0x21,
            InstructionST7789::DISPOFF => 0x28,
            InstructionST7789::DISPON => 0x29,
            InstructionST7789::CASET => 0x2A,
            InstructionST7789::RASET => 0x2B,
            InstructionST7789::RAMWR => 0x2C,
            InstructionST7789::RAMRD => 0x2E,
            InstructionST7789::PTLAR => 0x30,
            InstructionST7789::COLMOD => 0x3A,
            InstructionST7789::MADCTL => 0x36,
            InstructionST7789::MADCTL_MY => 0x80,
            InstructionST7789::MADCTL_MX => 0x40,
            InstructionST7789::RDID1 => 0xDA,
            InstructionST7789::RDID2 => 0xDB,
            InstructionST7789::RDID3 => 0xDC,
            InstructionST7789::RDID4 => 0xDD,
        }
    }

    /// The opcode byte of this instruction.
    pub fn to_u8(&self) -> (r: u8)
        ensures
            r == self.opcode(),
    {
        match self {
            InstructionST7789::NOP => 0x00,
            InstructionST7789::SWRESET => 0x01,
            InstructionST7789::RDDID => 0x04,
            InstructionST7789::RDDST => 0x09,
            InstructionST7789::SLPIN => 0x10,
            InstructionST7789::SLPOUT => 0x11,
            InstructionST7789::PTLON => 0x12,
            InstructionST7789::NORON => 0x13,
            InstructionST7789::INVOFF => 0x20,
            InstructionST7789::INVON => 0x21,
            InstructionST7789::DISPOFF => 0x28,
            InstructionST7789::DISPON => 0x29,
            InstructionST7789::CASET => 0x2A,
            InstructionST7789::RASET => 0x2B,
            InstructionST7789::RAMWR => 0x2C,
            InstructionST7789::RAMRD => 0x2E,
            InstructionST7789::PTLAR => 0x30,
            InstructionST7789::COLMOD => 0x3A,
            InstructionST7789::MADCTL => 0x36,
            InstructionST7789::MADCTL_MY => 0x80,
            InstructionST7789::MADCTL_MX => 0x40,
            InstructionST7789::RDID1 => 0xDA,
            InstructionST7789::RDID2 => 0xDB,
            InstructionST7789::RDID3 => 0xDC,
            InstructionST7789::RDID4 => 0xDD,
        }
    }
}

} // verus!
