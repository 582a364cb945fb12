//! The peripheral interface: the device that mediates DMA transfers
//! between cartridge ROM and main RAM. This core models the small
//! register file the boot path and DMA setup touch: a RAM address
//! register, a cartridge address register, and the two transfer-length
//! registers whose write completes a DMA descriptor.

use vstd::prelude::*;

verus! {

/// Window offset of the RAM-side address register.
pub const PI_DRAM_ADDR_OFF: u32 = 0x0;

/// Window offset of the cartridge-side address register.
pub const PI_CART_ADDR_OFF: u32 = 0x4;

/// Window offset of the RAM-to-cartridge transfer-length register.
pub const PI_RD_LEN_OFF: u32 = 0x8;

/// Window offset of the cartridge-to-RAM transfer-length register.
pub const PI_WR_LEN_OFF: u32 = 0xC;

/// A completed DMA request: copy `len` bytes from physical address
/// `from` to physical address `to`.
#[derive(Clone, Copy, Debug, PartialEq, Eq, Structural)]
pub struct DmaDescriptor {
    pub from: u32,
    pub to: u32,
    pub len: usize,
}

/// Byte `i` of a 32-bit value, least-significant byte first.
pub open spec fn u32_le_byte(x: u32, i: int) -> u8 {
    if i == 0 {
        (x & 0xFF) as u8
    } else if i == 1 {
        ((x >> 8) & 0xFF) as u8
    } else if i == 2 {
        ((x >> 16) & 0xFF) as u8
    } else {
        ((x >> 24) & 0xFF) as u8
    }
}

/// The 32-bit value held by four bytes, least-significant byte first.
pub open spec fn u32_from_le(b: Seq<u8>) -> u32 {
    ((b[0] as u32) | ((b[1] as u32) << 8) | ((b[2] as u32) << 16) | ((b[3] as u32) << 24)) as u32
}

/// The peripheral-interface register file.
#[derive(Clone, Copy, Debug, PartialEq, Eq, Structural)]
pub struct Pi {
    pub dram_addr: u32,
    pub cart_addr: u32,
}

impl Pi {
    /// A fresh interface with both address registers zero.
    pub fn new() -> (r: Pi)
        ensures
            r.dram_addr == 0,
            r.cart_addr == 0,
    {
        Pi { dram_addr: 0, cart_addr: 0 }
    }

    /// The byte a read at window offset `off` yields: the two address
    /// registers read back least-significant byte first, everything else
    /// reads zero.
    pub open spec fn byte_at(self, off: int) -> u8 {
        if 0 <= off < 4 {
            u32_le_byte(self.dram_addr, off)
        } else if 4 <= off < 8 {
            u32_le_byte(self.cart_addr, off - 4)
        } else {
            0
        }
    }

    /// Reads one byte at a window offset.
    pub fn read_byte(&self, off: u32) -> (b: u8)
        ensures
            b == self.byte_at(off as int),
    {
        if off < 4 {
            le_byte(self.dram_addr, off)
        } else if off < 8 {
            le_byte(self.cart_addr, off - 4)
        } else {
            0
        }
    }

    /// The register file after a write of `data` at window offset `off`:
    /// only a four-byte write at a register offset takes effect.
    pub open spec fn write_state(self, off: int, data: Seq<u8>) -> Pi {
        if data.len() == 4 && off == PI_DRAM_ADDR_OFF {
            Pi { dram_addr: u32_from_le(data), ..self }
        } else if data.len() == 4 && off == PI_CART_ADDR_OFF {
            Pi { cart_addr: u32_from_le(data), ..self }
        } else {
            self
        }
    }

    /// The DMA descriptor a write at window offset `off` completes, if
    /// any: a four-byte write to a transfer-length register starts a
    /// transfer of the register's low 24 bits plus one bytes, between the
    /// two programmed addresses, in the direction the register selects.
    pub open spec fn write_dma(self, off: int, data: Seq<u8>) -> Option<DmaDescriptor> {
        if data.len() == 4 && off == PI_RD_LEN_OFF {
            Some(
                DmaDescriptor {
                    from: self.dram_addr,
                    to: self.cart_addr,
                    len: ((u32_from_le(data) & 0x00FF_FFFF) + 1) as usize,
                },
            )
        } else if data.len() == 4 && off == PI_WR_LEN_OFF {
            Some(
                DmaDescriptor {
                    from: self.cart_addr,
                    to: self.dram_addr,
                    len: ((u32_from_le(data) & 0x00FF_FFFF) + 1) as usize,
                },
            )
        } else {
            None
        }
    }

    /// The DMA descriptor a write would complete, without performing
    /// the write.
    pub fn peek_dma(&self, off: u32, data: &Vec<u8>) -> (r: Option<DmaDescriptor>)
        ensures
            r == self.write_dma(off as int, data@),
    {
        if data.len() == 4 {
            let value = word_from_le(data);
            proof {
                assert(value & 0x00FF_FFFF < 0x0100_0000) by (bit_vector);
            }
            if off == PI_RD_LEN_OFF {
                Some(
                    DmaDescriptor {
                        from: self.dram_addr,
                        to: self.cart_addr,
                        len: ((value & 0x00FF_FFFF) + 1) as usize,
                    },
                )
            } else if off == PI_WR_LEN_OFF {
                Some(
                    DmaDescriptor {
                        from: self.cart_addr,
                        to: self.dram_addr,
                        len: ((value & 0x00FF_FFFF) + 1) as usize,
                    },
                )
            } else {
                None
            }
        } else {
            None
        }
    }

    /// Writes `data` at a window offset; returns the completed DMA
    /// descriptor when the write hits a transfer-length register.
    pub fn write(&mut self, off: u32, data: &Vec<u8>) -> (r: Option<DmaDescriptor>)
        ensures
            *final(self) == old(self).write_state(off as int, data@),
            r == old(self).write_dma(off as int, data@),
    {
        if data.len() == 4 {
            let value = word_from_le(data);
            proof {
                assert(value & 0x00FF_FFFF < 0x0100_0000) by (bit_vector);
            }
            if off == PI_DRAM_ADDR_OFF {
                self.dram_addr = value;
                None
            } else if off == PI_CART_ADDR_OFF {
                self.cart_addr = value;
                None
            } else if off == PI_RD_LEN_OFF {
                Some(
                    DmaDescriptor {
                        from: self.dram_addr,
                        to: self.cart_addr,
                        len: ((value & 0x00FF_FFFF) + 1) as usize,
                    },
                )
            } else if off == PI_WR_LEN_OFF {
                Some(
                    DmaDescriptor {
                        from: self.cart_addr,
                        to: self.dram_addr,
                        len: ((value & 0x00FF_FFFF) + 1) as usize,
                    },
                )
            } else {
                None
            }
        } else {
            None
        }
    }
}

/// Byte `i` of a 32-bit value, least-significant byte first.
pub fn le_byte(x: u32, i: u32) -> (b: u8)
    requires
        i < 4,
    ensures
        b == u32_le_byte(x, i as int),
{
    proof {
        assert(x & 0xFF < 256 && (x >> 8) & 0xFF < 256 && (x >> 16) & 0xFF < 256 && (x >> 24)
            & 0xFF < 256) by (bit_vector);
    }
    if i == 0 {
        (x & 0xFF) as u8
    } else if i == 1 {
        ((x >> 8) & 0xFF) as u8
    } else if i == 2 {
        ((x >> 16) & 0xFF) as u8
    } else {
        ((x >> 24) & 0xFF) as u8
    }
}

/// The four bytes of a 32-bit value, least-significant byte first: the
/// order words travel on the wire to RAM and to coprocessor memory.
pub open spec fn u32_le_seq(x: u32) -> Seq<u8> {
    seq![u32_le_byte(x, 0), u32_le_byte(x, 1), u32_le_byte(x, 2), u32_le_byte(x, 3)]
}

/// Serializes a 32-bit value, least-significant byte first.
pub fn le_bytes_vec(x: u32) -> (v: Vec<u8>)
    ensures
        v@ == u32_le_seq(x),
{
    let mut v: Vec<u8> = Vec::new();
    v.push(le_byte(x, 0));
    v.push(le_byte(x, 1));
    v.push(le_byte(x, 2));
    v.push(le_byte(x, 3));
    proof {
        assert(v@ =~= u32_le_seq(x));
    }
    v
}

/// Assembles four bytes, least-significant first, into a 32-bit value.
pub fn word_from_le(b: &Vec<u8>) -> (r: u32)
    requires
        b@.len() == 4,
    ensures
        r == u32_from_le(b@),
{
    (b[0] as u32) | ((b[1] as u32) << 8) | ((b[2] as u32) << 16) | ((b[3] as u32) << 24)
}

} // verus!
