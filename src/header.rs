use vstd::prelude::*;

verus! {

/// How the two kilobytes of nametable RAM are laid out over the four logical tables.
#[derive(Debug, Clone, Copy, PartialEq, Eq, Structural)]
pub enum Mirroring {
    /// Two tables stacked vertically: `$2000` = `$2400`, `$2800` = `$2C00`.
    Horizontal,
    /// Two tables side by side: `$2000` = `$2800`, `$2400` = `$2C00`.
    Vertical,
}

impl Default for Mirroring {
    fn default() -> (r: Self)
        ensures
            r == Mirroring::Horizontal,
    {
        Mirroring::Horizontal
    }
}

/// The structured content of a 16-byte iNES header.
#[derive(Debug, Clone, Copy, PartialEq, Eq, Structural)]
pub struct CartridgeHeader {
    pub mapper_id: u8,
    pub prg_rom_size: usize,
    pub prg_ram_size: usize,
    pub chr_rom_size: usize,
    pub chr_ram_size: usize,
    pub has_trainer: bool,
    pub mirroring: Mirroring,
    pub is_v2: bool,
}

impl Default for CartridgeHeader {
    fn default() -> (r: Self)
        ensures
            r == CartridgeHeader::empty(),
    {
        CartridgeHeader {
            mapper_id: 0,
            prg_rom_size: 0,
            prg_ram_size: 0,
            chr_rom_size: 0,
            chr_ram_size: 0,
            has_trainer: false,
            mirroring: Mirroring::Horizontal,
            is_v2: false,
        }
    }
}

pub const KIB: usize = 1024;

/// True when the first four bytes are `"NES\x1A"`.
pub open spec fn has_magic(data: Seq<u8>) -> bool {
    data[0] == 0x4e && data[1] == 0x45 && data[2] == 0x53 && data[3] == 0x1a
}

/// A version-2 size field: `64 << (nibble)`.
pub open spec fn v2_size(byte: u8) -> usize {
    (64usize << ((byte & 0x0f) as usize)) as usize
}

/// The header that the 16 bytes describe (meaningful when `has_magic` holds).
pub open spec fn header_of(data: Seq<u8>) -> CartridgeHeader {
    let is_v2 = data[7] & 0x0c == 0x08;
    let prg_rom_size = (data[4] as usize * 16 * KIB) as usize;
    let chr_rom_size = (data[5] as usize * 8 * KIB) as usize;
    CartridgeHeader {
        mapper_id: (data[6] >> 4) | (data[7] & 0xf0),
        prg_rom_size,
        chr_rom_size,
        prg_ram_size: if is_v2 {
            v2_size(data[10])
        } else if data[8] == 0 {
            (8 * KIB) as usize
        } else {
            (data[8] as usize * 8 * KIB) as usize
        },
        chr_ram_size: if is_v2 {
            v2_size(data[11])
        } else if chr_rom_size == 0 {
            (8 * KIB) as usize
        } else {
            0
        },
        has_trainer: data[6] & 0x04 != 0,
        mirroring: if data[6] & 0x01 != 0 {
            Mirroring::Vertical
        } else {
            Mirroring::Horizontal
        },
        is_v2,
    }
}

fn v2_size_of(byte: u8) -> (r: usize)
    ensures
        r == v2_size(byte),
{
    let n = byte & 0x0f;
    assert(byte & 0x0f <= 15u8) by (bit_vector);
    64usize << (n as usize)
}

/// The nibble `k` below 16 with `64 << k == size`, searching upward from `k`; 0 if none.
pub open spec fn size_code_from(size: usize, k: nat) -> u8
    decreases 16 - k,
{
    if k >= 16 {
        0
    } else if (64usize << (k as usize)) == size {
        k as u8
    } else {
        size_code_from(size, k + 1)
    }
}

/// The version-2 nibble that encodes `size`.
pub open spec fn size_code(size: usize) -> u8 {
    size_code_from(size, 0)
}

/// The 16 header bytes that describe `h`.
pub open spec fn bytes_of(h: CartridgeHeader) -> Seq<u8> {
    seq![
        0x4eu8,
        0x45u8,
        0x53u8,
        0x1au8,
        (h.prg_rom_size / 16384) as u8,
        (h.chr_rom_size / 8192) as u8,
        ((h.mapper_id << 4u8) | (if h.has_trainer { 0x04u8 } else { 0 }) | (if h.mirroring
            == Mirroring::Vertical { 0x01u8 } else { 0 })) as u8,
        ((h.mapper_id & 0xf0) | (if h.is_v2 { 0x08u8 } else { 0 })) as u8,
        if h.is_v2 { 0u8 } else { (h.prg_ram_size / 8192) as u8 },
        0u8,
        if h.is_v2 { size_code(h.prg_ram_size) } else { 0u8 },
        if h.is_v2 { size_code(h.chr_ram_size) } else { 0u8 },
        0u8,
        0u8,
        0u8,
        0u8,
    ]
}

fn size_code_of(size: usize) -> (r: u8)
    ensures
        r == size_code(size),
{
    let mut k: usize = 0;
    while k < 16
        invariant
            k <= 16,
            size_code(size) == size_code_from(size, k as nat),
        decreases 16 - k,
    {
        if (64usize << k) == size {
            return k as u8;
        }
        k += 1;
    }
    0
}

impl CartridgeHeader {
    pub open spec fn empty() -> CartridgeHeader {
        CartridgeHeader {
            mapper_id: 0,
            prg_rom_size: 0,
            prg_ram_size: 0,
            chr_rom_size: 0,
            chr_ram_size: 0,
            has_trainer: false,
            mirroring: Mirroring::Horizontal,
            is_v2: false,
        }
    }

    /// Decodes the 16-byte iNES header.
    pub fn from_nes(data: [u8; 16]) -> (r: Result<Self, crate::error::NesParseError>)
        ensures
            has_magic(data@) <==> r.is_ok(),
            r.is_ok() ==> r.unwrap() == header_of(data@),
            !has_magic(data@) ==> r == Err::<Self, _>(
                crate::error::NesParseError::InvalidMagicNumber([data[0], data[1], data[2], data[3]]),
            ),
    {
        if !(data[0] == 0x4e && data[1] == 0x45 && data[2] == 0x53 && data[3] == 0x1a) {
            return Err(
                crate::error::NesParseError::InvalidMagicNumber([data[0], data[1], data[2], data[3]]),
            );
        }
        let is_v2 = data[7] & 0x0c == 0x08;
        let prg_rom_size = (data[4] as usize) * 16 * KIB;
        let chr_rom_size = (data[5] as usize) * 8 * KIB;
        let prg_ram_size = if is_v2 {
            v2_size_of(data[10])
        } else if data[8] == 0 {
            (8 * KIB) as usize
        } else {
            (data[8] as usize) * 8 * KIB
        };
        let chr_ram_size = if is_v2 {
            v2_size_of(data[11])
        } else if chr_rom_size == 0 {
            (8 * KIB) as usize
        } else {
            0
        };
        let mirroring = if data[6] & 0x01 != 0 {
            Mirroring::Vertical
        } else {
            Mirroring::Horizontal
        };
        Ok(CartridgeHeader {
            mapper_id: (data[6] >> 4) | (data[7] & 0xf0),
            prg_rom_size,
            chr_rom_size,
            prg_ram_size,
            chr_ram_size,
            has_trainer: data[6] & 0x04 != 0,
            mirroring,
            is_v2,
        })
    }

    /// The 16 header bytes that describe this header.
    pub fn to_nes(&self) -> (r: [u8; 16])
        requires
            self.prg_rom_size / 16384 <= 255,
            self.chr_rom_size / 8192 <= 255,
            !self.is_v2 ==> self.prg_ram_size / 8192 <= 255,
        ensures
            r@ == bytes_of(*self),
    {
        let trainer: u8 = if self.has_trainer { 0x04 } else { 0 };
        let vertical: u8 = match self.mirroring {
            Mirroring::Vertical => 0x01,
            Mirroring::Horizontal => 0,
        };
        let v2: u8 = if self.is_v2 { 0x08 } else { 0 };
        let prg_ram_units: u8 = if self.is_v2 { 0 } else { (self.prg_ram_size / (8 * KIB)) as u8 };
        let prg_ram_code: u8 = if self.is_v2 { size_code_of(self.prg_ram_size) } else { 0 };
        let chr_ram_code: u8 = if self.is_v2 { size_code_of(self.chr_ram_size) } else { 0 };
        let r = [
            0x4e,
            0x45,
            0x53,
            0x1a,
            (self.prg_rom_size / (16 * KIB)) as u8,
            (self.chr_rom_size / (8 * KIB)) as u8,
            (self.mapper_id << 4u8) | trainer | vertical,
            (self.mapper_id & 0xf0) | v2,
            prg_ram_units,
            0,
            prg_ram_code,
            chr_ram_code,
            0,
            0,
            0,
            0,
        ];
        assert(r@ =~= bytes_of(*self));
        r
    }

    pub open spec fn total_size_spec(&self) -> int {
        16 + self.chr_rom_size + self.prg_rom_size + if self.has_trainer { 512int } else { 0 }
    }

    /// Number of bytes of the whole image: header, trainer, PRG-ROM and CHR-ROM.
    pub fn total_size(&self) -> (r: usize)
        requires
            self.total_size_spec() <= usize::MAX,
        ensures
            r == self.total_size_spec(),
    {
        let mut size = 16 + self.chr_rom_size + self.prg_rom_size;
        if self.has_trainer {
            size += 512;
        }
        size
    }
}

} // verus!
