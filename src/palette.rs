use vstd::prelude::*;

use crate::error::NesParseError;

verus! {

/// The RGB value of a 3-byte group: `0x00RRGGBB`.
pub open spec fn rgb_of(r: u8, g: u8, b: u8) -> u32 {
    ((r as u32) * 0x10000 + (g as u32) * 0x100 + b as u32) as u32
}

/// The 64 colors the PPU can output, as `0x00RRGGBB`.
#[derive(Clone, Copy)]
pub struct Palette(pub [u32; 64]);

impl Default for Palette {
    /// The built-in NTSC palette.
    fn default() -> (r: Self)
        ensures
            r.0@ == seq![
                0x626262u32, 0x002e98u32, 0x0c11c2u32, 0x3b00c2u32, 0x650098u32, 0x7d004eu32, 0x7d0000u32, 0x651900u32,
                0x3b3600u32, 0x0c4f00u32, 0x005b00u32, 0x005900u32, 0x00494eu32, 0x000000u32, 0x000000u32, 0x000000u32,
                0xabababu32, 0x0064f4u32, 0x3539ffu32, 0x7121feu32, 0xa81cd2u32, 0xc51e7du32, 0xc52a22u32, 0xa64200u32,
                0x715c00u32, 0x357500u32, 0x0a8200u32, 0x008228u32, 0x007492u32, 0x000000u32, 0x000000u32, 0x000000u32,
                0xffffffu32, 0x4ab5ffu32, 0x858cffu32, 0xc174ffu32, 0xf86fffu32, 0xff71cfu32, 0xff7d73u32, 0xf79538u32,
                0xc1af16u32, 0x85c80eu32, 0x5ad432u32, 0x43d47bu32, 0x44c7e4u32, 0x4e4e4eu32, 0x000000u32, 0x000000u32,
                0xffffffu32, 0xb6e1ffu32, 0xced1ffu32, 0xe7c9ffu32, 0xfdc6ffu32, 0xffc7edu32, 0xffcbc8u32, 0xfcd5abu32,
                0xe7e09du32, 0xcee99bu32, 0xbcedaau32, 0xb2edc9u32, 0xb2e8f1u32, 0xb8b8b8u32, 0x000000u32, 0x000000u32,
            ],
    {
        let r = Palette(
            [
                0x626262, 0x002e98, 0x0c11c2, 0x3b00c2, 0x650098, 0x7d004e, 0x7d0000, 0x651900,
                0x3b3600, 0x0c4f00, 0x005b00, 0x005900, 0x00494e, 0x000000, 0x000000, 0x000000,
                0xababab, 0x0064f4, 0x3539ff, 0x7121fe, 0xa81cd2, 0xc51e7d, 0xc52a22, 0xa64200,
                0x715c00, 0x357500, 0x0a8200, 0x008228, 0x007492, 0x000000, 0x000000, 0x000000,
                0xffffff, 0x4ab5ff, 0x858cff, 0xc174ff, 0xf86fff, 0xff71cf, 0xff7d73, 0xf79538,
                0xc1af16, 0x85c80e, 0x5ad432, 0x43d47b, 0x44c7e4, 0x4e4e4e, 0x000000, 0x000000,
                0xffffff, 0xb6e1ff, 0xced1ff, 0xe7c9ff, 0xfdc6ff, 0xffc7ed, 0xffcbc8, 0xfcd5ab,
                0xe7e09d, 0xcee99b, 0xbcedaa, 0xb2edc9, 0xb2e8f1, 0xb8b8b8, 0x000000, 0x000000,
            ],
        );
        assert(r.0@ =~= seq![
                0x626262u32, 0x002e98u32, 0x0c11c2u32, 0x3b00c2u32, 0x650098u32, 0x7d004eu32, 0x7d0000u32, 0x651900u32,
                0x3b3600u32, 0x0c4f00u32, 0x005b00u32, 0x005900u32, 0x00494eu32, 0x000000u32, 0x000000u32, 0x000000u32,
                0xabababu32, 0x0064f4u32, 0x3539ffu32, 0x7121feu32, 0xa81cd2u32, 0xc51e7du32, 0xc52a22u32, 0xa64200u32,
                0x715c00u32, 0x357500u32, 0x0a8200u32, 0x008228u32, 0x007492u32, 0x000000u32, 0x000000u32, 0x000000u32,
                0xffffffu32, 0x4ab5ffu32, 0x858cffu32, 0xc174ffu32, 0xf86fffu32, 0xff71cfu32, 0xff7d73u32, 0xf79538u32,
                0xc1af16u32, 0x85c80eu32, 0x5ad432u32, 0x43d47bu32, 0x44c7e4u32, 0x4e4e4eu32, 0x000000u32, 0x000000u32,
                0xffffffu32, 0xb6e1ffu32, 0xced1ffu32, 0xe7c9ffu32, 0xfdc6ffu32, 0xffc7edu32, 0xffcbc8u32, 0xfcd5abu32,
                0xe7e09du32, 0xcee99bu32, 0xbcedaau32, 0xb2edc9u32, 0xb2e8f1u32, 0xb8b8b8u32, 0x000000u32, 0x000000u32,
        ]);
        r
    }
}

impl Palette {
    /// Reads 64 RGB triples (192 bytes).
    pub fn from_pal(bytes: &[u8]) -> (r: Result<Self, NesParseError>)
        ensures
            r.is_ok() <==> bytes@.len() >= 192,
            bytes@.len() < 192 ==> r == Err::<Self, _>(NesParseError::NotEnough(192)),
            r.is_ok() ==> forall|i: int|
                0 <= i < 64 ==> r.unwrap().0[i] == rgb_of(
                    bytes@[3 * i],
                    bytes@[3 * i + 1],
                    bytes@[3 * i + 2],
                ),
    {
        if bytes.len() < 192 {
            return Err(NesParseError::NotEnough(192));
        }
        let mut colors = [0u32; 64];
        let mut i: usize = 0;
        while i < 64
            invariant
                i <= 64,
                bytes@.len() >= 192,
                forall|j: int|
                    0 <= j < i ==> colors[j] == rgb_of(bytes@[3 * j], bytes@[3 * j + 1], bytes@[3 * j + 2]),
            decreases 64 - i,
        {
            let red = bytes[3 * i] as u32;
            let green = bytes[3 * i + 1] as u32;
            let blue = bytes[3 * i + 2] as u32;
            colors[i] = red * 0x10000 + green * 0x100 + blue;
            i += 1;
        }
        Ok(Palette(colors))
    }

    /// The color at `index mod 64`.
    pub fn get(&self, index: u8) -> (r: u32)
        ensures
            r == self.0[index as int % 64],
    {
        self.0[(index % 64) as usize]
    }
}

} // verus!
