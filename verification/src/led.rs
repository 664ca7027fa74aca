//! The LED-matrix colour model: 8x8 images of RGB colours and the gamma
//! correction applied before a colour is driven onto the matrix.
//! Floating-point intensity scaling lives with the hardware-facing code,
//! outside this library.

use vstd::prelude::*;

verus! {

/// Adds two sizes.
pub fn add(left: usize, right: usize) -> (r: usize)
    requires
        left + right <= usize::MAX,
    ensures
        r == left + right,
{
    left + right
}

/// An RGB colour, one byte per channel.
#[derive(Clone, Copy, PartialEq, Eq, Structural, Debug)]
pub struct Color {
    pub r: u8,
    pub g: u8,
    pub b: u8,
}

impl Color {
    /// The colour with every channel gamma-corrected.
    pub fn gamma_correct(&self) -> (c: Color)
        ensures
            c.r == gamma_seq()[self.r as int],
            c.g == gamma_seq()[self.g as int],
            c.b == gamma_seq()[self.b as int],
    {
        let r = gamma_correct(self.r);
        let g = gamma_correct(self.g);
        let b = gamma_correct(self.b);
        Color { r, g, b }
    }
}

/// An 8x8 image, one colour per pixel, stored row by row.
#[derive(Clone, Copy)]
pub struct Image([Color; 64]);

impl View for Image {
    type V = Seq<Color>;

    closed spec fn view(&self) -> Seq<Color> {
        self.0@
    }
}

impl Image {
    /// An image with every pixel set to the same colour.
    pub fn new_solid(color: Color) -> (img: Image)
        ensures
            img@.len() == 64,
            forall|i: int| 0 <= i < 64 ==> img@[i] == color,
    {
        Image([color; 64])
    }

    /// One row of the image, eight pixels.
    pub fn row(&self, row: usize) -> (r: &[Color])
        requires
            self@.len() == 64,
            row < 8,
        ensures
            r@ == self@.subrange(row as int * 8, row as int * 8 + 8),
    {
        vstd::slice::slice_subrange(self.0.as_slice(), row * 8, row * 8 + 8)
    }

    /// The pixel at column `x` of row `y`.
    pub fn pixel(&self, x: usize, y: usize) -> (c: Color)
        requires
            self@.len() == 64,
            x < 8,
            y < 8,
        ensures
            c == self@[y as int * 8 + x as int],
    {
        self.0[y * 8 + x]
    }

    /// Overwrites the pixel at column `x` of row `y`.
    pub fn set_pixel(&mut self, x: usize, y: usize, c: Color)
        requires
            old(self)@.len() == 64,
            x < 8,
            y < 8,
        ensures
            final(self)@ == old(self)@.update(y as int * 8 + x as int, c),
    {
        self.0[y * 8 + x] = c;
    }
}

/// The gamma-corrected value of one byte: a table lookup.
pub fn gamma_correct(x: u8) -> (r: u8)
    ensures
        r == gamma_seq()[x as int],
{
    let t = gamma_table();
    t[x as usize]
}

/// The gamma correction table: one output byte for each input byte.
pub open spec fn gamma_seq() -> Seq<u8> {
    Seq::empty()
        .push(0x00u8).push(0x01u8).push(0x01u8).push(0x01u8).push(0x01u8).push(0x01u8).push(0x01u8).push(0x01u8)
        .push(0x01u8).push(0x01u8).push(0x02u8).push(0x02u8).push(0x02u8).push(0x02u8).push(0x02u8).push(0x03u8)
        .push(0x03u8).push(0x03u8).push(0x03u8).push(0x04u8).push(0x04u8).push(0x04u8).push(0x04u8).push(0x05u8)
        .push(0x05u8).push(0x05u8).push(0x06u8).push(0x06u8).push(0x06u8).push(0x07u8).push(0x07u8).push(0x08u8)
        .push(0x08u8).push(0x08u8).push(0x09u8).push(0x09u8).push(0x0au8).push(0x0au8).push(0x0bu8).push(0x0bu8)
        .push(0x0bu8).push(0x0cu8).push(0x0cu8).push(0x0du8).push(0x0du8).push(0x0eu8).push(0x0eu8).push(0x0fu8)
        .push(0x0fu8).push(0x10u8).push(0x11u8).push(0x11u8).push(0x12u8).push(0x12u8).push(0x13u8).push(0x13u8)
        .push(0x14u8).push(0x15u8).push(0x15u8).push(0x16u8).push(0x16u8).push(0x17u8).push(0x18u8).push(0x18u8)
        .push(0x19u8).push(0x1au8).push(0x1au8).push(0x1bu8).push(0x1cu8).push(0x1cu8).push(0x1du8).push(0x1eu8)
        .push(0x1eu8).push(0x1fu8).push(0x20u8).push(0x20u8).push(0x21u8).push(0x22u8).push(0x23u8).push(0x23u8)
        .push(0x24u8).push(0x25u8).push(0x26u8).push(0x26u8).push(0x27u8).push(0x28u8).push(0x29u8).push(0x2au8)
        .push(0x2au8).push(0x2bu8).push(0x2cu8).push(0x2du8).push(0x2eu8).push(0x2eu8).push(0x2fu8).push(0x30u8)
        .push(0x31u8).push(0x32u8).push(0x33u8).push(0x34u8).push(0x35u8).push(0x35u8).push(0x36u8).push(0x37u8)
        .push(0x38u8).push(0x39u8).push(0x3au8).push(0x3bu8).push(0x3cu8).push(0x3du8).push(0x3eu8).push(0x3fu8)
        .push(0x40u8).push(0x41u8).push(0x42u8).push(0x42u8).push(0x43u8).push(0x44u8).push(0x45u8).push(0x46u8)
        .push(0x47u8).push(0x48u8).push(0x49u8).push(0x4au8).push(0x4cu8).push(0x4du8).push(0x4eu8).push(0x4fu8)
        .push(0x50u8).push(0x51u8).push(0x52u8).push(0x53u8).push(0x54u8).push(0x55u8).push(0x56u8).push(0x57u8)
        .push(0x58u8).push(0x59u8).push(0x5au8).push(0x5cu8).push(0x5du8).push(0x5eu8).push(0x5fu8).push(0x60u8)
        .push(0x61u8).push(0x62u8).push(0x64u8).push(0x65u8).push(0x66u8).push(0x67u8).push(0x68u8).push(0x69u8)
        .push(0x6bu8).push(0x6cu8).push(0x6du8).push(0x6eu8).push(0x6fu8).push(0x71u8).push(0x72u8).push(0x73u8)
        .push(0x74u8).push(0x75u8).push(0x77u8).push(0x78u8).push(0x79u8).push(0x7au8).push(0x7cu8).push(0x7du8)
        .push(0x7eu8).push(0x7fu8).push(0x81u8).push(0x82u8).push(0x83u8).push(0x85u8).push(0x86u8).push(0x87u8)
        .push(0x89u8).push(0x8au8).push(0x8bu8).push(0x8cu8).push(0x8eu8).push(0x8fu8).push(0x91u8).push(0x92u8)
        .push(0x93u8).push(0x95u8).push(0x96u8).push(0x97u8).push(0x99u8).push(0x9au8).push(0x9bu8).push(0x9du8)
        .push(0x9eu8).push(0xa0u8).push(0xa1u8).push(0xa2u8).push(0xa4u8).push(0xa5u8).push(0xa7u8).push(0xa8u8)
        .push(0xaau8).push(0xabu8).push(0xacu8).push(0xaeu8).push(0xafu8).push(0xb1u8).push(0xb2u8).push(0xb4u8)
        .push(0xb5u8).push(0xb7u8).push(0xb8u8).push(0xbau8).push(0xbbu8).push(0xbdu8).push(0xbeu8).push(0xc0u8)
        .push(0xc1u8).push(0xc3u8).push(0xc4u8).push(0xc6u8).push(0xc7u8).push(0xc9u8).push(0xcau8).push(0xccu8)
        .push(0xcdu8).push(0xcfu8).push(0xd1u8).push(0xd2u8).push(0xd4u8).push(0xd5u8).push(0xd7u8).push(0xd8u8)
        .push(0xdau8).push(0xdcu8).push(0xddu8).push(0xdfu8).push(0xe0u8).push(0xe2u8).push(0xe4u8).push(0xe5u8)
        .push(0xe7u8).push(0xe9u8).push(0xeau8).push(0xecu8).push(0xeeu8).push(0xefu8).push(0xf1u8).push(0xf3u8)
        .push(0xf4u8).push(0xf6u8).push(0xf8u8).push(0xf9u8).push(0xfbu8).push(0xfdu8).push(0xfeu8).push(0xffu8)
}

/// The gamma correction table as bytes in memory.
fn gamma_table() -> (t: Vec<u8>)
    ensures
        t@ == gamma_seq(),
        t@.len() == 256,
{
    let mut t: Vec<u8> = Vec::new();
    t.push(0x00);
    t.push(0x01);
    t.push(0x01);
    t.push(0x01);
    t.push(0x01);
    t.push(0x01);
    t.push(0x01);
    t.push(0x01);
    t.push(0x01);
    t.push(0x01);
    t.push(0x02);
    t.push(0x02);
    t.push(0x02);
    t.push(0x02);
    t.push(0x02);
    t.push(0x03);
    t.push(0x03);
    t.push(0x03);
    t.push(0x03);
    t.push(0x04);
    t.push(0x04);
    t.push(0x04);
    t.push(0x04);
    t.push(0x05);
    t.push(0x05);
    t.push(0x05);
    t.push(0x06);
    t.push(0x06);
    t.push(0x06);
    t.push(0x07);
    t.push(0x07);
    t.push(0x08);
    assert(t@.len() == 32);
    t.push(0x08);
    t.push(0x08);
    t.push(0x09);
    t.push(0x09);
    t.push(0x0a);
    t.push(0x0a);
    t.push(0x0b);
    t.push(0x0b);
    t.push(0x0b);
    t.push(0x0c);
    t.push(0x0c);
    t.push(0x0d);
    t.push(0x0d);
    t.push(0x0e);
    t.push(0x0e);
    t.push(0x0f);
    t.push(0x0f);
    t.push(0x10);
    t.push(0x11);
    t.push(0x11);
    t.push(0x12);
    t.push(0x12);
    t.push(0x13);
    t.push(0x13);
    t.push(0x14);
    t.push(0x15);
    t.push(0x15);
    t.push(0x16);
    t.push(0x16);
    t.push(0x17);
    t.push(0x18);
    t.push(0x18);
    assert(t@.len() == 64);
    t.push(0x19);
    t.push(0x1a);
    t.push(0x1a);
    t.push(0x1b);
    t.push(0x1c);
    t.push(0x1c);
    t.push(0x1d);
    t.push(0x1e);
    t.push(0x1e);
    t.push(0x1f);
    t.push(0x20);
    t.push(0x20);
    t.push(0x21);
    t.push(0x22);
    t.push(0x23);
    t.push(0x23);
    t.push(0x24);
    t.push(0x25);
    t.push(0x26);
    t.push(0x26);
    t.push(0x27);
    t.push(0x28);
    t.push(0x29);
    t.push(0x2a);
    t.push(0x2a);
    t.push(0x2b);
    t.push(0x2c);
    t.push(0x2d);
    t.push(0x2e);
    t.push(0x2e);
    t.push(0x2f);
    t.push(0x30);
    assert(t@.len() == 96);
    t.push(0x31);
    t.push(0x32);
    t.push(0x33);
    t.push(0x34);
    t.push(0x35);
    t.push(0x35);
    t.push(0x36);
    t.push(0x37);
    t.push(0x38);
    t.push(0x39);
    t.push(0x3a);
    t.push(0x3b);
    t.push(0x3c);
    t.push(0x3d);
    t.push(0x3e);
    t.push(0x3f);
    t.push(0x40);
    t.push(0x41);
    t.push(0x42);
    t.push(0x42);
    t.push(0x43);
    t.push(0x44);
    t.push(0x45);
    t.push(0x46);
    t.push(0x47);
    t.push(0x48);
    t.push(0x49);
    t.push(0x4a);
    t.push(0x4c);
    t.push(0x4d);
    t.push(0x4e);
    t.push(0x4f);
    assert(t@.len() == 128);
    t.push(0x50);
    t.push(0x51);
    t.push(0x52);
    t.push(0x53);
    t.push(0x54);
    t.push(0x55);
    t.push(0x56);
    t.push(0x57);
    t.push(0x58);
    t.push(0x59);
    t.push(0x5a);
    t.push(0x5c);
    t.push(0x5d);
    t.push(0x5e);
    t.push(0x5f);
    t.push(0x60);
    t.push(0x61);
    t.push(0x62);
    t.push(0x64);
    t.push(0x65);
    t.push(0x66);
    t.push(0x67);
    t.push(0x68);
    t.push(0x69);
    t.push(0x6b);
    t.push(0x6c);
    t.push(0x6d);
    t.push(0x6e);
    t.push(0x6f);
    t.push(0x71);
    t.push(0x72);
    t.push(0x73);
    assert(t@.len() == 160);
    t.push(0x74);
    t.push(0x75);
    t.push(0x77);
    t.push(0x78);
    t.push(0x79);
    t.push(0x7a);
    t.push(0x7c);
    t.push(0x7d);
    t.push(0x7e);
    t.push(0x7f);
    t.push(0x81);
    t.push(0x82);
    t.push(0x83);
    t.push(0x85);
    t.push(0x86);
    t.push(0x87);
    t.push(0x89);
    t.push(0x8a);
    t.push(0x8b);
    t.push(0x8c);
    t.push(0x8e);
    t.push(0x8f);
    t.push(0x91);
    t.push(0x92);
    t.push(0x93);
    t.push(0x95);
    t.push(0x96);
    t.push(0x97);
    t.push(0x99);
    t.push(0x9a);
    t.push(0x9b);
    t.push(0x9d);
    assert(t@.len() == 192);
    t.push(0x9e);
    t.push(0xa0);
    t.push(0xa1);
    t.push(0xa2);
    t.push(0xa4);
    t.push(0xa5);
    t.push(0xa7);
    t.push(0xa8);
    t.push(0xaa);
    t.push(0xab);
    t.push(0xac);
    t.push(0xae);
    t.push(0xaf);
    t.push(0xb1);
    t.push(0xb2);
    t.push(0xb4);
    t.push(0xb5);
    t.push(0xb7);
    t.push(0xb8);
    t.push(0xba);
    t.push(0xbb);
    t.push(0xbd);
    t.push(0xbe);
    t.push(0xc0);
    t.push(0xc1);
    t.push(0xc3);
    t.push(0xc4);
    t.push(0xc6);
    t.push(0xc7);
    t.push(0xc9);
    t.push(0xca);
    t.push(0xcc);
    assert(t@.len() == 224);
    t.push(0xcd);
    t.push(0xcf);
    t.push(0xd1);
    t.push(0xd2);
    t.push(0xd4);
    t.push(0xd5);
    t.push(0xd7);
    t.push(0xd8);
    t.push(0xda);
    t.push(0xdc);
    t.push(0xdd);
    t.push(0xdf);
    t.push(0xe0);
    t.push(0xe2);
    t.push(0xe4);
    t.push(0xe5);
    t.push(0xe7);
    t.push(0xe9);
    t.push(0xea);
    t.push(0xec);
    t.push(0xee);
    t.push(0xef);
    t.push(0xf1);
    t.push(0xf3);
    t.push(0xf4);
    t.push(0xf6);
    t.push(0xf8);
    t.push(0xf9);
    t.push(0xfb);
    t.push(0xfd);
    t.push(0xfe);
    t.push(0xff);
    assert(t@.len() == 256);
    t
}

} // verus!
