//! RGB colours with eight bits per channel and their packed `0xRRGGBB` form.

use vstd::prelude::*;

verus! {

/// A colour with eight bits for each of red, green and blue.
#[derive(Debug, Clone, Copy, PartialEq, Eq, Structural)]
pub struct ColorRGB {
    pub rojo: u8,
    pub verde: u8,
    pub azul: u8,
}

/// The sum of two channel values, held at the largest value a channel can take.
pub open spec fn canal_sumado(a: u8, b: u8) -> u8 {
    if a + b > 255 {
        255u8
    } else {
        (a + b) as u8
    }
}

impl ColorRGB {
    /// The colour as one number: red in bits 16 to 23, green in bits 8 to 15,
    /// blue in bits 0 to 7.
    pub open spec fn empaquetado(self) -> int {
        self.rojo * 65536 + self.verde * 256 + self.azul
    }

    /// The colour whose packed form is the low 24 bits of `hex`.
    pub open spec fn desempaquetado(hex: u32) -> ColorRGB {
        ColorRGB {
            rojo: ((hex / 65536) % 256) as u8,
            verde: ((hex / 256) % 256) as u8,
            azul: (hex % 256) as u8,
        }
    }

    /// Channel by channel sum of two colours, each channel held at 255.
    pub open spec fn suma(self, otro: ColorRGB) -> ColorRGB {
        ColorRGB {
            rojo: canal_sumado(self.rojo, otro.rojo),
            verde: canal_sumado(self.verde, otro.verde),
            azul: canal_sumado(self.azul, otro.azul),
        }
    }

    pub fn nuevo(r: u8, g: u8, b: u8) -> (c: Self)
        ensures
            c == (ColorRGB { rojo: r, verde: g, azul: b }),
    {
        ColorRGB { rojo: r, verde: g, azul: b }
    }

    /// Packs the colour as `0xRRGGBB`.
    pub fn a_hexadecimal(&self) -> (hex: u32)
        ensures
            hex == self.empaquetado(),
            hex <= 0xFF_FFFF,
    {
        let r: u8 = self.rojo;
        let g: u8 = self.verde;
        let b: u8 = self.azul;
        assert((((r as u32) << 16) | ((g as u32) << 8) | (b as u32)) == (r as u32) * 65536 + (g as u32)
            * 256 + (b as u32)) by (bit_vector);
        ((r as u32) << 16) | ((g as u32) << 8) | (b as u32)
    }

    /// Reads a colour back from its packed form; bits 24 to 31 are ignored.
    pub fn desde_hexadecimal(hex: u32) -> (c: Self)
        ensures
            c == Self::desempaquetado(hex),
    {
        assert(((hex >> 16) & 0xFF) == (hex / 65536) % 256) by (bit_vector);
        assert(((hex >> 8) & 0xFF) == (hex / 256) % 256) by (bit_vector);
        assert((hex & 0xFF) == hex % 256) by (bit_vector);
        ColorRGB {
            rojo: ((hex >> 16) & 0xFF) as u8,
            verde: ((hex >> 8) & 0xFF) as u8,
            azul: (hex & 0xFF) as u8,
        }
    }

    /// Adds two colours channel by channel; a channel that would pass 255 stays at 255.
    pub fn sumar(&self, otro_color: &ColorRGB) -> (c: ColorRGB)
        ensures
            c == self.suma(*otro_color),
    {
        ColorRGB {
            rojo: self.rojo.saturating_add(otro_color.rojo),
            verde: self.verde.saturating_add(otro_color.verde),
            azul: self.azul.saturating_add(otro_color.azul),
        }
    }
}

/// Unpacking undoes packing: every colour is read back unchanged from its packed form.
pub proof fn ley_empaquetado_reversible(c: ColorRGB)
    ensures
        0 <= c.empaquetado() <= 0xFF_FFFF,
        ColorRGB::desempaquetado(c.empaquetado() as u32) == c,
{
}

/// Two colours with the same packed form are the same colour.
pub proof fn ley_empaquetado_inyectivo(a: ColorRGB, b: ColorRGB)
    requires
        a.empaquetado() == b.empaquetado(),
    ensures
        a == b,
{
    ley_empaquetado_reversible(a);
    ley_empaquetado_reversible(b);
}

/// Adding colours does not depend on the order of the two operands.
pub proof fn ley_suma_conmutativa(a: ColorRGB, b: ColorRGB)
    ensures
        a.suma(b) == b.suma(a),
{
}

/// Black is neutral for the sum.
pub proof fn ley_suma_negro_neutro(a: ColorRGB)
    ensures
        a.suma(ColorRGB { rojo: 0, verde: 0, azul: 0 }) == a,
{
}

} // verus!
