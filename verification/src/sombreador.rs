//! The shader selector: which surface a number stands for, and what is drawn
//! for a number that stands for none.

use vstd::prelude::*;
use crate::color::ColorRGB;

verus! {

/// The eight kinds of surface, in the order of their selectors.
#[derive(Debug, Clone, Copy, PartialEq, Eq, Structural)]
pub enum TipoDePlaneta {
    Sol,
    Rocoso,
    Gaseoso,
    Volcanico,
    Helado,
    Desertico,
    Lunar,
    Anillo,
}

/// What to do for one fragment.
#[derive(Debug, Clone, Copy, PartialEq, Eq, Structural)]
pub enum Despacho {
    /// Run the shading function of this kind.
    Sombrear(TipoDePlaneta),
    /// Run none and write this colour.
    ColorFijo(ColorRGB),
}

/// How many selectors stand for a kind: those below this number.
pub const CANTIDAD_DE_TIPOS: u32 = 8;

/// The colour written for a selector that stands for no kind: magenta at
/// full intensity.
pub open spec fn centinela() -> ColorRGB {
    ColorRGB { rojo: 255, verde: 0, azul: 255 }
}

/// The kind that a selector stands for, if any.
pub open spec fn tipo_de_selector(selector: u32) -> Option<TipoDePlaneta> {
    if selector == 0 {
        Some(TipoDePlaneta::Sol)
    } else if selector == 1 {
        Some(TipoDePlaneta::Rocoso)
    } else if selector == 2 {
        Some(TipoDePlaneta::Gaseoso)
    } else if selector == 3 {
        Some(TipoDePlaneta::Volcanico)
    } else if selector == 4 {
        Some(TipoDePlaneta::Helado)
    } else if selector == 5 {
        Some(TipoDePlaneta::Desertico)
    } else if selector == 6 {
        Some(TipoDePlaneta::Lunar)
    } else if selector == 7 {
        Some(TipoDePlaneta::Anillo)
    } else {
        None
    }
}

/// What a selector leads to: the shading function of its kind, or the
/// sentinel colour where it has no kind.
pub open spec fn despacho_de(selector: u32) -> Despacho {
    match tipo_de_selector(selector) {
        Some(tipo) => Despacho::Sombrear(tipo),
        None => Despacho::ColorFijo(centinela()),
    }
}

impl TipoDePlaneta {
    /// The selector of this kind.
    pub open spec fn selector_spec(self) -> u32 {
        match self {
            TipoDePlaneta::Sol => 0,
            TipoDePlaneta::Rocoso => 1,
            TipoDePlaneta::Gaseoso => 2,
            TipoDePlaneta::Volcanico => 3,
            TipoDePlaneta::Helado => 4,
            TipoDePlaneta::Desertico => 5,
            TipoDePlaneta::Lunar => 6,
            TipoDePlaneta::Anillo => 7,
        }
    }

    /// The selector of this kind.
    pub fn selector(self) -> (s: u32)
        ensures
            s == self.selector_spec(),
            s < CANTIDAD_DE_TIPOS,
            tipo_de_selector(s) == Some(self),
    {
        match self {
            TipoDePlaneta::Sol => 0,
            TipoDePlaneta::Rocoso => 1,
            TipoDePlaneta::Gaseoso => 2,
            TipoDePlaneta::Volcanico => 3,
            TipoDePlaneta::Helado => 4,
            TipoDePlaneta::Desertico => 5,
            TipoDePlaneta::Lunar => 6,
            TipoDePlaneta::Anillo => 7,
        }
    }

    /// The kind that `selector` stands for: `Some` exactly for the selectors
    /// below `CANTIDAD_DE_TIPOS`.
    pub fn desde_selector(selector: u32) -> (t: Option<TipoDePlaneta>)
        ensures
            t == tipo_de_selector(selector),
            t is Some <==> selector < CANTIDAD_DE_TIPOS,
    {
        match selector {
            0 => Some(TipoDePlaneta::Sol),
            1 => Some(TipoDePlaneta::Rocoso),
            2 => Some(TipoDePlaneta::Gaseoso),
            3 => Some(TipoDePlaneta::Volcanico),
            4 => Some(TipoDePlaneta::Helado),
            5 => Some(TipoDePlaneta::Desertico),
            6 => Some(TipoDePlaneta::Lunar),
            7 => Some(TipoDePlaneta::Anillo),
            _ => None,
        }
    }

    /// Whether the colour of this kind is scaled by the light that falls on
    /// the fragment. The flat ring alone is not: it is coloured by its
    /// distance from the axis only.
    pub fn escala_por_intensidad(self) -> (r: bool)
        ensures
            r == !(self is Anillo),
    {
        match self {
            TipoDePlaneta::Anillo => false,
            _ => true,
        }
    }
}

/// The sentinel colour.
pub fn color_centinela() -> (c: ColorRGB)
    ensures
        c == centinela(),
        c.empaquetado() == 0xFF00FF,
{
    ColorRGB::nuevo(255, 0, 255)
}

/// Routes a selector: to the shading function of its kind, or to the sentinel
/// colour where it stands for none. It never fails.
pub fn despachar(selector: u32) -> (d: Despacho)
    ensures
        d == despacho_de(selector),
        selector >= CANTIDAD_DE_TIPOS ==> d == Despacho::ColorFijo(centinela()),
        selector < CANTIDAD_DE_TIPOS ==> d is Sombrear && d->Sombrear_0.selector_spec() == selector,
{
    match TipoDePlaneta::desde_selector(selector) {
        Some(tipo) => Despacho::Sombrear(tipo),
        None => Despacho::ColorFijo(color_centinela()),
    }
}

/// A selector out of range leads to the sentinel colour and to no shading
/// function of any kind.
pub proof fn ley_selector_desconocido(selector: u32)
    requires
        selector >= CANTIDAD_DE_TIPOS,
    ensures
        despacho_de(selector) == Despacho::ColorFijo(centinela()),
        forall|tipo: TipoDePlaneta| despacho_de(selector) != Despacho::Sombrear(tipo),
{
}

/// Kinds and the selectors below `CANTIDAD_DE_TIPOS` correspond one to one.
pub proof fn ley_selector_y_tipo(selector: u32, tipo: TipoDePlaneta)
    ensures
        tipo_de_selector(tipo.selector_spec()) == Some(tipo),
        tipo.selector_spec() < CANTIDAD_DE_TIPOS,
        tipo_de_selector(selector) == Some(tipo) <==> selector == tipo.selector_spec(),
        despacho_de(selector) == Despacho::Sombrear(tipo) <==> selector == tipo.selector_spec(),
{
}

} // verus!
