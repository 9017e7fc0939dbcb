//! The state that the frame loop carries from one frame to the next, and what
//! each input command does to it.
//!
//! The state is a plain record. Whoever owns the window and the clock decodes
//! its events into the commands below, applies them here and reads the record
//! back when it draws the next frame.

use vstd::prelude::*;

verus! {

/// The selector that a new state starts with: the first kind.
pub const SOMBREADOR_INICIAL: u32 = 0;

/// What the frame loop knows between two frames.
#[derive(Debug, Clone, Copy, PartialEq, Eq, Structural)]
pub struct EstadoAplicacion {
    /// Width of the drawing surface in pixels.
    pub ancho: u32,
    /// Height of the drawing surface in pixels.
    pub alto: u32,
    /// Selector of the active shader.
    pub sombreador: u32,
    /// While set, the animation clock stands still.
    pub pausado: bool,
    /// The animation clock, in milliseconds since the last reset.
    pub tiempo_ms: u64,
    /// Whether the left mouse button is held down.
    pub mouse_presionado: bool,
    /// Whether the pointer has been seen at least once.
    pub posicion_conocida: bool,
}

/// An input command, already decoded.
#[derive(Debug, Clone, Copy, PartialEq, Eq, Structural)]
pub enum Comando {
    /// Make the shader with this selector the active one.
    SeleccionarSombreador(u32),
    /// Stop the animation clock if it runs, start it if it stands.
    AlternarPausa,
    /// Set the animation clock back to zero.
    ReiniciarAnimacion,
    /// The drawing surface now has this width and height.
    Redimensionar(u32, u32),
}

impl EstadoAplicacion {
    /// The state at start: the given surface size, the first shader, a
    /// running clock at zero, no button held and no pointer seen.
    pub open spec fn inicial(ancho: u32, alto: u32) -> EstadoAplicacion {
        EstadoAplicacion {
            ancho,
            alto,
            sombreador: SOMBREADOR_INICIAL,
            pausado: false,
            tiempo_ms: 0,
            mouse_presionado: false,
            posicion_conocida: false,
        }
    }

    /// Whether a surface of this size is accepted: neither side may be zero.
    pub open spec fn tamano_aceptado(ancho: u32, alto: u32) -> bool {
        ancho > 0 && alto > 0
    }

    /// The state after a change of the surface's size. A size with a side of
    /// zero is ignored.
    pub open spec fn redimensionado(self, ancho: u32, alto: u32) -> EstadoAplicacion {
        if Self::tamano_aceptado(ancho, alto) {
            EstadoAplicacion { ancho, alto, ..self }
        } else {
            self
        }
    }

    /// The state after a command.
    pub open spec fn tras(self, comando: Comando) -> EstadoAplicacion {
        match comando {
            Comando::SeleccionarSombreador(selector) => EstadoAplicacion {
                sombreador: selector,
                ..self
            },
            Comando::AlternarPausa => EstadoAplicacion { pausado: !self.pausado, ..self },
            Comando::ReiniciarAnimacion => EstadoAplicacion { tiempo_ms: 0, ..self },
            Comando::Redimensionar(ancho, alto) => self.redimensionado(ancho, alto),
        }
    }

    /// The clock after `delta_ms` more milliseconds: it stands still while
    /// paused and stays at the largest value once it has reached it.
    pub open spec fn reloj_tras(self, delta_ms: u64) -> u64 {
        if self.pausado {
            self.tiempo_ms
        } else if self.tiempo_ms + delta_ms > u64::MAX {
            u64::MAX
        } else {
            (self.tiempo_ms + delta_ms) as u64
        }
    }

    /// Whether a movement of the pointer turns the camera: only while the
    /// button is held and an earlier position is there to measure from.
    pub open spec fn arrastra(self) -> bool {
        self.mouse_presionado && self.posicion_conocida
    }

    pub fn nuevo(ancho: u32, alto: u32) -> (e: Self)
        ensures
            e == Self::inicial(ancho, alto),
    {
        EstadoAplicacion {
            ancho,
            alto,
            sombreador: SOMBREADOR_INICIAL,
            pausado: false,
            tiempo_ms: 0,
            mouse_presionado: false,
            posicion_conocida: false,
        }
    }

    /// Takes a new size of the surface. Returns whether it was accepted, in
    /// which case the surface has to be configured anew; a size with a side
    /// of zero leaves the state as it is.
    pub fn redimensionar(&mut self, ancho: u32, alto: u32) -> (aceptado: bool)
        ensures
            aceptado == Self::tamano_aceptado(ancho, alto),
            *final(self) == old(self).redimensionado(ancho, alto),
    {
        if ancho > 0 && alto > 0 {
            self.ancho = ancho;
            self.alto = alto;
            true
        } else {
            false
        }
    }

    /// Records whether the left button is held.
    pub fn procesar_mouse_click(&mut self, presionado: bool)
        ensures
            *final(self) == (EstadoAplicacion { mouse_presionado: presionado, ..*old(self) }),
    {
        self.mouse_presionado = presionado;
    }

    /// Records that the pointer has moved. Returns whether the movement turns
    /// the camera, measured from the position seen before.
    pub fn procesar_movimiento_mouse(&mut self) -> (gira: bool)
        ensures
            gira == old(self).arrastra(),
            *final(self) == (EstadoAplicacion { posicion_conocida: true, ..*old(self) }),
    {
        let gira = self.mouse_presionado && self.posicion_conocida;
        self.posicion_conocida = true;
        gira
    }

    /// Advances the animation clock by `delta_ms` milliseconds.
    pub fn actualizar(&mut self, delta_ms: u64)
        ensures
            *final(self) == (EstadoAplicacion {
                tiempo_ms: old(self).reloj_tras(delta_ms),
                ..*old(self)
            }),
            final(self).tiempo_ms >= old(self).tiempo_ms,
    {
        if !self.pausado {
            self.tiempo_ms = self.tiempo_ms.saturating_add(delta_ms);
        }
    }

    /// Applies an input command.
    pub fn aplicar(&mut self, comando: Comando)
        ensures
            *final(self) == old(self).tras(comando),
    {
        match comando {
            Comando::SeleccionarSombreador(selector) => {
                self.sombreador = selector;
            },
            Comando::AlternarPausa => {
                self.pausado = !self.pausado;
            },
            Comando::ReiniciarAnimacion => {
                self.tiempo_ms = 0;
            },
            Comando::Redimensionar(ancho, alto) => {
                self.redimensionar(ancho, alto);
            },
        }
    }
}

/// Pausing twice leaves the state as it was.
pub proof fn ley_pausa_doble(e: EstadoAplicacion)
    ensures
        e.tras(Comando::AlternarPausa).tras(Comando::AlternarPausa) == e,
{
}

/// A reset sets the clock to zero and nothing else, and a second reset
/// changes nothing more.
pub proof fn ley_reinicio(e: EstadoAplicacion)
    ensures
        e.tras(Comando::ReiniciarAnimacion).tiempo_ms == 0,
        e.tras(Comando::ReiniciarAnimacion) == (EstadoAplicacion { tiempo_ms: 0, ..e }),
        e.tras(Comando::ReiniciarAnimacion).tras(Comando::ReiniciarAnimacion) == e.tras(
            Comando::ReiniciarAnimacion,
        ),
{
}

/// While paused the clock stands still; while running it never goes back.
pub proof fn ley_reloj_monotono(e: EstadoAplicacion, delta_ms: u64)
    ensures
        e.pausado ==> e.reloj_tras(delta_ms) == e.tiempo_ms,
        e.reloj_tras(delta_ms) >= e.tiempo_ms,
        !e.pausado && e.tiempo_ms + delta_ms <= u64::MAX ==> e.reloj_tras(delta_ms) == e.tiempo_ms
            + delta_ms,
{
}

/// No command makes a side of the surface zero that was not zero before.
pub proof fn ley_superficie_no_degenera(e: EstadoAplicacion, comando: Comando)
    requires
        EstadoAplicacion::tamano_aceptado(e.ancho, e.alto),
    ensures
        EstadoAplicacion::tamano_aceptado(e.tras(comando).ancho, e.tras(comando).alto),
{
}

} // verus!
