//! The frame buffer: a colour array and a depth array of one frame, both
//! row-major, with a depth-tested write.

use vstd::prelude::*;
use crate::aritmetica::{lema_fila_y_columna, lema_lugar_acotado};
use crate::patron::{es_menor, es_nan, ley_menor_transitiva, menor, INFINITO};

verus! {

/// The background colour of a new buffer.
pub const FONDO_INICIAL: u32 = 0x000000;

/// The depth of a pixel on which nothing has been drawn: farther than every number.
pub const PROFUNDIDAD_INFINITA: u32 = INFINITO;

/// The drawing colour of a new buffer.
pub const COLOR_INICIAL: u32 = 0xFFFFFF;

/// What a frame buffer holds, as mathematical values.
pub struct VistaBuffer {
    pub ancho: nat,
    pub alto: nat,
    /// Packed `0xRRGGBB` colours; the pixel in column `x` of row `y` is at `y * ancho + x`.
    pub colores: Seq<u32>,
    /// Depth patterns, laid out as the colours.
    pub profundidades: Seq<u32>,
    pub color_fondo: u32,
    pub color_actual: u32,
}

impl VistaBuffer {
    /// Both arrays hold one entry for each pixel.
    pub open spec fn bien_formada(self) -> bool {
        &&& self.colores.len() == self.ancho * self.alto
        &&& self.profundidades.len() == self.ancho * self.alto
    }

    /// Whether column `x` of row `y` lies inside the buffer.
    pub open spec fn contiene(self, x: int, y: int) -> bool {
        0 <= x < self.ancho && 0 <= y < self.alto
    }

    /// Where the pixel in column `x` of row `y` is stored.
    pub open spec fn indice(self, x: int, y: int) -> int {
        y * self.ancho + x
    }

    /// A buffer of the given size in its first state: every pixel black and
    /// infinitely far, black background, white drawing colour.
    pub open spec fn inicial(ancho: nat, alto: nat) -> VistaBuffer {
        VistaBuffer {
            ancho,
            alto,
            colores: Seq::new(ancho * alto, |i: int| FONDO_INICIAL),
            profundidades: Seq::new(ancho * alto, |i: int| PROFUNDIDAD_INFINITA),
            color_fondo: FONDO_INICIAL,
            color_actual: COLOR_INICIAL,
        }
    }

    /// The buffer after a clear: every pixel has the background colour and is
    /// infinitely far.
    pub open spec fn limpiada(self) -> VistaBuffer {
        VistaBuffer {
            colores: Seq::new(self.colores.len(), |i: int| self.color_fondo),
            profundidades: Seq::new(self.profundidades.len(), |i: int| PROFUNDIDAD_INFINITA),
            ..self
        }
    }

    /// Whether a point at `(x, y)` with depth `prof` passes the depth test:
    /// it lies inside the buffer and is strictly nearer than what is stored there.
    pub open spec fn pasa_prueba(self, x: int, y: int, prof: u32) -> bool {
        self.contiene(x, y) && menor(prof, self.profundidades[self.indice(x, y)])
    }

    /// The buffer after a point of colour `color` is drawn at `(x, y)` with depth `prof`.
    pub open spec fn con_punto_de_color(self, x: int, y: int, prof: u32, color: u32) -> VistaBuffer {
        if self.pasa_prueba(x, y, prof) {
            VistaBuffer {
                colores: self.colores.update(self.indice(x, y), color),
                profundidades: self.profundidades.update(self.indice(x, y), prof),
                ..self
            }
        } else {
            self
        }
    }

    /// The buffer after a point is drawn in the current colour.
    pub open spec fn con_punto(self, x: int, y: int, prof: u32) -> VistaBuffer {
        self.con_punto_de_color(x, y, prof, self.color_actual)
    }
}

/// A point to draw: a pixel, a depth and a packed colour.
pub struct Punto {
    pub x: int,
    pub y: int,
    pub prof: u32,
    pub color: u32,
}

impl VistaBuffer {
    /// The buffer after `p` is drawn.
    pub open spec fn con(self, p: Punto) -> VistaBuffer {
        self.con_punto_de_color(p.x, p.y, p.prof, p.color)
    }

    /// The buffer after the points of `puntos` are drawn one after another, first to last.
    pub open spec fn con_puntos(self, puntos: Seq<Punto>) -> VistaBuffer
        decreases puntos.len(),
    {
        if puntos.len() == 0 {
            self
        } else {
            self.con_puntos(puntos.drop_last()).con(puntos.last())
        }
    }
}

/// A point to draw, as the rasterizer hands it over: a pixel, the pattern of
/// a depth and a packed colour.
#[derive(Debug, Clone, Copy, PartialEq, Eq, Structural)]
pub struct Muestra {
    pub x: usize,
    pub y: usize,
    pub prof: u32,
    pub color: u32,
}

impl Muestra {
    /// The sample as a point.
    pub open spec fn punto(self) -> Punto {
        Punto { x: self.x as int, y: self.y as int, prof: self.prof, color: self.color }
    }
}

/// The samples as points, in the same order.
pub open spec fn puntos_de(muestras: Seq<Muestra>) -> Seq<Punto> {
    Seq::new(muestras.len(), |i: int| muestras[i].punto())
}

/// Rows times columns is columns times rows.
proof fn lema_filas_por_columnas(filas: int, columnas: int)
    ensures
        filas * columnas == columnas * filas,
{
    vstd::arithmetic::mul::lemma_mul_is_commutative(filas, columnas);
}

/// The colour and depth arrays of one frame.
pub struct BufferDePantalla {
    ancho: usize,
    alto: usize,
    buffer_colores: Vec<u32>,
    buffer_profundidad: Vec<u32>,
    color_fondo: u32,
    color_actual: u32,
}

/// Why a buffer could not be made.
#[derive(Debug, Clone, Copy, PartialEq, Eq, Structural)]
pub enum ErrorDeBuffer {
    /// The number of pixels does not fit in a `usize`.
    DemasiadosPixeles,
}

impl View for BufferDePantalla {
    type V = VistaBuffer;

    closed spec fn view(&self) -> VistaBuffer {
        VistaBuffer {
            ancho: self.ancho as nat,
            alto: self.alto as nat,
            colores: self.buffer_colores@,
            profundidades: self.buffer_profundidad@,
            color_fondo: self.color_fondo,
            color_actual: self.color_actual,
        }
    }
}

impl BufferDePantalla {
    #[verifier::type_invariant]
    spec fn invariante(self) -> bool {
        self@.bien_formada()
    }

    /// A buffer of `w` columns and `h` rows in its first state.
    pub fn nuevo(w: usize, h: usize) -> (b: Self)
        requires
            w * h <= usize::MAX,
        ensures
            b@ == VistaBuffer::inicial(w as nat, h as nat),
            b@.bien_formada(),
    {
        let b = BufferDePantalla {
            ancho: w,
            alto: h,
            buffer_colores: vec![FONDO_INICIAL; w * h],
            buffer_profundidad: vec![PROFUNDIDAD_INFINITA; w * h],
            color_fondo: FONDO_INICIAL,
            color_actual: COLOR_INICIAL,
        };
        assert(b@.colores =~= VistaBuffer::inicial(w as nat, h as nat).colores);
        assert(b@.profundidades =~= VistaBuffer::inicial(w as nat, h as nat).profundidades);
        b
    }

    /// A buffer of `w` columns and `h` rows, or the reason why there is none:
    /// it fails exactly when `w * h` does not fit in a `usize`.
    pub fn crear(w: usize, h: usize) -> (r: Result<Self, ErrorDeBuffer>)
        ensures
            w * h <= usize::MAX ==> r is Ok && r->Ok_0@ == VistaBuffer::inicial(w as nat, h as nat)
                && r->Ok_0@.bien_formada(),
            w * h > usize::MAX ==> r == Err::<Self, ErrorDeBuffer>(ErrorDeBuffer::DemasiadosPixeles),
    {
        match w.checked_mul(h) {
            Some(_) => Ok(Self::nuevo(w, h)),
            None => Err(ErrorDeBuffer::DemasiadosPixeles),
        }
    }

    /// The number of columns.
    pub fn ancho(&self) -> (w: usize)
        ensures
            w == self@.ancho,
    {
        self.ancho
    }

    /// The number of rows.
    pub fn alto(&self) -> (h: usize)
        ensures
            h == self@.alto,
    {
        self.alto
    }

    /// The colour array, one packed colour per pixel, row by row: what is
    /// handed on for display.
    pub fn buffer_colores(&self) -> (v: &Vec<u32>)
        ensures
            v@ == self@.colores,
            v@.len() == self@.ancho * self@.alto,
    {
        proof {
            use_type_invariant(self);
        }
        &self.buffer_colores
    }

    /// The depth array, one pattern per pixel, row by row.
    pub fn buffer_profundidad(&self) -> (v: &Vec<u32>)
        ensures
            v@ == self@.profundidades,
            v@.len() == self@.ancho * self@.alto,
    {
        proof {
            use_type_invariant(self);
        }
        &self.buffer_profundidad
    }

    /// The packed colour of the pixel in column `x` of row `y`, or `None`
    /// where the buffer has no such pixel.
    pub fn color_en(&self, x: usize, y: usize) -> (c: Option<u32>)
        ensures
            c == if self@.contiene(x as int, y as int) {
                Some(self@.colores[self@.indice(x as int, y as int)])
            } else {
                None
            },
    {
        proof {
            use_type_invariant(self);
        }
        if x < self.ancho && y < self.alto {
            proof {
                lema_lugar_acotado(y as int, x as int, self.alto as int, self.ancho as int);
                lema_filas_por_columnas(self.alto as int, self.ancho as int);
            }
            assert(self.ancho * self.alto == self.buffer_colores.len());
            Some(self.buffer_colores[y * self.ancho + x])
        } else {
            None
        }
    }

    /// The depth stored for the pixel in column `x` of row `y`, or `None`
    /// where the buffer has no such pixel.
    pub fn profundidad_en(&self, x: usize, y: usize) -> (p: Option<u32>)
        ensures
            p == if self@.contiene(x as int, y as int) {
                Some(self@.profundidades[self@.indice(x as int, y as int)])
            } else {
                None
            },
    {
        proof {
            use_type_invariant(self);
        }
        if x < self.ancho && y < self.alto {
            proof {
                lema_lugar_acotado(y as int, x as int, self.alto as int, self.ancho as int);
                lema_filas_por_columnas(self.alto as int, self.ancho as int);
            }
            assert(self.ancho * self.alto == self.buffer_profundidad.len());
            Some(self.buffer_profundidad[y * self.ancho + x])
        } else {
            None
        }
    }

    /// Sets every pixel to the background colour and every depth to infinity.
    pub fn limpiar(&mut self)
        ensures
            final(self)@ == old(self)@.limpiada(),
            final(self)@.bien_formada(),
            forall|i: int|
                0 <= i < final(self)@.colores.len() ==> final(self)@.colores[i] == old(
                    self,
                )@.color_fondo,
            forall|i: int|
                0 <= i < final(self)@.profundidades.len() ==> final(self)@.profundidades[i]
                    == PROFUNDIDAD_INFINITA,
    {
        proof {
            use_type_invariant(&*self);
        }
        let n: usize = self.buffer_colores.len();
        let fondo: u32 = self.color_fondo;
        let mut i: usize = 0;
        while i < n
            invariant
                i <= n,
                n == self.buffer_colores.len(),
                n == self.buffer_profundidad.len(),
                n == old(self).buffer_colores.len(),
                self.ancho == old(self).ancho,
                self.alto == old(self).alto,
                self.color_fondo == fondo,
                fondo == old(self).color_fondo,
                self.color_actual == old(self).color_actual,
                self@.bien_formada(),
                forall|j: int| 0 <= j < i ==> self.buffer_colores[j] == fondo,
                forall|j: int| 0 <= j < i ==> self.buffer_profundidad[j] == PROFUNDIDAD_INFINITA,
            decreases n - i,
        {
            self.buffer_colores[i] = fondo;
            self.buffer_profundidad[i] = PROFUNDIDAD_INFINITA;
            i += 1;
        }
        assert(self@.colores =~= old(self)@.limpiada().colores);
        assert(self@.profundidades =~= old(self)@.limpiada().profundidades);
    }

    /// Draws a point in the current colour at column `x` of row `y` if it
    /// passes the depth test there; a point outside the buffer changes nothing.
    pub fn dibujar_punto(&mut self, x: usize, y: usize, prof: u32)
        ensures
            final(self)@ == old(self)@.con_punto(x as int, y as int, prof),
            final(self)@.bien_formada(),
    {
        let color: u32 = self.color_actual;
        self.dibujar_punto_de_color(x, y, prof, color);
    }

    /// Draws a point of colour `color` at column `x` of row `y` if it passes
    /// the depth test there. The current colour plays no part and stays.
    pub fn dibujar_punto_de_color(&mut self, x: usize, y: usize, prof: u32, color: u32)
        ensures
            final(self)@ == old(self)@.con_punto_de_color(x as int, y as int, prof, color),
            final(self)@.bien_formada(),
    {
        proof {
            use_type_invariant(&*self);
        }
        if x < self.ancho && y < self.alto {
            proof {
                lema_lugar_acotado(y as int, x as int, self.alto as int, self.ancho as int);
                lema_filas_por_columnas(self.alto as int, self.ancho as int);
            }
            assert(self.ancho * self.alto == self.buffer_colores.len());
            let indice: usize = y * self.ancho + x;
            if es_menor(prof, self.buffer_profundidad[indice]) {
                self.buffer_colores[indice] = color;
                self.buffer_profundidad[indice] = prof;
            }
        }
    }

    /// Draws the samples one after another, first to last, each under the
    /// depth test.
    pub fn dibujar_muestras(&mut self, muestras: &Vec<Muestra>)
        ensures
            final(self)@ == old(self)@.con_puntos(puntos_de(muestras@)),
            final(self)@.bien_formada(),
    {
        proof {
            use_type_invariant(&*self);
        }
        let mut k: usize = 0;
        while k < muestras.len()
            invariant
                k <= muestras@.len(),
                self@ == old(self)@.con_puntos(puntos_de(muestras@).take(k as int)),
                self@.bien_formada(),
            decreases muestras@.len() - k,
        {
            let m = muestras[k];
            proof {
                let todos = puntos_de(muestras@);
                assert(todos.take(k + 1).drop_last() =~= todos.take(k as int));
                assert(todos.take(k + 1).last() == m.punto());
            }
            self.dibujar_punto_de_color(m.x, m.y, m.prof, m.color);
            k += 1;
        }
        assert(puntos_de(muestras@).take(k as int) =~= puntos_de(muestras@));
    }

    /// Sets the colour that `limpiar` fills the buffer with.
    pub fn establecer_color_fondo(&mut self, color: u32)
        ensures
            final(self)@ == (VistaBuffer { color_fondo: color, ..old(self)@ }),
            final(self)@.bien_formada(),
    {
        proof {
            use_type_invariant(&*self);
        }
        self.color_fondo = color;
    }

    /// Sets the colour that `dibujar_punto` writes.
    pub fn establecer_color_actual(&mut self, color: u32)
        ensures
            final(self)@ == (VistaBuffer { color_actual: color, ..old(self)@ }),
            final(self)@.bien_formada(),
    {
        proof {
            use_type_invariant(&*self);
        }
        self.color_actual = color;
    }
}

/// Inside a buffer, every pixel has a place of its own in the arrays.
pub proof fn ley_indice_en_rango(b: VistaBuffer, x: int, y: int)
    requires
        b.bien_formada(),
        b.contiene(x, y),
    ensures
        0 <= b.indice(x, y) < b.colores.len(),
        b.indice(x, y) % (b.ancho as int) == x,
        b.indice(x, y) / (b.ancho as int) == y,
{
    lema_lugar_acotado(y, x, b.alto as int, b.ancho as int);
    lema_fila_y_columna(y, x, b.ancho as int);
    lema_filas_por_columnas(b.alto as int, b.ancho as int);
}

/// Two different pixels of a buffer are stored at different places.
pub proof fn ley_indice_inyectivo(b: VistaBuffer, x1: int, y1: int, x2: int, y2: int)
    requires
        b.bien_formada(),
        b.contiene(x1, y1),
        b.contiene(x2, y2),
        b.indice(x1, y1) == b.indice(x2, y2),
    ensures
        x1 == x2,
        y1 == y2,
{
    ley_indice_en_rango(b, x1, y1);
    ley_indice_en_rango(b, x2, y2);
}

/// Drawing keeps the size, the two current colours and the shape of the buffer.
pub proof fn ley_dibujar_conserva_forma(b: VistaBuffer, p: Punto)
    requires
        b.bien_formada(),
    ensures
        b.con(p).bien_formada(),
        b.con(p).ancho == b.ancho,
        b.con(p).alto == b.alto,
        b.con(p).color_fondo == b.color_fondo,
        b.con(p).color_actual == b.color_actual,
{
    if b.pasa_prueba(p.x, p.y, p.prof) {
        ley_indice_en_rango(b, p.x, p.y);
    }
}

/// Drawing touches at most the pixel drawn at: every other entry of both
/// arrays stays as it was.
pub proof fn ley_dibujar_es_local(b: VistaBuffer, p: Punto, i: int)
    requires
        b.bien_formada(),
        0 <= i < b.colores.len(),
        !b.contiene(p.x, p.y) || i != b.indice(p.x, p.y),
    ensures
        b.con(p).colores[i] == b.colores[i],
        b.con(p).profundidades[i] == b.profundidades[i],
{
    if b.pasa_prueba(p.x, p.y, p.prof) {
        ley_indice_en_rango(b, p.x, p.y);
    }
}

/// A stored depth never moves away: after a draw each entry is what it was
/// or is strictly nearer, and a colour changes only where the depth got nearer.
pub proof fn ley_profundidad_solo_se_acerca(b: VistaBuffer, p: Punto, i: int)
    requires
        b.bien_formada(),
        0 <= i < b.colores.len(),
    ensures
        b.con(p).profundidades[i] == b.profundidades[i] || menor(
            b.con(p).profundidades[i],
            b.profundidades[i],
        ),
        b.con(p).profundidades[i] == b.profundidades[i] ==> b.con(p).colores[i] == b.colores[i],
{
    if b.pasa_prueba(p.x, p.y, p.prof) {
        ley_indice_en_rango(b, p.x, p.y);
    }
}

/// The depth test does not depend on the order of drawing: of two points at
/// one pixel of which `cerca` is the nearer, the buffer ends as if `cerca`
/// alone had been drawn, whichever of the two is drawn first.
pub proof fn ley_gana_el_mas_cercano(b: VistaBuffer, cerca: Punto, lejos: Punto)
    requires
        b.bien_formada(),
        cerca.x == lejos.x,
        cerca.y == lejos.y,
        menor(cerca.prof, lejos.prof),
    ensures
        b.con(cerca).con(lejos) == b.con(cerca),
        b.con(lejos).con(cerca) == b.con(cerca),
{
    if b.contiene(cerca.x, cerca.y) {
        ley_indice_en_rango(b, cerca.x, cerca.y);
        assert(b.con(lejos).con(cerca).colores =~= b.con(cerca).colores);
        assert(b.con(lejos).con(cerca).profundidades =~= b.con(cerca).profundidades);
        assert(b.con(cerca).con(lejos).colores =~= b.con(cerca).colores);
        assert(b.con(cerca).con(lejos).profundidades =~= b.con(cerca).profundidades);
    }
}

/// On a freshly cleared buffer the nearer of two points at one pixel decides
/// that pixel, in either order of drawing: it shows the colour and the depth
/// of the nearer point.
pub proof fn ley_prueba_de_profundidad(b: VistaBuffer, cerca: Punto, lejos: Punto)
    requires
        b.bien_formada(),
        b.contiene(cerca.x, cerca.y),
        cerca.x == lejos.x,
        cerca.y == lejos.y,
        menor(cerca.prof, lejos.prof),
    ensures
        ({
            let i = b.indice(cerca.x, cerca.y);
            let uno = b.limpiada().con(cerca).con(lejos);
            let otro = b.limpiada().con(lejos).con(cerca);
            &&& uno == otro
            &&& uno.colores[i] == cerca.color
            &&& uno.profundidades[i] == cerca.prof
        }),
{
    let l = b.limpiada();
    ley_gana_el_mas_cercano(l, cerca, lejos);
    ley_indice_en_rango(l, cerca.x, cerca.y);
}

/// Two draws may be swapped when they are at different pixels, when one of
/// the two depths is strictly nearer than the other, or when one of them is no number.
pub proof fn ley_dibujos_conmutan(b: VistaBuffer, p: Punto, q: Punto)
    requires
        b.bien_formada(),
        p.x != q.x || p.y != q.y || menor(p.prof, q.prof) || menor(q.prof, p.prof)
            || es_nan(p.prof) || es_nan(q.prof),
    ensures
        b.con(p).con(q) == b.con(q).con(p),
{
    if p.x == q.x && p.y == q.y {
        if menor(p.prof, q.prof) {
            ley_gana_el_mas_cercano(b, p, q);
        } else if menor(q.prof, p.prof) {
            ley_gana_el_mas_cercano(b, q, p);
        }
    } else {
        ley_dibujar_conserva_forma(b, p);
        ley_dibujar_conserva_forma(b, q);
        if b.contiene(p.x, p.y) && b.contiene(q.x, q.y) {
            ley_indice_en_rango(b, p.x, p.y);
            ley_indice_en_rango(b, q.x, q.y);
            if b.indice(p.x, p.y) == b.indice(q.x, q.y) {
                ley_indice_inyectivo(b, p.x, p.y, q.x, q.y);
            }
            assert(b.con(p).con(q).colores =~= b.con(q).con(p).colores);
            assert(b.con(p).con(q).profundidades =~= b.con(q).con(p).profundidades);
        }
    }
}

/// Clearing forgets what the buffer held: two buffers of one size with the
/// same background and drawing colour are equal after a clear, and a second
/// clear changes nothing.
pub proof fn ley_limpiar_olvida(a: VistaBuffer, b: VistaBuffer)
    requires
        a.bien_formada(),
        b.bien_formada(),
        a.ancho == b.ancho,
        a.alto == b.alto,
        a.color_fondo == b.color_fondo,
        a.color_actual == b.color_actual,
    ensures
        a.limpiada() == b.limpiada(),
        a.limpiada().limpiada() == a.limpiada(),
        a.limpiada().bien_formada(),
{
    assert(a.limpiada().colores =~= b.limpiada().colores);
    assert(a.limpiada().profundidades =~= b.limpiada().profundidades);
    assert(a.limpiada().limpiada().colores =~= a.limpiada().colores);
    assert(a.limpiada().limpiada().profundidades =~= a.limpiada().profundidades);
}

/// After a clear every colour is the background colour and every depth is
/// infinite, whatever the buffer held before.
pub proof fn ley_limpiar_deja_fondo(b: VistaBuffer, i: int)
    requires
        0 <= i < b.colores.len(),
        b.bien_formada(),
    ensures
        b.limpiada().colores[i] == b.color_fondo,
        b.limpiada().profundidades[i] == PROFUNDIDAD_INFINITA,
{
}

impl VistaBuffer {
    /// Whether `p` is drawn at the pixel stored at place `i`.
    pub open spec fn cae_en(self, p: Punto, i: int) -> bool {
        self.contiene(p.x, p.y) && self.indice(p.x, p.y) == i
    }
}

/// Drawing a list of points keeps the size, the two current colours and the
/// shape of the buffer.
pub proof fn ley_dibujar_lista_conserva_forma(b: VistaBuffer, puntos: Seq<Punto>)
    requires
        b.bien_formada(),
    ensures
        b.con_puntos(puntos).bien_formada(),
        b.con_puntos(puntos).ancho == b.ancho,
        b.con_puntos(puntos).alto == b.alto,
        b.con_puntos(puntos).color_fondo == b.color_fondo,
        b.con_puntos(puntos).color_actual == b.color_actual,
    decreases puntos.len(),
{
    if puntos.len() > 0 {
        ley_dibujar_lista_conserva_forma(b, puntos.drop_last());
        ley_dibujar_conserva_forma(b.con_puntos(puntos.drop_last()), puntos.last());
    }
}

/// The depth buffer holds the nearest of what was drawn: after any list of
/// points, in any order, no point of the list that fell on a pixel is nearer
/// than the depth stored there.
pub proof fn ley_nada_dibujado_queda_mas_cerca(b: VistaBuffer, puntos: Seq<Punto>, i: int, k: int)
    requires
        b.bien_formada(),
        0 <= i < b.colores.len(),
        0 <= k < puntos.len(),
        b.cae_en(puntos[k], i),
    ensures
        !menor(puntos[k].prof, b.con_puntos(puntos).profundidades[i]),
    decreases puntos.len(),
{
    let antes = b.con_puntos(puntos.drop_last());
    let p = puntos.last();
    ley_dibujar_lista_conserva_forma(b, puntos.drop_last());
    ley_profundidad_solo_se_acerca(antes, p, i);
    if k < puntos.len() - 1 {
        ley_nada_dibujado_queda_mas_cerca(b, puntos.drop_last(), i, k);
        assert(puntos.drop_last()[k] == puntos[k]);
    } else {
        ley_indice_en_rango(antes, p.x, p.y);
    }
}

/// What a pixel shows after a list of points is either what it showed
/// before, colour and depth, or the colour and depth of one point of the
/// list that fell on it and is nearer than what the pixel showed before.
pub proof fn ley_pixel_viene_de_un_punto(b: VistaBuffer, puntos: Seq<Punto>, i: int)
    requires
        b.bien_formada(),
        0 <= i < b.colores.len(),
    ensures
        ({
            let f = b.con_puntos(puntos);
            ||| f.colores[i] == b.colores[i] && f.profundidades[i] == b.profundidades[i]
            ||| exists|k: int|
                0 <= k < puntos.len() && b.cae_en(#[trigger] puntos[k], i) && f.colores[i]
                    == puntos[k].color && f.profundidades[i] == puntos[k].prof && menor(
                    puntos[k].prof,
                    b.profundidades[i],
                )
        }),
    decreases puntos.len(),
{
    if puntos.len() > 0 {
        let previos = puntos.drop_last();
        let antes = b.con_puntos(previos);
        let p = puntos.last();
        let f = b.con_puntos(puntos);
        ley_dibujar_lista_conserva_forma(b, previos);
        ley_pixel_viene_de_un_punto(b, previos, i);
        if antes.pasa_prueba(p.x, p.y, p.prof) && antes.indice(p.x, p.y) == i {
            ley_indice_en_rango(antes, p.x, p.y);
            let k = puntos.len() - 1;
            assert(menor(p.prof, antes.profundidades[i]));
            if antes.profundidades[i] != b.profundidades[i] {
                let g = choose|g: int|
                    0 <= g < previos.len() && b.cae_en(#[trigger] previos[g], i) && antes.colores[i]
                        == previos[g].color && antes.profundidades[i] == previos[g].prof && menor(
                        previos[g].prof,
                        b.profundidades[i],
                    );
                ley_menor_transitiva(p.prof, previos[g].prof, b.profundidades[i]);
            }
            assert(b.cae_en(puntos[k], i) && f.colores[i] == puntos[k].color && f.profundidades[i]
                == puntos[k].prof && menor(puntos[k].prof, b.profundidades[i]));
        } else {
            lema_pixel_intacto(antes, p, i);
            if !(antes.colores[i] == b.colores[i] && antes.profundidades[i] == b.profundidades[i]) {
                let k = choose|k: int|
                    0 <= k < previos.len() && b.cae_en(#[trigger] previos[k], i) && antes.colores[i]
                        == previos[k].color && antes.profundidades[i] == previos[k].prof && menor(
                        previos[k].prof,
                        b.profundidades[i],
                    );
                assert(previos[k] == puntos[k]);
                assert(b.cae_en(puntos[k], i) && f.colores[i] == puntos[k].color
                    && f.profundidades[i] == puntos[k].prof && menor(
                    puntos[k].prof,
                    b.profundidades[i],
                ));
            }
        }
    }
}

/// The z-buffer: on a cleared buffer, after any list of points, a pixel on
/// which a point with a depth below infinity fell shows the colour and the
/// depth of one such point than which none that fell on it is nearer; any
/// other pixel still shows the background, infinitely far.
pub proof fn ley_buffer_z(b: VistaBuffer, puntos: Seq<Punto>, i: int)
    requires
        b.bien_formada(),
        0 <= i < b.colores.len(),
    ensures
        ({
            let f = b.limpiada().con_puntos(puntos);
            if exists|k: int|
                0 <= k < puntos.len() && b.cae_en(#[trigger] puntos[k], i) && menor(
                    puntos[k].prof,
                    PROFUNDIDAD_INFINITA,
                ) {
                exists|g: int|
                    {
                        &&& 0 <= g < puntos.len()
                        &&& b.cae_en(#[trigger] puntos[g], i)
                        &&& f.colores[i] == puntos[g].color
                        &&& f.profundidades[i] == puntos[g].prof
                        &&& forall|k: int|
                            0 <= k < puntos.len() && b.cae_en(#[trigger] puntos[k], i) ==> !menor(
                                puntos[k].prof,
                                puntos[g].prof,
                            )
                    }
            } else {
                f.colores[i] == b.color_fondo && f.profundidades[i] == PROFUNDIDAD_INFINITA
            }
        }),
{
    let l = b.limpiada();
    let f = l.con_puntos(puntos);
    assert(l.bien_formada());
    ley_pixel_viene_de_un_punto(l, puntos, i);
    assert forall|k: int| 0 <= k < puntos.len() && b.cae_en(#[trigger] puntos[k], i) implies !menor(
        puntos[k].prof,
        f.profundidades[i],
    ) by {
        assert(l.cae_en(puntos[k], i));
        ley_nada_dibujado_queda_mas_cerca(l, puntos, i, k);
    }
    if f.colores[i] == l.colores[i] && f.profundidades[i] == l.profundidades[i] {
    } else {
        let g = choose|g: int|
            0 <= g < puntos.len() && l.cae_en(#[trigger] puntos[g], i) && f.colores[i]
                == puntos[g].color && f.profundidades[i] == puntos[g].prof && menor(
                puntos[g].prof,
                l.profundidades[i],
            );
        assert(b.cae_en(puntos[g], i));
        assert(menor(puntos[g].prof, PROFUNDIDAD_INFINITA));
    }
}

/// A draw that does not pass the test at place `i`, or is at another place,
/// leaves place `i` as it was.
proof fn lema_pixel_intacto(b: VistaBuffer, p: Punto, i: int)
    requires
        b.bien_formada(),
        0 <= i < b.colores.len(),
        !(b.pasa_prueba(p.x, p.y, p.prof) && b.indice(p.x, p.y) == i),
    ensures
        b.con(p).colores[i] == b.colores[i],
        b.con(p).profundidades[i] == b.profundidades[i],
{
    if b.pasa_prueba(p.x, p.y, p.prof) {
        ley_indice_en_rango(b, p.x, p.y);
    }
}

} // verus!
