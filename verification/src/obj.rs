//! Reading the lines of a Wavefront OBJ file.
//!
//! A line is a list of words separated by white space. The first word says
//! what the line holds: `v` a position, `vn` a normal, `vt` a texture
//! coordinate, `f` a face. The numbers of the first three are left where
//! they stand: the reader gets the place of each word and reads the number
//! itself. A face is read here in full: each of its first three corners is a
//! word `position/texture/normal` of indices that count from one.

use vstd::prelude::*;

verus! {

/// A stretch of a line: the characters from `inicio` up to, not including, `fin`.
#[derive(Debug, Clone, Copy, PartialEq, Eq, Structural)]
pub struct Rango {
    pub inicio: usize,
    pub fin: usize,
}

/// One corner of a face: three indices that count from zero.
#[derive(Debug, Clone, Copy, PartialEq, Eq, Structural)]
pub struct Esquina {
    pub posicion: usize,
    pub textura: usize,
    pub normal: usize,
}

/// A triangle: the first three corners of a face line.
#[derive(Debug, Clone, Copy, PartialEq, Eq, Structural)]
pub struct Cara {
    pub a: Esquina,
    pub b: Esquina,
    pub c: Esquina,
}

/// What a line holds.
#[derive(Debug, Clone, Copy, PartialEq, Eq, Structural)]
pub enum LineaObj {
    /// A position: where its three coordinates stand.
    Vertice(Rango, Rango, Rango),
    /// A normal: where its three coordinates stand.
    Normal(Rango, Rango, Rango),
    /// A texture coordinate: where its two coordinates stand.
    Textura(Rango, Rango),
    /// A face.
    Cara(Cara),
    /// Nothing that is read: an empty line, a comment, another kind of line
    /// or one of the kinds above with too few words.
    Otra,
}

/// Whether a character is white space: the characters that Unicode marks
/// as `White_Space`.
pub open spec fn es_espacio(c: char) -> bool {
    let n = c as u32;
    ||| 0x09 <= n <= 0x0D
    ||| n == 0x20
    ||| n == 0x85
    ||| n == 0xA0
    ||| n == 0x1680
    ||| 0x2000 <= n <= 0x200A
    ||| n == 0x2028
    ||| n == 0x2029
    ||| n == 0x202F
    ||| n == 0x205F
    ||| n == 0x3000
}

/// The first place at or after `i` that holds no white space, or the end of the line.
pub open spec fn fin_de_espacios(s: Seq<char>, i: int) -> int
    decreases s.len() - i,
{
    if 0 <= i < s.len() && es_espacio(s[i]) {
        fin_de_espacios(s, i + 1)
    } else {
        i
    }
}

/// The first place at or after `i` that holds white space, or the end of the line.
pub open spec fn fin_de_palabra(s: Seq<char>, i: int) -> int
    decreases s.len() - i,
{
    if 0 <= i < s.len() && !es_espacio(s[i]) {
        fin_de_palabra(s, i + 1)
    } else {
        i
    }
}

/// Where word number `k` of the line stands, counting from zero: its first
/// place and the place after its last. Where the line has no such word both
/// are the length of the line.
pub open spec fn palabra(s: Seq<char>, k: nat) -> (int, int)
    decreases k,
{
    let desde = if k == 0 {
        0
    } else {
        palabra(s, (k - 1) as nat).1
    };
    let inicio = fin_de_espacios(s, desde);
    (inicio, fin_de_palabra(s, inicio))
}

/// Whether the line has a word number `k`.
pub open spec fn hay_palabra(s: Seq<char>, k: nat) -> bool {
    palabra(s, k).0 < s.len()
}

/// Where word number `k` stands, as a `Rango`.
pub open spec fn rango_de_palabra(s: Seq<char>, k: nat) -> Rango {
    Rango { inicio: palabra(s, k).0 as usize, fin: palabra(s, k).1 as usize }
}

/// The text of word number `k`.
pub open spec fn texto_de_palabra(s: Seq<char>, k: nat) -> Seq<char> {
    s.subrange(palabra(s, k).0, palabra(s, k).1)
}

/// Whether a character is one of the ten digits `0` to `9`.
pub open spec fn es_digito(c: char) -> bool {
    0x30 <= c as u32 <= 0x39
}

/// Whether every character from `a` up to `b` is a digit.
pub open spec fn solo_digitos(s: Seq<char>, a: int, b: int) -> bool {
    forall|i: int| a <= i < b ==> es_digito(#[trigger] s[i])
}

/// The number that the digits from `a` up to `b` write in base ten.
pub open spec fn valor_decimal(s: Seq<char>, a: int, b: int) -> nat
    decreases b - a,
{
    if b <= a {
        0
    } else {
        valor_decimal(s, a, b - 1) * 10 + ((s[b - 1] as u32 - 0x30) as nat)
    }
}

/// The number written from `a` up to `b`, if there is one that a `usize`
/// holds: an optional `+`, then one digit or more, and nothing else.
pub open spec fn numero_de(s: Seq<char>, a: int, b: int) -> Option<usize> {
    let d = if a < b && s[a] == '+' {
        a + 1
    } else {
        a
    };
    if d < b && solo_digitos(s, d, b) && valor_decimal(s, d, b) <= usize::MAX {
        Some(valor_decimal(s, d, b) as usize)
    } else {
        None
    }
}

/// The index written from `a` up to `b`, counting from zero. The file counts
/// from one, so the number read is lowered by one; where no number can be
/// read the index is zero, and the number zero, which the format does not
/// use, gives the largest `usize`, an index that nothing has.
pub open spec fn indice_de(s: Seq<char>, a: int, b: int) -> usize {
    match numero_de(s, a, b) {
        Some(n) => if n == 0 {
            usize::MAX
        } else {
            (n - 1) as usize
        },
        None => 0,
    }
}

/// The first place at or after `i` and before `fin` that holds a `/`, or `fin`.
pub open spec fn barra_desde(s: Seq<char>, i: int, fin: int) -> int
    decreases fin - i,
{
    if 0 <= i < fin && i < s.len() && s[i] != '/' {
        barra_desde(s, i + 1, fin)
    } else if i < fin {
        i
    } else {
        fin
    }
}

/// The corner written from `a` up to `b`: up to three fields separated by
/// `/`. The first is the position. The second, if it is there and not
/// empty, is the texture coordinate; the third, if it is there, is the
/// normal. A field that is not read leaves index zero.
pub open spec fn esquina_de(s: Seq<char>, a: int, b: int) -> Esquina {
    let barra_a = barra_desde(s, a, b);
    let posicion = indice_de(s, a, barra_a);
    if barra_a >= b {
        Esquina { posicion, textura: 0, normal: 0 }
    } else {
        let barra_b = barra_desde(s, barra_a + 1, b);
        let textura = if barra_a + 1 < barra_b {
            indice_de(s, barra_a + 1, barra_b)
        } else {
            0
        };
        if barra_b >= b {
            Esquina { posicion, textura, normal: 0 }
        } else {
            let barra_c = barra_desde(s, barra_b + 1, b);
            Esquina { posicion, textura, normal: indice_de(s, barra_b + 1, barra_c) }
        }
    }
}

/// The corner that word number `k` writes.
pub open spec fn esquina_de_palabra(s: Seq<char>, k: nat) -> Esquina {
    esquina_de(s, palabra(s, k).0, palabra(s, k).1)
}

/// What a line holds.
///
/// The first word decides. `v`, `vn` and `f` need three more words, `vt`
/// two; words after those are not looked at. With fewer, and with any other
/// first word or none, the line holds nothing that is read.
pub open spec fn linea_de(s: Seq<char>) -> LineaObj {
    let clave = texto_de_palabra(s, 0);
    if !hay_palabra(s, 0) {
        LineaObj::Otra
    } else if clave == seq!['v'] && hay_palabra(s, 3) {
        LineaObj::Vertice(rango_de_palabra(s, 1), rango_de_palabra(s, 2), rango_de_palabra(s, 3))
    } else if clave == seq!['v', 'n'] && hay_palabra(s, 3) {
        LineaObj::Normal(rango_de_palabra(s, 1), rango_de_palabra(s, 2), rango_de_palabra(s, 3))
    } else if clave == seq!['v', 't'] && hay_palabra(s, 2) {
        LineaObj::Textura(rango_de_palabra(s, 1), rango_de_palabra(s, 2))
    } else if clave == seq!['f'] && hay_palabra(s, 3) {
        LineaObj::Cara(
            Cara {
                a: esquina_de_palabra(s, 1),
                b: esquina_de_palabra(s, 2),
                c: esquina_de_palabra(s, 3),
            },
        )
    } else {
        LineaObj::Otra
    }
}

/// Decides whether a character is white space.
pub fn es_caracter_espacio(c: char) -> (r: bool)
    ensures
        r == es_espacio(c),
{
    let n: u32 = c as u32;
    (0x09 <= n && n <= 0x0D) || n == 0x20 || n == 0x85 || n == 0xA0 || n == 0x1680 || (0x2000 <= n
        && n <= 0x200A) || n == 0x2028 || n == 0x2029 || n == 0x202F || n == 0x205F || n == 0x3000
}

/// Skips white space from `i` on.
fn saltar_espacios(linea: &Vec<char>, i: usize) -> (j: usize)
    requires
        i <= linea@.len(),
    ensures
        j == fin_de_espacios(linea@, i as int),
        i <= j <= linea@.len(),
{
    let mut j: usize = i;
    while j < linea.len() && es_caracter_espacio(linea[j])
        invariant
            i <= j <= linea@.len(),
            fin_de_espacios(linea@, i as int) == fin_de_espacios(linea@, j as int),
        decreases linea@.len() - j,
    {
        j += 1;
    }
    j
}

/// Skips a word from `i` on.
fn saltar_palabra(linea: &Vec<char>, i: usize) -> (j: usize)
    requires
        i <= linea@.len(),
    ensures
        j == fin_de_palabra(linea@, i as int),
        i <= j <= linea@.len(),
{
    let mut j: usize = i;
    while j < linea.len() && !es_caracter_espacio(linea[j])
        invariant
            i <= j <= linea@.len(),
            fin_de_palabra(linea@, i as int) == fin_de_palabra(linea@, j as int),
        decreases linea@.len() - j,
    {
        j += 1;
    }
    j
}

/// Finds the word that follows place `desde`.
fn palabra_desde(linea: &Vec<char>, desde: usize) -> (r: Rango)
    requires
        desde <= linea@.len(),
    ensures
        r.inicio == fin_de_espacios(linea@, desde as int),
        r.fin == fin_de_palabra(linea@, r.inicio as int),
        desde <= r.inicio <= r.fin <= linea@.len(),
{
    let inicio = saltar_espacios(linea, desde);
    let fin = saltar_palabra(linea, inicio);
    Rango { inicio, fin }
}

/// A longer run of digits writes no smaller a number.
proof fn lema_valor_crece(s: Seq<char>, a: int, j: int, b: int)
    requires
        a <= j <= b,
    ensures
        valor_decimal(s, a, j) <= valor_decimal(s, a, b),
    decreases b - j,
{
    if j < b {
        lema_valor_crece(s, a, j, b - 1);
    }
}

/// Reads the digits from `d` up to `b`.
fn leer_digitos(linea: &Vec<char>, d: usize, b: usize) -> (r: Option<usize>)
    requires
        d <= b <= linea@.len(),
    ensures
        r == if solo_digitos(linea@, d as int, b as int) && valor_decimal(linea@, d as int, b as int)
            <= usize::MAX {
            Some(valor_decimal(linea@, d as int, b as int) as usize)
        } else {
            None
        },
{
    let mut v: usize = 0;
    let mut j: usize = d;
    while j < b
        invariant
            d <= j <= b <= linea@.len(),
            solo_digitos(linea@, d as int, j as int),
            v == valor_decimal(linea@, d as int, j as int),
        decreases b - j,
    {
        let n: u32 = linea[j] as u32;
        if n < 0x30 || n > 0x39 {
            assert(!es_digito(linea@[j as int]));
            return None;
        }
        let digito: usize = (n - 0x30) as usize;
        proof {
            lema_valor_crece(linea@, d as int, j + 1, b as int);
        }
        let diez = match v.checked_mul(10) {
            Some(x) => x,
            None => {
                return None;
            },
        };
        v = match diez.checked_add(digito) {
            Some(x) => x,
            None => {
                return None;
            },
        };
        j += 1;
    }
    Some(v)
}

/// Reads the number written from `a` up to `b`.
fn leer_numero(linea: &Vec<char>, a: usize, b: usize) -> (r: Option<usize>)
    requires
        a <= b <= linea@.len(),
    ensures
        r == numero_de(linea@, a as int, b as int),
{
    let d: usize = if a < b && linea[a] == '+' {
        a + 1
    } else {
        a
    };
    if d < b {
        leer_digitos(linea, d, b)
    } else {
        None
    }
}

/// Reads the index written from `a` up to `b`.
fn leer_indice(linea: &Vec<char>, a: usize, b: usize) -> (r: usize)
    requires
        a <= b <= linea@.len(),
    ensures
        r == indice_de(linea@, a as int, b as int),
{
    match leer_numero(linea, a, b) {
        Some(n) => n.wrapping_sub(1),
        None => 0,
    }
}

/// Finds the next `/` from `i` on and before `fin`.
fn buscar_barra(linea: &Vec<char>, i: usize, fin: usize) -> (j: usize)
    requires
        i <= fin <= linea@.len(),
    ensures
        j == barra_desde(linea@, i as int, fin as int),
        i <= j <= fin,
{
    let mut j: usize = i;
    while j < fin && linea[j] != '/'
        invariant
            i <= j <= fin <= linea@.len(),
            barra_desde(linea@, i as int, fin as int) == barra_desde(linea@, j as int, fin as int),
        decreases fin - j,
    {
        j += 1;
    }
    j
}

/// Reads the corner written from `a` up to `b`.
fn leer_esquina(linea: &Vec<char>, a: usize, b: usize) -> (e: Esquina)
    requires
        a <= b <= linea@.len(),
    ensures
        e == esquina_de(linea@, a as int, b as int),
{
    let barra_a = buscar_barra(linea, a, b);
    let posicion = leer_indice(linea, a, barra_a);
    if barra_a >= b {
        return Esquina { posicion, textura: 0, normal: 0 };
    }
    let barra_b = buscar_barra(linea, barra_a + 1, b);
    let textura = if barra_a + 1 < barra_b {
        leer_indice(linea, barra_a + 1, barra_b)
    } else {
        0
    };
    if barra_b >= b {
        return Esquina { posicion, textura, normal: 0 };
    }
    let barra_c = buscar_barra(linea, barra_b + 1, b);
    Esquina { posicion, textura, normal: leer_indice(linea, barra_b + 1, barra_c) }
}

/// Whether the characters of `r` are exactly `c1`, or `c1` and then `c2`
/// where `c2` is given.
fn palabra_igual(linea: &Vec<char>, r: Rango, c1: char, c2: Option<char>) -> (igual: bool)
    requires
        r.inicio <= r.fin <= linea@.len(),
    ensures
        igual == (linea@.subrange(r.inicio as int, r.fin as int) == match c2 {
            Some(c) => seq![c1, c],
            None => seq![c1],
        }),
{
    let t = Ghost(linea@.subrange(r.inicio as int, r.fin as int));
    match c2 {
        Some(c) => {
            if r.fin - r.inicio == 2 && linea[r.inicio] == c1 && linea[r.inicio + 1] == c {
                assert(t@ =~= seq![c1, c]);
                true
            } else {
                assert(t@ != seq![c1, c]) by {
                    if t@ == seq![c1, c] {
                        assert(t@.len() == 2);
                        assert(t@[0] == c1 && t@[1] == c);
                    }
                }
                false
            }
        },
        None => {
            if r.fin - r.inicio == 1 && linea[r.inicio] == c1 {
                assert(t@ =~= seq![c1]);
                true
            } else {
                assert(t@ != seq![c1]) by {
                    if t@ == seq![c1] {
                        assert(t@.len() == 1);
                        assert(t@[0] == c1);
                    }
                }
                false
            }
        },
    }
}

/// Reads one line, given as its characters without the line break.
pub fn analizar_linea(linea: &Vec<char>) -> (r: LineaObj)
    ensures
        r == linea_de(linea@),
{
    let n = linea.len();
    let clave = palabra_desde(linea, 0);
    if clave.inicio >= n {
        return LineaObj::Otra;
    }
    let primera = palabra_desde(linea, clave.fin);
    let segunda = palabra_desde(linea, primera.fin);
    let tercera = palabra_desde(linea, segunda.fin);
    proof {
        assert(palabra(linea@, 0) == (clave.inicio as int, clave.fin as int));
        assert(palabra(linea@, 1) == (primera.inicio as int, primera.fin as int));
        assert(palabra(linea@, 2) == (segunda.inicio as int, segunda.fin as int));
        assert(palabra(linea@, 3) == (tercera.inicio as int, tercera.fin as int)) by {
            reveal_with_fuel(palabra, 4);
        }
    }
    let hay_tres = tercera.inicio < n;
    let hay_dos = segunda.inicio < n;
    if palabra_igual(linea, clave, 'v', None) && hay_tres {
        LineaObj::Vertice(primera, segunda, tercera)
    } else if palabra_igual(linea, clave, 'v', Some('n')) && hay_tres {
        LineaObj::Normal(primera, segunda, tercera)
    } else if palabra_igual(linea, clave, 'v', Some('t')) && hay_dos {
        LineaObj::Textura(primera, segunda)
    } else if palabra_igual(linea, clave, 'f', None) && hay_tres {
        LineaObj::Cara(
            Cara {
                a: leer_esquina(linea, primera.inicio, primera.fin),
                b: leer_esquina(linea, segunda.inicio, segunda.fin),
                c: leer_esquina(linea, tercera.inicio, tercera.fin),
            },
        )
    } else {
        LineaObj::Otra
    }
}

/// What one corner of a face takes from the tables of a model: for each of
/// position, texture coordinate and normal the entry to take, or `None`
/// where the table has no entry with that index and the default stands in.
#[derive(Debug, Clone, Copy, PartialEq, Eq, Structural)]
pub struct EsquinaResuelta {
    pub posicion: Option<usize>,
    pub textura: Option<usize>,
    pub normal: Option<usize>,
}

/// The entry of a table of `cantidad` entries that `indice` names, if any.
pub open spec fn entrada(indice: usize, cantidad: usize) -> Option<usize> {
    if indice < cantidad {
        Some(indice)
    } else {
        None
    }
}

/// What a corner takes from tables of the given sizes.
pub open spec fn esquina_resuelta(e: Esquina, posiciones: usize, texturas: usize, normales: usize) -> EsquinaResuelta {
    EsquinaResuelta {
        posicion: entrada(e.posicion, posiciones),
        textura: entrada(e.textura, texturas),
        normal: entrada(e.normal, normales),
    }
}

/// Corner number `i` of a list of faces: the corners of the first face in
/// the order `a`, `b`, `c`, then those of the second, and so on.
pub open spec fn esquina_numero(caras: Seq<Cara>, i: int) -> Esquina {
    let cara = caras[i / 3];
    if i % 3 == 0 {
        cara.a
    } else if i % 3 == 1 {
        cara.b
    } else {
        cara.c
    }
}

/// The vertices of a list of faces, three for each face: what each takes
/// from tables of the given sizes.
pub open spec fn vertices_de_caras(caras: Seq<Cara>, posiciones: usize, texturas: usize, normales: usize) -> Seq<EsquinaResuelta> {
    Seq::new(
        3 * caras.len(),
        |i: int| esquina_resuelta(esquina_numero(caras, i), posiciones, texturas, normales),
    )
}

/// Looks an index up in a table of `cantidad` entries.
pub fn resolver_indice(indice: usize, cantidad: usize) -> (r: Option<usize>)
    ensures
        r == entrada(indice, cantidad),
{
    if indice < cantidad {
        Some(indice)
    } else {
        None
    }
}

/// Looks the three indices of a corner up.
pub fn resolver_esquina(e: Esquina, posiciones: usize, texturas: usize, normales: usize) -> (r:
    EsquinaResuelta)
    ensures
        r == esquina_resuelta(e, posiciones, texturas, normales),
{
    EsquinaResuelta {
        posicion: resolver_indice(e.posicion, posiciones),
        textura: resolver_indice(e.textura, texturas),
        normal: resolver_indice(e.normal, normales),
    }
}

/// Lays the faces out as a list of vertices, three for each face, and looks
/// the indices of each up in tables of the given sizes.
pub fn resolver_caras(caras: &Vec<Cara>, posiciones: usize, texturas: usize, normales: usize) -> (r:
    Vec<EsquinaResuelta>)
    ensures
        r@ == vertices_de_caras(caras@, posiciones, texturas, normales),
        r@.len() == 3 * caras@.len(),
{
    let mut r: Vec<EsquinaResuelta> = Vec::new();
    let mut k: usize = 0;
    while k < caras.len()
        invariant
            k <= caras@.len(),
            r@.len() == 3 * k,
            forall|i: int|
                0 <= i < r@.len() ==> r@[i] == esquina_resuelta(
                    esquina_numero(caras@, i),
                    posiciones,
                    texturas,
                    normales,
                ),
        decreases caras@.len() - k,
    {
        let cara = caras[k];
        r.push(resolver_esquina(cara.a, posiciones, texturas, normales));
        r.push(resolver_esquina(cara.b, posiciones, texturas, normales));
        r.push(resolver_esquina(cara.c, posiciones, texturas, normales));
        k += 1;
    }
    assert(r@ =~= vertices_de_caras(caras@, posiciones, texturas, normales));
    r
}

/// Where the three coordinates of a position or a normal stand: the number
/// of the line, counting from zero, and a stretch of it for each coordinate.
#[derive(Debug, Clone, Copy, PartialEq, Eq, Structural)]
pub struct TresCoordenadas {
    pub linea: usize,
    pub x: Rango,
    pub y: Rango,
    pub z: Rango,
}

/// Where the two coordinates of a texture coordinate stand.
#[derive(Debug, Clone, Copy, PartialEq, Eq, Structural)]
pub struct DosCoordenadas {
    pub linea: usize,
    pub u: Rango,
    pub v: Rango,
}

/// What a model holds, as mathematical values.
pub struct VistaModelo {
    pub vertices: Seq<TresCoordenadas>,
    pub normales: Seq<TresCoordenadas>,
    pub coordenadas_uv: Seq<DosCoordenadas>,
    pub caras: Seq<Cara>,
}

impl VistaModelo {
    /// The model of a file without lines.
    pub open spec fn vacio() -> VistaModelo {
        VistaModelo {
            vertices: Seq::empty(),
            normales: Seq::empty(),
            coordenadas_uv: Seq::empty(),
            caras: Seq::empty(),
        }
    }

    /// The model after line number `numero`, which holds `linea`, is added:
    /// what the line holds goes to the end of the list of its kind.
    pub open spec fn con_linea(self, numero: usize, linea: LineaObj) -> VistaModelo {
        match linea {
            LineaObj::Vertice(x, y, z) => VistaModelo {
                vertices: self.vertices.push(TresCoordenadas { linea: numero, x, y, z }),
                ..self
            },
            LineaObj::Normal(x, y, z) => VistaModelo {
                normales: self.normales.push(TresCoordenadas { linea: numero, x, y, z }),
                ..self
            },
            LineaObj::Textura(u, v) => VistaModelo {
                coordenadas_uv: self.coordenadas_uv.push(DosCoordenadas { linea: numero, u, v }),
                ..self
            },
            LineaObj::Cara(cara) => VistaModelo { caras: self.caras.push(cara), ..self },
            LineaObj::Otra => self,
        }
    }

    /// The model of the first `n` lines of a file.
    pub open spec fn de_lineas(lineas: Seq<Seq<char>>, n: nat) -> VistaModelo
        decreases n,
    {
        if n == 0 {
            Self::vacio()
        } else {
            Self::de_lineas(lineas, (n - 1) as nat).con_linea(
                (n - 1) as usize,
                linea_de(lineas[n - 1]),
            )
        }
    }

    /// The vertices of the model's faces, three for each face: for each what
    /// it takes from the model's positions, texture coordinates and normals.
    pub open spec fn array_vertices(self) -> Seq<EsquinaResuelta> {
        vertices_de_caras(
            self.caras,
            self.vertices.len() as usize,
            self.coordenadas_uv.len() as usize,
            self.normales.len() as usize,
        )
    }
}

/// A model read from the lines of an OBJ file: its faces, and for each
/// position, normal and texture coordinate the place where its numbers stand.
pub struct ModeloOBJ {
    pub vertices: Vec<TresCoordenadas>,
    pub normales: Vec<TresCoordenadas>,
    pub coordenadas_uv: Vec<DosCoordenadas>,
    pub caras: Vec<Cara>,
}

impl View for ModeloOBJ {
    type V = VistaModelo;

    open spec fn view(&self) -> VistaModelo {
        VistaModelo {
            vertices: self.vertices@,
            normales: self.normales@,
            coordenadas_uv: self.coordenadas_uv@,
            caras: self.caras@,
        }
    }
}

/// The lines as sequences of characters.
pub open spec fn texto_de(lineas: Seq<Vec<char>>) -> Seq<Seq<char>> {
    Seq::new(lineas.len(), |i: int| lineas[i]@)
}

impl ModeloOBJ {
    /// Reads a model from the lines of a file, each given as its characters
    /// without the line break.
    pub fn leer(lineas: &Vec<Vec<char>>) -> (m: ModeloOBJ)
        ensures
            m@ == VistaModelo::de_lineas(texto_de(lineas@), lineas@.len()),
    {
        let mut m = ModeloOBJ {
            vertices: Vec::new(),
            normales: Vec::new(),
            coordenadas_uv: Vec::new(),
            caras: Vec::new(),
        };
        let mut k: usize = 0;
        assert(m@ =~= VistaModelo::vacio());
        while k < lineas.len()
            invariant
                k <= lineas@.len(),
                m@ == VistaModelo::de_lineas(texto_de(lineas@), k as nat),
            decreases lineas@.len() - k,
        {
            let ghost antes = m@;
            match analizar_linea(&lineas[k]) {
                LineaObj::Vertice(x, y, z) => {
                    m.vertices.push(TresCoordenadas { linea: k, x, y, z });
                },
                LineaObj::Normal(x, y, z) => {
                    m.normales.push(TresCoordenadas { linea: k, x, y, z });
                },
                LineaObj::Textura(u, v) => {
                    m.coordenadas_uv.push(DosCoordenadas { linea: k, u, v });
                },
                LineaObj::Cara(cara) => {
                    m.caras.push(cara);
                },
                LineaObj::Otra => {},
            }
            assert(texto_de(lineas@)[k as int] == lineas@[k as int]@);
            assert(m@ == antes.con_linea(k, linea_de(lineas@[k as int]@)));
            k += 1;
        }
        m
    }

    /// Lays the faces out as a list of vertices, three for each face, and
    /// looks the indices of each up in the model's own tables.
    pub fn obtener_array_vertices(&self) -> (r: Vec<EsquinaResuelta>)
        ensures
            r@ == self@.array_vertices(),
            r@.len() == 3 * self@.caras.len(),
    {
        resolver_caras(
            &self.caras,
            self.vertices.len(),
            self.coordenadas_uv.len(),
            self.normales.len(),
        )
    }
}

/// The positions of a model are the position lines of the file, each once
/// and in the order of the file: every entry names a line that holds a
/// position with its three places, later entries name later lines, and every
/// line that holds a position has its entry.
pub proof fn ley_posiciones_del_modelo(lineas: Seq<Seq<char>>, n: nat)
    requires
        n <= lineas.len(),
        n <= usize::MAX,
    ensures
        ({
            let vertices = VistaModelo::de_lineas(lineas, n).vertices;
            &&& forall|i: int|
                0 <= i < vertices.len() ==> (#[trigger] vertices[i]).linea < n && linea_de(
                    lineas[vertices[i].linea as int],
                ) == LineaObj::Vertice(vertices[i].x, vertices[i].y, vertices[i].z)
            &&& forall|i: int, j: int|
                0 <= i < j < vertices.len() ==> (#[trigger] vertices[i]).linea < (
                #[trigger] vertices[j]).linea
            &&& forall|k: int|
                0 <= k < n && #[trigger] linea_de(lineas[k]) is Vertice ==> exists|i: int|
                    0 <= i < vertices.len() && (#[trigger] vertices[i]).linea == k
        }),
    decreases n,
{
    if n > 0 {
        let antes = VistaModelo::de_lineas(lineas, (n - 1) as nat);
        let ahora = VistaModelo::de_lineas(lineas, n);
        ley_posiciones_del_modelo(lineas, (n - 1) as nat);
        let leida = linea_de(lineas[n - 1]);
        assert(ahora == antes.con_linea((n - 1) as usize, leida));
        match leida {
            LineaObj::Vertice(x, y, z) => {
                let ultimo = antes.vertices.len() as int;
                assert(ahora.vertices[ultimo].linea == n - 1);
                assert forall|k: int|
                    0 <= k < n && #[trigger] linea_de(lineas[k]) is Vertice implies exists|i: int|
                    0 <= i < ahora.vertices.len() && (#[trigger] ahora.vertices[i]).linea == k by {
                    if k < n - 1 {
                        let i = choose|i: int|
                            0 <= i < antes.vertices.len() && (#[trigger] antes.vertices[i]).linea
                                == k;
                        assert(ahora.vertices[i].linea == k);
                    } else {
                        assert(ahora.vertices[ultimo].linea == k);
                    }
                }
            },
            _ => {
                assert(ahora.vertices == antes.vertices);
            },
        }
    }
}

/// Every line gives a model at most one entry: positions, normals, texture
/// coordinates and faces together are no more than the lines of the file.
pub proof fn ley_tamano_del_modelo(lineas: Seq<Seq<char>>, n: nat)
    requires
        n <= lineas.len(),
    ensures
        ({
            let m = VistaModelo::de_lineas(lineas, n);
            m.vertices.len() + m.normales.len() + m.coordenadas_uv.len() + m.caras.len() <= n
        }),
    decreases n,
{
    if n > 0 {
        ley_tamano_del_modelo(lineas, (n - 1) as nat);
    }
}

/// Whether the characters from `a` up to `b` are a word of the line: a run
/// of one character or more without white space that cannot be made longer
/// at either end.
pub open spec fn es_palabra(s: Seq<char>, a: int, b: int) -> bool {
    &&& 0 <= a < b <= s.len()
    &&& forall|i: int| a <= i < b ==> !es_espacio(#[trigger] s[i])
    &&& (a == 0 || es_espacio(s[a - 1]))
    &&& (b == s.len() || es_espacio(s[b]))
}

/// Whether a word starts at place `i`.
pub open spec fn empieza_palabra(s: Seq<char>, i: int) -> bool {
    0 <= i < s.len() && !es_espacio(s[i]) && (i == 0 || es_espacio(s[i - 1]))
}

/// How many words start before place `hasta`.
pub open spec fn palabras_antes(s: Seq<char>, hasta: int) -> nat
    decreases hasta,
{
    if hasta <= 0 {
        0
    } else {
        palabras_antes(s, hasta - 1) + if empieza_palabra(s, hasta - 1) {
            1nat
        } else {
            0nat
        }
    }
}

proof fn lema_fin_de_espacios(s: Seq<char>, i: int)
    requires
        0 <= i <= s.len(),
    ensures
        i <= fin_de_espacios(s, i) <= s.len(),
        forall|j: int| i <= j < fin_de_espacios(s, i) ==> es_espacio(#[trigger] s[j]),
        fin_de_espacios(s, i) < s.len() ==> !es_espacio(s[fin_de_espacios(s, i)]),
        palabras_antes(s, fin_de_espacios(s, i)) == palabras_antes(s, i),
    decreases s.len() - i,
{
    if i < s.len() && es_espacio(s[i]) {
        lema_fin_de_espacios(s, i + 1);
        assert(!empieza_palabra(s, i));
        assert(palabras_antes(s, i + 1) == palabras_antes(s, i));
    }
}

proof fn lema_fin_de_palabra(s: Seq<char>, i: int)
    requires
        0 <= i <= s.len(),
    ensures
        i <= fin_de_palabra(s, i) <= s.len(),
        forall|j: int| i <= j < fin_de_palabra(s, i) ==> !es_espacio(#[trigger] s[j]),
        fin_de_palabra(s, i) < s.len() ==> es_espacio(s[fin_de_palabra(s, i)]),
        i < fin_de_palabra(s, i) ==> palabras_antes(s, fin_de_palabra(s, i)) == palabras_antes(
            s,
            i + 1,
        ),
    decreases s.len() - i,
{
    if i < s.len() && !es_espacio(s[i]) {
        lema_fin_de_palabra(s, i + 1);
        if i + 1 < fin_de_palabra(s, i + 1) {
            assert(!empieza_palabra(s, i + 1));
            assert(palabras_antes(s, i + 2) == palabras_antes(s, i + 1));
        }
    }
}

/// The words of a line are its runs of characters without white space, in
/// order: where the line has a word number `k`, it is such a run that cannot
/// be made longer, and exactly `k` words start before it; where it has none,
/// the whole line has at most `k` words.
pub proof fn ley_palabras_de_la_linea(s: Seq<char>, k: nat)
    ensures
        0 <= palabra(s, k).0 <= palabra(s, k).1 <= s.len(),
        hay_palabra(s, k) ==> es_palabra(s, palabra(s, k).0, palabra(s, k).1),
        hay_palabra(s, k) ==> palabras_antes(s, palabra(s, k).0) == k,
        hay_palabra(s, k) ==> palabras_antes(s, palabra(s, k).1) == k + 1,
        !hay_palabra(s, k) ==> palabras_antes(s, s.len() as int) <= k,
        !hay_palabra(s, k) ==> palabra(s, k) == (s.len() as int, s.len() as int),
    decreases k,
{
    let desde = if k == 0 {
        0
    } else {
        palabra(s, (k - 1) as nat).1
    };
    if k > 0 {
        ley_palabras_de_la_linea(s, (k - 1) as nat);
    }
    lema_fin_de_espacios(s, desde);
    let a = fin_de_espacios(s, desde);
    lema_fin_de_palabra(s, a);
    let b = fin_de_palabra(s, a);
    if a < s.len() {
        if a > desde {
            assert(es_espacio(s[a - 1]));
        }
        assert(empieza_palabra(s, a));
        assert(palabras_antes(s, a + 1) == palabras_antes(s, a) + 1);
    }
}

/// A line has at most one word number `k`: two runs that are both words with
/// `k` words before them are the same run.
pub proof fn ley_palabra_unica(s: Seq<char>, k: nat, a: int, b: int)
    requires
        es_palabra(s, a, b),
        palabras_antes(s, a) == k,
    ensures
        hay_palabra(s, k),
        palabra(s, k) == (a, b),
{
    ley_palabras_de_la_linea(s, k);
    let (a2, b2) = palabra(s, k);
    assert(empieza_palabra(s, a));
    lema_palabras_antes_crece(s, a + 1, s.len() as int);
    assert(palabras_antes(s, a + 1) == k + 1);
    if a2 < a {
        lema_palabras_antes_crece(s, a2 + 1, a);
        assert(empieza_palabra(s, a2));
    } else if a < a2 {
        lema_palabras_antes_crece(s, a + 1, a2);
    }
    assert(a2 == a);
    if b < b2 {
        assert(!es_espacio(s[b]));
    } else if b2 < b {
        assert(!es_espacio(s[b2]));
    }
}

proof fn lema_palabras_antes_crece(s: Seq<char>, i: int, j: int)
    requires
        i <= j,
    ensures
        palabras_antes(s, i) <= palabras_antes(s, j),
    decreases j - i,
{
    if i < j {
        lema_palabras_antes_crece(s, i, j - 1);
    }
}

} // verus!
