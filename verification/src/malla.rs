//! Mesh topology.
//!
//! Both meshes of the scene are grids of vertices. The sphere has one row of
//! vertices for each ring and one column for each sector; the flat ring has
//! one row for each angular step and two columns, the inner and the outer
//! edge. Vertices are numbered row by row, and every cell of the grid is cut
//! into two triangles. Where a vertex lies in space is for the caller to
//! compute from its row and column.

use vstd::prelude::*;
use crate::aritmetica::{lema_fila_y_columna, lema_lugar_acotado, lema_lugar_en_tabla};

verus! {

/// Why a mesh could not be generated.
#[derive(Debug, Clone, Copy, PartialEq, Eq, Structural)]
pub enum ErrorDeMalla {
    /// A sphere needs at least two rings and two sectors, a flat ring at
    /// least one segment.
    SubdivisionInsuficiente,
    /// The vertices cannot be numbered with 32 bits.
    DemasiadosVertices,
}

/// The number of the vertex in row `fila` and column `columna` of a grid.
pub open spec fn vertice_en(columnas: int, fila: int, columna: int) -> int {
    fila * columnas + columna
}

/// The `k`-th of the six vertex numbers of the cell whose first corner is at
/// row `fila` and column `columna`. With `primero` that corner and `segundo`
/// the one below it in the next row, the cell is the two triangles
/// `(primero, segundo, primero + 1)` and `(segundo, segundo + 1, primero + 1)`.
pub open spec fn esquina_de_celda(columnas: int, fila: int, columna: int, k: int) -> int {
    let primero = vertice_en(columnas, fila, columna);
    let segundo = vertice_en(columnas, fila + 1, columna);
    if k == 0 {
        primero
    } else if k == 1 {
        segundo
    } else if k == 2 {
        primero + 1
    } else if k == 3 {
        segundo
    } else if k == 4 {
        segundo + 1
    } else {
        primero + 1
    }
}

/// The `i`-th entry of the index list of a grid with `columnas` columns.
/// Cells come row by row, six entries each.
pub open spec fn indice_de_rejilla(columnas: int, i: int) -> int {
    let celda = i / 6;
    esquina_de_celda(columnas, celda / (columnas - 1), celda % (columnas - 1), i % 6)
}

/// How many entries the index list of a grid has: six for each cell.
pub open spec fn cantidad_de_indices(filas: int, columnas: int) -> int {
    6 * ((filas - 1) * (columnas - 1))
}

/// The index list of a grid of `filas` rows and `columnas` columns.
pub open spec fn indices_de_rejilla(filas: int, columnas: int) -> Seq<u32> {
    Seq::new(
        cantidad_de_indices(filas, columnas) as nat,
        |i: int| indice_de_rejilla(columnas, i) as u32,
    )
}

/// Whether a grid of this size can be generated.
pub open spec fn rejilla_valida(filas: int, columnas: int) -> bool {
    filas >= 2 && columnas >= 2 && filas * columnas <= u32::MAX
}

/// What a mesh topology holds, as mathematical values.
pub struct VistaMalla {
    pub filas: nat,
    pub columnas: nat,
    pub indices: Seq<u32>,
}

impl VistaMalla {
    /// The number of vertices.
    pub open spec fn cantidad_vertices(self) -> nat {
        self.filas * self.columnas
    }

    /// The grid of `filas` rows and `columnas` columns.
    pub open spec fn rejilla(filas: nat, columnas: nat) -> VistaMalla {
        VistaMalla { filas, columnas, indices: indices_de_rejilla(filas as int, columnas as int) }
    }

    /// The triangle list with each entry as a 16-bit number. It is meaningful
    /// where the mesh has at most 65536 vertices.
    pub open spec fn indices_cortos(self) -> Seq<u16> {
        Seq::new(self.indices.len(), |i: int| self.indices[i] as u16)
    }
}

/// Whether `bytes` is how `valores` lie in memory, two bytes each: either
/// every value has its low byte first or every value has its high byte first.
pub open spec fn imagen_en_memoria(valores: Seq<u16>, bytes: Seq<u8>) -> bool {
    &&& bytes.len() == 2 * valores.len()
    &&& {
        ||| forall|i: int|
            0 <= i < valores.len() ==> bytes[2 * i] == #[trigger] valores[i] % 256 && bytes[2 * i + 1]
                == valores[i] / 256
        ||| forall|i: int|
            0 <= i < valores.len() ==> bytes[2 * i] == #[trigger] valores[i] / 256 && bytes[2 * i + 1]
                == valores[i] % 256
    }
}

/// Calls `bytemuck::cast_slice` from `u16` to `u8` and copies what it gives.
///
/// The cast reinterprets the memory of the slice: the result starts where
/// the input starts and has as many bytes as the input occupies, so it holds
/// the two bytes of each value in the byte order of the machine. From `u16`
/// to `u8` the cast cannot fail: the target needs no alignment and any number
/// of bytes is a whole number of `u8`.
#[verifier::external_body]
fn bytes_en_memoria(valores: &Vec<u16>) -> (bytes: Vec<u8>)
    ensures
        imagen_en_memoria(valores@, bytes@),
{
    bytemuck::cast_slice::<u16, u8>(valores.as_slice()).to_vec()
}

/// The topology of a grid mesh: its size and its triangle list.
pub struct Malla {
    filas: u32,
    columnas: u32,
    indices: Vec<u32>,
}

impl View for Malla {
    type V = VistaMalla;

    closed spec fn view(&self) -> VistaMalla {
        VistaMalla { filas: self.filas as nat, columnas: self.columnas as nat, indices: self.indices@ }
    }
}

/// Facts about the cell at row `fila` and column `columna`: its number gives
/// back its row and column, and its six entries are vertices of the grid.
proof fn lema_celda(filas: int, columnas: int, fila: int, columna: int)
    requires
        rejilla_valida(filas, columnas),
        0 <= fila < filas - 1,
        0 <= columna < columnas - 1,
    ensures
        ({
            let celda = fila * (columnas - 1) + columna;
            &&& 0 <= celda < (filas - 1) * (columnas - 1)
            &&& celda / (columnas - 1) == fila
            &&& celda % (columnas - 1) == columna
            &&& (fila + 1) * (columnas - 1) == fila * (columnas - 1) + (columnas - 1)
        }),
        0 <= vertice_en(columnas, fila, columna),
        vertice_en(columnas, fila + 1, columna) == vertice_en(columnas, fila, columna) + columnas,
        vertice_en(columnas, fila + 1, columna) + 1 < filas * columnas,
{
    lema_fila_y_columna(fila, columna, columnas - 1);
    lema_lugar_acotado(fila, columna, filas - 1, columnas - 1);
    lema_lugar_acotado(fila, columna, filas, columnas);
    lema_lugar_acotado(fila + 1, columna + 1, filas, columnas);
}

/// In the index list of a grid every entry is the number of one of its
/// vertices, and the list has six entries for each cell.
pub proof fn ley_indices_en_rango(filas: int, columnas: int, i: int)
    requires
        rejilla_valida(filas, columnas),
        0 <= i < cantidad_de_indices(filas, columnas),
    ensures
        indices_de_rejilla(filas, columnas).len() == 6 * ((filas - 1) * (columnas - 1)),
        0 <= indice_de_rejilla(columnas, i) < filas * columnas,
        indices_de_rejilla(filas, columnas)[i] == indice_de_rejilla(columnas, i),
        indices_de_rejilla(filas, columnas)[i] < filas * columnas,
{
    let celda = i / 6;
    lema_lugar_en_tabla(celda, filas - 1, columnas - 1);
    lema_celda(filas, columnas, celda / (columnas - 1), celda % (columnas - 1));
}

impl Malla {
    #[verifier::type_invariant]
    spec fn invariante(self) -> bool {
        &&& rejilla_valida(self.filas as int, self.columnas as int)
        &&& self.indices@ == indices_de_rejilla(self.filas as int, self.columnas as int)
    }

    /// The grid of `filas` rows and `columnas` columns of vertices.
    fn rejilla(filas: u32, columnas: u32) -> (m: Malla)
        requires
            rejilla_valida(filas as int, columnas as int),
        ensures
            m@ == VistaMalla::rejilla(filas as nat, columnas as nat),
    {
        let mut indices: Vec<u32> = Vec::new();
        let mut fila: u32 = 0;
        while fila < filas - 1
            invariant
                rejilla_valida(filas as int, columnas as int),
                0 <= fila <= filas - 1,
                indices@.len() == 6 * (fila * (columnas - 1)),
                forall|i: int|
                    0 <= i < indices@.len() ==> indices@[i] == indice_de_rejilla(
                        columnas as int,
                        i,
                    ) as u32,
            decreases filas - 1 - fila,
        {
            let mut columna: u32 = 0;
            while columna < columnas - 1
                invariant
                    rejilla_valida(filas as int, columnas as int),
                    0 <= fila < filas - 1,
                    0 <= columna <= columnas - 1,
                    indices@.len() == 6 * (fila * (columnas - 1) + columna),
                    forall|i: int|
                        0 <= i < indices@.len() ==> indices@[i] == indice_de_rejilla(
                            columnas as int,
                            i,
                        ) as u32,
                decreases columnas - 1 - columna,
            {
                proof {
                    lema_celda(filas as int, columnas as int, fila as int, columna as int);
                }
                let ghost previos = indices@;
                let primero: u32 = fila * columnas + columna;
                let segundo: u32 = primero + columnas;
                indices.push(primero);
                indices.push(segundo);
                indices.push(primero + 1);
                indices.push(segundo);
                indices.push(segundo + 1);
                indices.push(primero + 1);
                proof {
                    let celda = fila * (columnas - 1) + columna;
                    assert forall|i: int| 0 <= i < indices@.len() implies indices@[i]
                        == indice_de_rejilla(columnas as int, i) as u32 by {
                        if i < previos.len() {
                            assert(indices@[i] == previos[i]);
                        } else {
                            assert(i / 6 == celda);
                            assert(i % 6 == i - 6 * celda);
                        }
                    }
                }
                columna += 1;
            }
            proof {
                lema_lugar_acotado(fila as int, 0, filas - 1, columnas - 1);
            }
            fila += 1;
        }
        assert(indices@ =~= indices_de_rejilla(filas as int, columnas as int));
        Malla { filas, columnas, indices }
    }

    /// The sphere of `anillos` rings and `sectores` sectors: a grid with one
    /// row for each ring and one column for each sector.
    ///
    /// It has `anillos * sectores` vertices and two triangles for each of the
    /// `(anillos - 1) * (sectores - 1)` cells between neighbouring rings and sectors.
    pub fn generar_esfera(anillos: u32, sectores: u32) -> (r: Result<Malla, ErrorDeMalla>)
        ensures
            anillos < 2 || sectores < 2 ==> r == Err::<Malla, ErrorDeMalla>(
                ErrorDeMalla::SubdivisionInsuficiente,
            ),
            anillos >= 2 && sectores >= 2 && anillos * sectores > u32::MAX ==> r == Err::<
                Malla,
                ErrorDeMalla,
            >(ErrorDeMalla::DemasiadosVertices),
            rejilla_valida(anillos as int, sectores as int) ==> r is Ok && r->Ok_0@
                == VistaMalla::rejilla(anillos as nat, sectores as nat),
            r matches Ok(m) ==> {
                &&& m@.cantidad_vertices() == anillos * sectores
                &&& m@.indices.len() == (anillos - 1) * (sectores - 1) * 6
                &&& forall|i: int| 0 <= i < m@.indices.len() ==> m@.indices[i] < anillos * sectores
            },
    {
        if anillos < 2 || sectores < 2 {
            return Err(ErrorDeMalla::SubdivisionInsuficiente);
        }
        match anillos.checked_mul(sectores) {
            None => Err(ErrorDeMalla::DemasiadosVertices),
            Some(_) => {
                let m = Malla::rejilla(anillos, sectores);
                proof {
                    assert forall|i: int| 0 <= i < m@.indices.len() implies m@.indices[i] < anillos
                        * sectores by {
                        ley_indices_en_rango(anillos as int, sectores as int, i);
                    }
                    assert((anillos - 1) * (sectores - 1) * 6 == 6 * ((anillos - 1) * (sectores - 1)))
                        by (nonlinear_arith);
                }
                Ok(m)
            },
        }
    }

    /// The flat ring of `segmentos` segments: a grid with one row for each of
    /// the `segmentos + 1` angular steps and two columns, the inner vertex
    /// of a step before its outer vertex.
    ///
    /// It has `2 * (segmentos + 1)` vertices and two triangles for each segment.
    pub fn generar_anillo(segmentos: u32) -> (r: Result<Malla, ErrorDeMalla>)
        ensures
            segmentos == 0 ==> r == Err::<Malla, ErrorDeMalla>(ErrorDeMalla::SubdivisionInsuficiente),
            segmentos > 0 && 2 * (segmentos + 1) > u32::MAX ==> r == Err::<Malla, ErrorDeMalla>(
                ErrorDeMalla::DemasiadosVertices,
            ),
            segmentos > 0 && 2 * (segmentos + 1) <= u32::MAX ==> r is Ok && r->Ok_0@
                == VistaMalla::rejilla((segmentos + 1) as nat, 2),
            r matches Ok(m) ==> {
                &&& m@.cantidad_vertices() == 2 * (segmentos + 1)
                &&& m@.indices.len() == 6 * segmentos
                &&& forall|i: int|
                    0 <= i < m@.indices.len() ==> m@.indices[i] < 2 * (segmentos + 1)
            },
    {
        if segmentos == 0 {
            return Err(ErrorDeMalla::SubdivisionInsuficiente);
        }
        if segmentos > (u32::MAX - 2) / 2 {
            return Err(ErrorDeMalla::DemasiadosVertices);
        }
        let m = Malla::rejilla(segmentos + 1, 2);
        proof {
            assert forall|i: int| 0 <= i < m@.indices.len() implies m@.indices[i] < 2 * (segmentos
                + 1) by {
                ley_indices_en_rango(segmentos + 1, 2, i);
            }
        }
        Ok(m)
    }

    /// The number of rows of vertices.
    pub fn filas(&self) -> (n: u32)
        ensures
            n == self@.filas,
    {
        self.filas
    }

    /// The number of columns of vertices.
    pub fn columnas(&self) -> (n: u32)
        ensures
            n == self@.columnas,
    {
        self.columnas
    }

    /// The number of vertices: rows times columns, with at least two of each.
    pub fn cantidad_vertices(&self) -> (n: u32)
        ensures
            n == self@.cantidad_vertices(),
            n == self@.filas * self@.columnas,
            rejilla_valida(self@.filas as int, self@.columnas as int),
    {
        proof {
            use_type_invariant(self);
        }
        self.filas * self.columnas
    }

    /// The triangle list: three vertex numbers for each triangle.
    pub fn indices(&self) -> (v: &Vec<u32>)
        ensures
            v@ == self@.indices,
            v@ == indices_de_rejilla(self@.filas as int, self@.columnas as int),
    {
        proof {
            use_type_invariant(self);
        }
        &self.indices
    }

    /// The triangle list with 16-bit entries, for the meshes whose vertices
    /// can all be numbered with 16 bits: those of at most 65536 vertices.
    pub fn indices_u16(&self) -> (r: Option<Vec<u16>>)
        ensures
            r is Some <==> self@.cantidad_vertices() <= 65536,
            r matches Some(v) ==> {
                &&& v@ == self@.indices_cortos()
                &&& v@.len() == self@.indices.len()
                &&& forall|i: int| 0 <= i < v@.len() ==> v@[i] as int == self@.indices[i] as int
            },
    {
        proof {
            use_type_invariant(self);
        }
        if self.cantidad_vertices() > 65536 {
            return None;
        }
        let n: usize = self.indices.len();
        let mut cortos: Vec<u16> = Vec::new();
        let mut i: usize = 0;
        while i < n
            invariant
                i <= n,
                n == self.indices@.len(),
                rejilla_valida(self.filas as int, self.columnas as int),
                self.filas * self.columnas <= 65536,
                self.indices@ == indices_de_rejilla(self.filas as int, self.columnas as int),
                cortos@.len() == i,
                forall|j: int| 0 <= j < i ==> cortos@[j] as int == self.indices@[j] as int,
            decreases n - i,
        {
            proof {
                ley_indices_en_rango(self.filas as int, self.columnas as int, i as int);
            }
            cortos.push(self.indices[i] as u16);
            i += 1;
        }
        assert(cortos@ =~= self@.indices_cortos());
        Some(cortos)
    }

    /// The triangle list as the bytes of its 16-bit entries, as they lie in
    /// memory on this machine: the contents of a 16-bit index buffer.
    pub fn indices_en_bytes(&self) -> (r: Option<Vec<u8>>)
        ensures
            r is Some <==> self@.cantidad_vertices() <= 65536,
            r matches Some(bytes) ==> imagen_en_memoria(self@.indices_cortos(), bytes@),
    {
        match self.indices_u16() {
            Some(cortos) => Some(bytes_en_memoria(&cortos)),
            None => None,
        }
    }

    /// The number of triangles.
    pub fn cantidad_triangulos(&self) -> (n: usize)
        ensures
            n == self@.indices.len() / 3,
            n == 2 * ((self@.filas - 1) * (self@.columnas - 1)),
    {
        proof {
            use_type_invariant(self);
        }
        self.indices.len() / 3
    }

    /// The three vertex numbers of triangle number `t`, or `None` where the
    /// mesh has no such triangle. Each of the three is a vertex of the mesh.
    pub fn triangulo(&self, t: usize) -> (r: Option<(u32, u32, u32)>)
        ensures
            r is Some <==> t < self@.indices.len() / 3,
            r matches Some((a, b, c)) ==> {
                &&& a == self@.indices[3 * t]
                &&& b == self@.indices[3 * t + 1]
                &&& c == self@.indices[3 * t + 2]
                &&& a < self@.cantidad_vertices()
                &&& b < self@.cantidad_vertices()
                &&& c < self@.cantidad_vertices()
            },
    {
        proof {
            use_type_invariant(self);
        }
        if t < self.indices.len() / 3 {
            proof {
                ley_indices_en_rango(self.filas as int, self.columnas as int, 3 * t);
                ley_indices_en_rango(self.filas as int, self.columnas as int, 3 * t + 1);
                ley_indices_en_rango(self.filas as int, self.columnas as int, 3 * t + 2);
            }
            Some((self.indices[3 * t], self.indices[3 * t + 1], self.indices[3 * t + 2]))
        } else {
            None
        }
    }

    /// The row and the column of vertex number `k`, or `None` where the mesh
    /// has no such vertex.
    pub fn posicion_en_rejilla(&self, k: u32) -> (r: Option<(u32, u32)>)
        ensures
            k >= self@.cantidad_vertices() ==> r is None,
            k < self@.cantidad_vertices() ==> r == Some(
                ((k as int / self@.columnas as int) as u32, (k as int % self@.columnas as int) as u32),
            ),
            r matches Some((fila, columna)) ==> fila < self@.filas && columna < self@.columnas
                && vertice_en(self@.columnas as int, fila as int, columna as int) == k,
    {
        proof {
            use_type_invariant(self);
        }
        if k >= self.filas * self.columnas {
            None
        } else {
            proof {
                lema_lugar_en_tabla(k as int, self.filas as int, self.columnas as int);
            }
            Some((k / self.columnas, k % self.columnas))
        }
    }
}

} // verus!
