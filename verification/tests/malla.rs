use sistema_solar::malla::{ErrorDeMalla, Malla};

fn esfera(anillos: u32, sectores: u32) -> Malla {
    Malla::generar_esfera(anillos, sectores).ok().unwrap()
}

fn anillo(segmentos: u32) -> Malla {
    Malla::generar_anillo(segmentos).ok().unwrap()
}

#[test]
fn esfera_de_diez_por_diez() {
    let m = esfera(10, 10);
    assert_eq!(m.cantidad_vertices(), 100);
    assert_eq!(m.indices().len(), 9 * 9 * 6);
    assert!(m.indices().iter().all(|i| *i < 100));
    assert_eq!(m.filas(), 10);
    assert_eq!(m.columnas(), 10);
    assert_eq!(m.cantidad_triangulos(), 162);
}

#[test]
fn esferas_de_varios_tamanos_cumplen_las_cuentas() {
    for anillos in 2..12u32 {
        for sectores in 2..12u32 {
            let m = esfera(anillos, sectores);
            assert_eq!(m.cantidad_vertices(), anillos * sectores);
            assert_eq!(m.indices().len() as u32, (anillos - 1) * (sectores - 1) * 6);
            assert!(m.indices().iter().all(|i| *i < anillos * sectores));
            assert_eq!(*m.indices().iter().max().unwrap(), anillos * sectores - 1);
            assert_eq!(*m.indices().iter().min().unwrap(), 0);
        }
    }
}

#[test]
fn la_esfera_mas_pequena_es_una_celda() {
    let m = esfera(2, 2);
    assert_eq!(m.cantidad_vertices(), 4);
    assert_eq!(m.indices(), &vec![0, 2, 1, 2, 3, 1]);
}

#[test]
fn indices_de_una_rejilla_de_tres_por_tres() {
    let m = esfera(3, 3);
    let esperado: Vec<u32> = vec![
        0, 3, 1, 3, 4, 1, // cell (0, 0)
        1, 4, 2, 4, 5, 2, // cell (0, 1)
        3, 6, 4, 6, 7, 4, // cell (1, 0)
        4, 7, 5, 7, 8, 5, // cell (1, 1)
    ];
    assert_eq!(m.indices(), &esperado);
}

#[test]
fn indices_de_una_rejilla_que_no_es_cuadrada() {
    let m = esfera(2, 4);
    let esperado: Vec<u32> = vec![0, 4, 1, 4, 5, 1, 1, 5, 2, 5, 6, 2, 2, 6, 3, 6, 7, 3];
    assert_eq!(m.indices(), &esperado);
    let n = esfera(4, 2);
    let esperado: Vec<u32> = vec![0, 2, 1, 2, 3, 1, 2, 4, 3, 4, 5, 3, 4, 6, 5, 6, 7, 5];
    assert_eq!(n.indices(), &esperado);
}

#[test]
fn esfera_de_cincuenta_subdivisiones() {
    // Fifty subdivisions along each direction give fifty-one rings and sectors.
    let subdivisiones: u32 = 50;
    let m = esfera(subdivisiones + 1, subdivisiones + 1);
    assert_eq!(m.cantidad_vertices(), 2601);
    let mut esperado: Vec<u32> = Vec::new();
    for lat in 0..subdivisiones {
        for lon in 0..subdivisiones {
            let primero = lat * (subdivisiones + 1) + lon;
            let segundo = primero + subdivisiones + 1;
            esperado.push(primero);
            esperado.push(segundo);
            esperado.push(primero + 1);
            esperado.push(segundo);
            esperado.push(segundo + 1);
            esperado.push(primero + 1);
        }
    }
    assert_eq!(esperado.len(), 15000);
    assert_eq!(m.indices(), &esperado);
}

#[test]
fn esfera_rechaza_menos_de_dos_anillos_o_sectores() {
    for (anillos, sectores) in [(0u32, 0u32), (1, 1), (1, 10), (10, 1), (0, 10), (10, 0), (1, u32::MAX)] {
        assert!(matches!(
            Malla::generar_esfera(anillos, sectores),
            Err(ErrorDeMalla::SubdivisionInsuficiente)
        ));
    }
}

#[test]
fn esfera_rechaza_mas_vertices_de_los_que_se_pueden_numerar() {
    assert!(matches!(Malla::generar_esfera(65536, 65536), Err(ErrorDeMalla::DemasiadosVertices)));
    assert!(matches!(Malla::generar_esfera(u32::MAX, 2), Err(ErrorDeMalla::DemasiadosVertices)));
    assert!(matches!(Malla::generar_esfera(2, 0x8000_0000), Err(ErrorDeMalla::DemasiadosVertices)));
    assert!(matches!(
        Malla::generar_esfera(u32::MAX, u32::MAX),
        Err(ErrorDeMalla::DemasiadosVertices)
    ));
}

#[test]
fn anillo_de_ocho_segmentos() {
    let m = anillo(8);
    assert_eq!(m.cantidad_vertices(), 18);
    assert_eq!(m.indices().len(), 48);
    assert!(m.indices().iter().all(|i| *i < 18));
    assert_eq!(m.filas(), 9);
    assert_eq!(m.columnas(), 2);
}

#[test]
fn anillos_de_varios_tamanos_cumplen_las_cuentas() {
    for segmentos in 1..40u32 {
        let m = anillo(segmentos);
        assert_eq!(m.cantidad_vertices(), 2 * (segmentos + 1));
        assert_eq!(m.indices().len() as u32, 6 * segmentos);
        assert!(m.indices().iter().all(|i| *i < 2 * (segmentos + 1)));
    }
}

#[test]
fn anillo_de_un_segmento() {
    let m = anillo(1);
    assert_eq!(m.cantidad_vertices(), 4);
    assert_eq!(m.indices(), &vec![0, 2, 1, 2, 3, 1]);
}

#[test]
fn anillo_de_dos_segmentos() {
    // Vertices 0, 2, 4 are the inner ones of steps 0, 1, 2; 1, 3, 5 the outer ones.
    let m = anillo(2);
    assert_eq!(m.indices(), &vec![0, 2, 1, 2, 3, 1, 2, 4, 3, 4, 5, 3]);
}

#[test]
fn anillo_rechaza_cero_segmentos() {
    assert!(matches!(Malla::generar_anillo(0), Err(ErrorDeMalla::SubdivisionInsuficiente)));
}

#[test]
fn anillo_rechaza_mas_vertices_de_los_que_se_pueden_numerar() {
    assert!(matches!(Malla::generar_anillo(u32::MAX), Err(ErrorDeMalla::DemasiadosVertices)));
    assert!(matches!(Malla::generar_anillo(0x7FFF_FFFF), Err(ErrorDeMalla::DemasiadosVertices)));
}

#[test]
fn cada_vertice_tiene_su_fila_y_su_columna() {
    let m = esfera(3, 5);
    assert_eq!(m.posicion_en_rejilla(0), Some((0, 0)));
    assert_eq!(m.posicion_en_rejilla(4), Some((0, 4)));
    assert_eq!(m.posicion_en_rejilla(5), Some((1, 0)));
    assert_eq!(m.posicion_en_rejilla(13), Some((2, 3)));
    assert_eq!(m.posicion_en_rejilla(14), Some((2, 4)));
    assert_eq!(m.posicion_en_rejilla(15), None);
    assert_eq!(m.posicion_en_rejilla(u32::MAX), None);
    for k in 0..15 {
        let (fila, columna) = m.posicion_en_rejilla(k).unwrap();
        assert_eq!(fila * 5 + columna, k);
    }
}

#[test]
fn los_triangulos_son_ternas_de_la_lista() {
    let m = esfera(3, 3);
    assert_eq!(m.cantidad_triangulos(), 8);
    assert_eq!(m.triangulo(0), Some((0, 3, 1)));
    assert_eq!(m.triangulo(1), Some((3, 4, 1)));
    assert_eq!(m.triangulo(7), Some((7, 8, 5)));
    assert_eq!(m.triangulo(8), None);
    assert_eq!(m.triangulo(usize::MAX), None);
}

#[test]
fn indices_de_16_bits_son_los_mismos_numeros() {
    let m = esfera(51, 51);
    let cortos = m.indices_u16().unwrap();
    assert_eq!(cortos.len(), m.indices().len());
    for (corto, largo) in cortos.iter().zip(m.indices().iter()) {
        assert_eq!(*corto as u32, *largo);
    }
}

#[test]
fn indices_de_16_bits_hasta_65536_vertices() {
    let justo = esfera(256, 256);
    assert_eq!(justo.cantidad_vertices(), 65536);
    let cortos = justo.indices_u16().unwrap();
    assert_eq!(*cortos.iter().max().unwrap(), 65535);
    assert_eq!(*cortos.last().unwrap(), 65535 - 256);
    let pasado = esfera(257, 256);
    assert!(pasado.indices_u16().is_none());
    assert!(pasado.indices_en_bytes().is_none());
}

#[test]
fn los_bytes_de_los_indices_son_los_de_la_memoria() {
    let m = esfera(20, 17);
    let bytes = m.indices_en_bytes().unwrap();
    let mut esperado: Vec<u8> = Vec::new();
    for i in m.indices() {
        esperado.extend_from_slice(&(*i as u16).to_ne_bytes());
    }
    assert_eq!(bytes, esperado);
    assert_eq!(bytes.len(), 2 * m.indices().len());
}

#[test]
fn los_bytes_de_un_anillo() {
    let m = anillo(1);
    let bytes = m.indices_en_bytes().unwrap();
    let mut esperado: Vec<u8> = Vec::new();
    for i in [0u16, 2, 1, 2, 3, 1] {
        esperado.extend_from_slice(&i.to_ne_bytes());
    }
    assert_eq!(bytes, esperado);
}
