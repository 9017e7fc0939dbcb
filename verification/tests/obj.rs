use sistema_solar::obj::{
    analizar_linea, es_caracter_espacio, resolver_caras, resolver_esquina, resolver_indice, Cara, Esquina,
    EsquinaResuelta, LineaObj, Rango,
};

fn leer(linea: &str) -> LineaObj {
    let caracteres: Vec<char> = linea.chars().collect();
    analizar_linea(&caracteres)
}

fn rango(inicio: usize, fin: usize) -> Rango {
    Rango { inicio, fin }
}

fn esquina(posicion: usize, textura: usize, normal: usize) -> Esquina {
    Esquina { posicion, textura, normal }
}

fn texto(linea: &str, r: Rango) -> String {
    linea.chars().skip(r.inicio).take(r.fin - r.inicio).collect()
}

#[test]
fn una_posicion() {
    assert_eq!(leer("v 1.0 2.0 3.0"), LineaObj::Vertice(rango(2, 5), rango(6, 9), rango(10, 13)));
    let linea = "v   -0.5\t1e3   +7 0.25";
    match leer(linea) {
        LineaObj::Vertice(x, y, z) => {
            assert_eq!(texto(linea, x), "-0.5");
            assert_eq!(texto(linea, y), "1e3");
            assert_eq!(texto(linea, z), "+7");
        }
        otra => panic!("{:?}", otra),
    }
}

#[test]
fn una_normal() {
    assert_eq!(leer("vn 0 1 0"), LineaObj::Normal(rango(3, 4), rango(5, 6), rango(7, 8)));
}

#[test]
fn una_coordenada_de_textura() {
    assert_eq!(leer("vt 0.5 0.25"), LineaObj::Textura(rango(3, 6), rango(7, 11)));
    assert_eq!(leer("vt 0.5 0.25 0.0"), LineaObj::Textura(rango(3, 6), rango(7, 11)));
}

#[test]
fn los_numeros_no_se_leen_aqui() {
    assert_eq!(leer("v x y z"), LineaObj::Vertice(rango(2, 3), rango(4, 5), rango(6, 7)));
}

#[test]
fn lineas_con_pocas_palabras_no_se_leen() {
    assert_eq!(leer("v 1.0 2.0"), LineaObj::Otra);
    assert_eq!(leer("v"), LineaObj::Otra);
    assert_eq!(leer("vn 1.0 2.0"), LineaObj::Otra);
    assert_eq!(leer("vt 1.0"), LineaObj::Otra);
    assert_eq!(leer("f 1 2"), LineaObj::Otra);
    assert_eq!(leer("f"), LineaObj::Otra);
}

#[test]
fn lineas_de_otra_clase_no_se_leen() {
    assert_eq!(leer(""), LineaObj::Otra);
    assert_eq!(leer("    "), LineaObj::Otra);
    assert_eq!(leer("\t \r"), LineaObj::Otra);
    assert_eq!(leer("# v 1 2 3"), LineaObj::Otra);
    assert_eq!(leer("g nombre de grupo"), LineaObj::Otra);
    assert_eq!(leer("vx 1 2 3"), LineaObj::Otra);
    assert_eq!(leer("V 1 2 3"), LineaObj::Otra);
    assert_eq!(leer("vnn 1 2 3"), LineaObj::Otra);
    assert_eq!(leer("ff 1 2 3"), LineaObj::Otra);
    assert_eq!(leer("usemtl material 1 2 3"), LineaObj::Otra);
}

#[test]
fn una_cara_completa() {
    assert_eq!(
        leer("f 1/2/3 4/5/6 7/8/9"),
        LineaObj::Cara(Cara { a: esquina(0, 1, 2), b: esquina(3, 4, 5), c: esquina(6, 7, 8) })
    );
}

#[test]
fn una_cara_solo_con_posiciones() {
    assert_eq!(
        leer("f 10 20 30"),
        LineaObj::Cara(Cara { a: esquina(9, 0, 0), b: esquina(19, 0, 0), c: esquina(29, 0, 0) })
    );
}

#[test]
fn una_cara_sin_textura() {
    assert_eq!(
        leer("f 1//3 4//6 7//9"),
        LineaObj::Cara(Cara { a: esquina(0, 0, 2), b: esquina(3, 0, 5), c: esquina(6, 0, 8) })
    );
}

#[test]
fn una_cara_sin_normal() {
    assert_eq!(
        leer("f 1/2 4/5 7/8"),
        LineaObj::Cara(Cara { a: esquina(0, 1, 0), b: esquina(3, 4, 0), c: esquina(6, 7, 0) })
    );
}

#[test]
fn de_una_cara_solo_cuentan_las_tres_primeras_esquinas() {
    assert_eq!(
        leer("f 1/1/1 2/2/2 3/3/3 4/4/4 5/5/5"),
        LineaObj::Cara(Cara { a: esquina(0, 0, 0), b: esquina(1, 1, 1), c: esquina(2, 2, 2) })
    );
}

#[test]
fn de_una_esquina_solo_cuentan_los_tres_primeros_campos() {
    assert_eq!(
        leer("f 1/2/3/4 5/6/7/8/9 10/11/12/"),
        LineaObj::Cara(Cara { a: esquina(0, 1, 2), b: esquina(4, 5, 6), c: esquina(9, 10, 11) })
    );
}

#[test]
fn un_campo_que_no_es_numero_vale_cero() {
    assert_eq!(
        leer("f x/y/z -1/-2/-3 1.5/2e1/0x3"),
        LineaObj::Cara(Cara { a: esquina(0, 0, 0), b: esquina(0, 0, 0), c: esquina(0, 0, 0) })
    );
    assert_eq!(
        leer("f /2/3 4/ 7//"),
        LineaObj::Cara(Cara { a: esquina(0, 1, 2), b: esquina(3, 0, 0), c: esquina(6, 0, 0) })
    );
    assert_eq!(
        leer("f / // ///"),
        LineaObj::Cara(Cara { a: esquina(0, 0, 0), b: esquina(0, 0, 0), c: esquina(0, 0, 0) })
    );
}

#[test]
fn el_signo_mas_y_los_ceros_a_la_izquierda_se_aceptan() {
    assert_eq!(
        leer("f +1/+02/003 ++1/+/1+ 0005/+0006/+7"),
        LineaObj::Cara(Cara { a: esquina(0, 1, 2), b: esquina(0, 0, 0), c: esquina(4, 5, 6) })
    );
}

#[test]
fn el_numero_cero_da_un_indice_que_nada_tiene() {
    assert_eq!(
        leer("f 0/0/0 1/1/1 000/+0/2"),
        LineaObj::Cara(Cara {
            a: esquina(usize::MAX, usize::MAX, usize::MAX),
            b: esquina(0, 0, 0),
            c: esquina(usize::MAX, usize::MAX, 1),
        })
    );
}

#[test]
fn un_numero_que_no_cabe_vale_cero() {
    let maximo = format!("{}", usize::MAX);
    let pasado = format!("{}0", usize::MAX);
    let linea = format!("f {}/{}/99999999999999999999999999999999999999 1 2", maximo, pasado);
    assert_eq!(
        leer(&linea),
        LineaObj::Cara(Cara { a: esquina(usize::MAX - 1, 0, 0), b: esquina(0, 0, 0), c: esquina(1, 0, 0) })
    );
}

#[test]
fn los_indices_se_leen_como_los_lee_la_biblioteca_estandar() {
    let campos = [
        "1", "12", "007", "+5", "-5", "+", "-", "", "0", "+0", "00", "1a", "a1", " 1", "1_000", "١٢٣", "٣",
        "18446744073709551615", "18446744073709551616", "18446744073709551614", "4294967295", "4294967296",
        "99999999999999999999", "++1", "+-1", "1+", "९", "1.0", "1e3", "0x10", "000000000000000000000000000001",
    ];
    for campo in campos {
        if campo.chars().any(|c| c.is_whitespace() || c == '/') {
            continue;
        }
        let esperado = campo.parse::<usize>().unwrap_or(1).wrapping_sub(1);
        let linea = format!("f {}/1/{} 1 1", campo, campo);
        match leer(&linea) {
            LineaObj::Cara(cara) => {
                assert_eq!(cara.a.posicion, esperado, "{:?}", campo);
                assert_eq!(cara.a.normal, esperado, "{:?}", campo);
                assert_eq!(cara.a.textura, 0);
            }
            otra => panic!("{:?}", otra),
        }
        if !campo.is_empty() {
            let linea = format!("f 1/{} 1 1", campo);
            match leer(&linea) {
                LineaObj::Cara(cara) => assert_eq!(cara.a.textura, esperado, "{:?}", campo),
                otra => panic!("{:?}", otra),
            }
        }
    }
}

#[test]
fn las_palabras_se_separan_como_las_separa_la_biblioteca_estandar() {
    let lineas = [
        "v 1 2 3",
        "  v\t1\u{a0}2\u{2003}3  ",
        "v\u{3000}1\u{85}2\u{1680}3\u{2028}4",
        "v\u{b}1\u{c}2\r3",
        "v\u{200b}1 2 3 4",
        "v 1\u{feff}2 3 4",
        "vn   uno   dos   tres   cuatro",
        "vt a b",
        "vt \u{202f}a\u{205f}b\u{2029}",
    ];
    for linea in lineas {
        let palabras: Vec<&str> = linea.split_whitespace().collect();
        let leida = leer(linea);
        match palabras[0] {
            "v" | "vn" if palabras.len() >= 4 => {
                let (x, y, z) = match leida {
                    LineaObj::Vertice(x, y, z) => (x, y, z),
                    LineaObj::Normal(x, y, z) => (x, y, z),
                    otra => panic!("{:?}", otra),
                };
                assert_eq!(matches!(leida, LineaObj::Vertice(..)), palabras[0] == "v");
                assert_eq!(texto(linea, x), palabras[1]);
                assert_eq!(texto(linea, y), palabras[2]);
                assert_eq!(texto(linea, z), palabras[3]);
            }
            "vt" if palabras.len() >= 3 => match leida {
                LineaObj::Textura(u, v) => {
                    assert_eq!(texto(linea, u), palabras[1]);
                    assert_eq!(texto(linea, v), palabras[2]);
                }
                otra => panic!("{:?}", otra),
            },
            _ => assert_eq!(leida, LineaObj::Otra, "{:?}", linea),
        }
    }
}

#[test]
fn espacio_es_lo_que_es_espacio_para_la_biblioteca_estandar() {
    let mut n: u32 = 0;
    while n <= 0x10FFFF {
        if let Some(c) = char::from_u32(n) {
            assert_eq!(es_caracter_espacio(c), c.is_whitespace(), "U+{:04X}", n);
        }
        n += 1;
    }
}

#[test]
fn un_indice_se_resuelve_si_la_tabla_lo_tiene() {
    assert_eq!(resolver_indice(0, 1), Some(0));
    assert_eq!(resolver_indice(0, 0), None);
    assert_eq!(resolver_indice(4, 5), Some(4));
    assert_eq!(resolver_indice(5, 5), None);
    assert_eq!(resolver_indice(usize::MAX, usize::MAX), None);
    assert_eq!(resolver_indice(usize::MAX - 1, usize::MAX), Some(usize::MAX - 1));
}

#[test]
fn una_esquina_se_resuelve_campo_por_campo() {
    assert_eq!(
        resolver_esquina(esquina(2, 0, 7), 3, 0, 7),
        EsquinaResuelta { posicion: Some(2), textura: None, normal: None }
    );
    assert_eq!(
        resolver_esquina(esquina(3, 1, 6), 3, 2, 7),
        EsquinaResuelta { posicion: None, textura: Some(1), normal: Some(6) }
    );
}

#[test]
fn las_caras_dan_tres_vertices_cada_una() {
    let caras = vec![
        Cara { a: esquina(0, 0, 0), b: esquina(1, 1, 1), c: esquina(2, 2, 2) },
        Cara { a: esquina(2, 9, 0), b: esquina(3, 0, 5), c: esquina(usize::MAX, 1, 1) },
    ];
    let vertices = resolver_caras(&caras, 3, 2, 2);
    let r = |posicion, textura, normal| EsquinaResuelta { posicion, textura, normal };
    assert_eq!(
        vertices,
        vec![
            r(Some(0), Some(0), Some(0)),
            r(Some(1), Some(1), Some(1)),
            r(Some(2), None, None),
            r(Some(2), None, Some(0)),
            r(None, Some(0), None),
            r(None, Some(1), Some(1)),
        ]
    );
    assert_eq!(resolver_caras(&Vec::new(), 3, 2, 2), Vec::new());
}

fn lineas_de(texto: &str) -> Vec<Vec<char>> {
    texto.lines().map(|l| l.chars().collect()).collect()
}

const TETRAEDRO: &str = "# un tetraedro
o tetra
v 0.0 0.0 0.0
v 1.0 0.0 0.0
v 0.0 1.0 0.0

v 0.0 0.0 1.0
vn 0 0 -1
vt 0.5 0.5
s off
f 1/1/1 3/1/1 2/1/1
f 1 2 4
f 2//1 3//2 4/2
f 1/1/1 2/2/2
f 0 5 4 3
";

#[test]
fn un_modelo_guarda_cada_linea_en_su_lista() {
    let lineas = lineas_de(TETRAEDRO);
    let m = sistema_solar::obj::ModeloOBJ::leer(&lineas);
    assert_eq!(m.vertices.len(), 4);
    assert_eq!(m.normales.len(), 1);
    assert_eq!(m.coordenadas_uv.len(), 1);
    assert_eq!(m.caras.len(), 4);
    let numeros: Vec<usize> = m.vertices.iter().map(|v| v.linea).collect();
    assert_eq!(numeros, vec![2, 3, 4, 6]);
    assert_eq!(m.normales[0].linea, 7);
    assert_eq!(m.coordenadas_uv[0].linea, 8);
    let v = m.vertices[1];
    assert_eq!((v.x, v.y, v.z), (rango(2, 5), rango(6, 9), rango(10, 13)));
    let linea: String = lineas[v.linea].iter().collect();
    assert_eq!(texto(&linea, v.x), "1.0");
    assert_eq!(
        m.caras,
        vec![
            Cara { a: esquina(0, 0, 0), b: esquina(2, 0, 0), c: esquina(1, 0, 0) },
            Cara { a: esquina(0, 0, 0), b: esquina(1, 0, 0), c: esquina(3, 0, 0) },
            Cara { a: esquina(1, 0, 0), b: esquina(2, 0, 1), c: esquina(3, 1, 0) },
            Cara { a: esquina(usize::MAX, 0, 0), b: esquina(4, 0, 0), c: esquina(3, 0, 0) },
        ]
    );
}

#[test]
fn los_vertices_de_un_modelo_salen_de_sus_tablas() {
    let m = sistema_solar::obj::ModeloOBJ::leer(&lineas_de(TETRAEDRO));
    let vertices = m.obtener_array_vertices();
    assert_eq!(vertices.len(), 12);
    let r = |posicion, textura, normal| EsquinaResuelta { posicion, textura, normal };
    assert_eq!(vertices[0], r(Some(0), Some(0), Some(0)));
    assert_eq!(vertices[1], r(Some(2), Some(0), Some(0)));
    assert_eq!(vertices[5], r(Some(3), Some(0), Some(0)));
    assert_eq!(vertices[7], r(Some(2), Some(0), None));
    assert_eq!(vertices[8], r(Some(3), None, Some(0)));
    assert_eq!(vertices[9], r(None, Some(0), Some(0)));
    assert_eq!(vertices[10], r(None, Some(0), Some(0)));
    assert_eq!(vertices, resolver_caras(&m.caras, 4, 1, 1));
}

#[test]
fn un_archivo_sin_lineas_da_un_modelo_vacio() {
    let m = sistema_solar::obj::ModeloOBJ::leer(&Vec::new());
    assert!(m.vertices.is_empty() && m.normales.is_empty() && m.coordenadas_uv.is_empty() && m.caras.is_empty());
    assert!(m.obtener_array_vertices().is_empty());
}

#[test]
fn el_modelo_coincide_con_una_lectura_directa() {
    // The same file read with the standard library alone, numbers and all.
    let mut posiciones: Vec<[f32; 3]> = Vec::new();
    let mut caras: Vec<[usize; 9]> = Vec::new();
    for linea in TETRAEDRO.lines() {
        let partes: Vec<&str> = linea.split_whitespace().collect();
        if partes.is_empty() {
            continue;
        }
        match partes[0] {
            "v" if partes.len() >= 4 => posiciones.push([
                partes[1].parse().unwrap_or(0.0),
                partes[2].parse().unwrap_or(0.0),
                partes[3].parse().unwrap_or(0.0),
            ]),
            "f" if partes.len() >= 4 => {
                let mut cara = [0usize; 9];
                for (i, parte) in partes.iter().skip(1).take(3).enumerate() {
                    let indices: Vec<&str> = parte.split('/').collect();
                    cara[i * 3] = indices[0].parse::<usize>().unwrap_or(1).wrapping_sub(1);
                    if indices.len() > 1 && !indices[1].is_empty() {
                        cara[i * 3 + 1] = indices[1].parse::<usize>().unwrap_or(1).wrapping_sub(1);
                    }
                    if indices.len() > 2 {
                        cara[i * 3 + 2] = indices[2].parse::<usize>().unwrap_or(1).wrapping_sub(1);
                    }
                }
                caras.push(cara);
            }
            _ => {}
        }
    }
    let lineas = lineas_de(TETRAEDRO);
    let m = sistema_solar::obj::ModeloOBJ::leer(&lineas);
    assert_eq!(m.vertices.len(), posiciones.len());
    for (v, esperado) in m.vertices.iter().zip(posiciones.iter()) {
        let linea: String = lineas[v.linea].iter().collect();
        let leido: [f32; 3] = [
            texto(&linea, v.x).parse().unwrap_or(0.0),
            texto(&linea, v.y).parse().unwrap_or(0.0),
            texto(&linea, v.z).parse().unwrap_or(0.0),
        ];
        assert_eq!(&leido, esperado);
    }
    assert_eq!(m.caras.len(), caras.len());
    for (cara, esperada) in m.caras.iter().zip(caras.iter()) {
        let leida = [
            cara.a.posicion, cara.a.textura, cara.a.normal, cara.b.posicion, cara.b.textura, cara.b.normal,
            cara.c.posicion, cara.c.textura, cara.c.normal,
        ];
        assert_eq!(&leida, esperada);
    }
}
