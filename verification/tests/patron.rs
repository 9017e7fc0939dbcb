use sistema_solar::patron::{clave_de, es_menor, es_no_negativo, es_patron_nan, INFINITO};

fn muestras() -> Vec<f32> {
    vec![
        0.0,
        -0.0,
        1.0,
        -1.0,
        0.5,
        -0.5,
        0.999_999_94,
        1.000_000_1,
        f32::MIN_POSITIVE,
        -f32::MIN_POSITIVE,
        f32::from_bits(1),
        f32::from_bits(0x8000_0001),
        f32::MAX,
        f32::MIN,
        f32::INFINITY,
        f32::NEG_INFINITY,
        f32::NAN,
        f32::from_bits(0x7F80_0001),
        f32::from_bits(0xFFFF_FFFF),
        f32::from_bits(0xFF80_0001),
        123.456,
        -123.456,
        3.0e-39,
        -3.0e-39,
    ]
}

#[test]
fn infinito_es_el_de_f32() {
    assert_eq!(INFINITO, f32::INFINITY.to_bits());
}

#[test]
fn el_orden_es_el_de_f32() {
    let m = muestras();
    for a in &m {
        for b in &m {
            assert_eq!(es_menor(a.to_bits(), b.to_bits()), a < b, "{} < {}", a, b);
        }
    }
}

#[test]
fn el_orden_es_el_de_f32_en_una_rejilla_de_patrones() {
    let mut patrones: Vec<u32> = Vec::new();
    let mut p: u64 = 0;
    while p <= u32::MAX as u64 {
        patrones.push(p as u32);
        p += 0x0123_4567;
    }
    patrones.push(u32::MAX);
    for a in &patrones {
        for b in &patrones {
            let fa = f32::from_bits(*a);
            let fb = f32::from_bits(*b);
            assert_eq!(es_menor(*a, *b), fa < fb);
        }
    }
}

#[test]
fn nan_se_reconoce() {
    for a in muestras() {
        assert_eq!(es_patron_nan(a.to_bits()), a.is_nan());
    }
    assert!(!es_patron_nan(0x7F80_0000));
    assert!(es_patron_nan(0x7F80_0001));
    assert!(!es_patron_nan(0xFF80_0000));
    assert!(es_patron_nan(0xFF80_0001));
}

#[test]
fn clave_de_valores_conocidos() {
    assert_eq!(clave_de(0.0f32.to_bits()), 0);
    assert_eq!(clave_de((-0.0f32).to_bits()), 0);
    assert_eq!(clave_de(1.0f32.to_bits()), 0x3F80_0000);
    assert_eq!(clave_de((-1.0f32).to_bits()), -0x3F80_0000);
    assert_eq!(clave_de(f32::INFINITY.to_bits()), 0x7F80_0000);
    assert_eq!(clave_de(f32::NEG_INFINITY.to_bits()), -0x7F80_0000);
    assert_eq!(clave_de(1), 1);
    assert_eq!(clave_de(0x8000_0001), -1);
}

#[test]
fn nada_esta_mas_lejos_que_el_infinito() {
    for a in muestras() {
        assert!(!es_menor(INFINITO, a.to_bits()));
        if !a.is_nan() && a != f32::INFINITY {
            assert!(es_menor(a.to_bits(), INFINITO));
        }
    }
}

#[test]
fn los_dos_ceros_no_se_ganan() {
    let mas = 0.0f32.to_bits();
    let menos = (-0.0f32).to_bits();
    assert!(!es_menor(mas, menos));
    assert!(!es_menor(menos, mas));
}

#[test]
fn no_negativo_es_mayor_o_igual_que_cero() {
    for a in muestras() {
        assert_eq!(es_no_negativo(a.to_bits()), a >= 0.0, "{}", a);
    }
}
