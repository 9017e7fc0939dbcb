use sistema_solar::seleccion::elegir_preferido;

#[test]
fn sin_candidatos_no_hay_eleccion() {
    assert_eq!(elegir_preferido(&Vec::new()), None);
}

#[test]
fn se_elige_el_primero_que_cumple() {
    assert_eq!(elegir_preferido(&vec![true]), Some(0));
    assert_eq!(elegir_preferido(&vec![false, true]), Some(1));
    assert_eq!(elegir_preferido(&vec![false, true, true]), Some(1));
    assert_eq!(elegir_preferido(&vec![true, true, false]), Some(0));
    assert_eq!(elegir_preferido(&vec![false, false, false, true]), Some(3));
}

#[test]
fn si_ninguno_cumple_se_elige_el_primero() {
    assert_eq!(elegir_preferido(&vec![false]), Some(0));
    assert_eq!(elegir_preferido(&vec![false, false, false]), Some(0));
}

#[test]
fn la_eleccion_es_la_de_buscar_y_si_no_el_primero() {
    for bits in 0..64u32 {
        for largo in 1..=6usize {
            let candidatos: Vec<bool> = (0..largo).map(|i| bits & (1 << i) != 0).collect();
            let esperado = candidatos.iter().position(|c| *c).unwrap_or(0);
            assert_eq!(elegir_preferido(&candidatos), Some(esperado));
        }
    }
}
