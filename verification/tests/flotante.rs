use smart_classroom::flotante::{es_finito, es_finito_32, es_nan, mayor_o_igual, menor};

fn muestras() -> Vec<f64> {
    vec![
        0.0,
        -0.0,
        1.0,
        -1.0,
        0.5,
        -0.5,
        23.5,
        1e-310,
        -1e-310,
        f64::MIN_POSITIVE,
        f64::MAX,
        f64::MIN,
        f64::INFINITY,
        f64::NEG_INFINITY,
        f64::NAN,
        -f64::NAN,
        0.8,
        0.79999,
        300.0,
        1000.0,
    ]
}

#[test]
fn menor_coincide_con_f64() {
    for a in muestras() {
        for b in muestras() {
            assert_eq!(menor(a.to_bits(), b.to_bits()), a < b, "{} < {}", a, b);
            assert_eq!(mayor_o_igual(a.to_bits(), b.to_bits()), a >= b, "{} >= {}", a, b);
        }
    }
}

#[test]
fn finitud_y_nan_coinciden_con_f64() {
    for a in muestras() {
        assert_eq!(es_finito(a.to_bits()), a.is_finite());
        assert_eq!(es_nan(a.to_bits()), a.is_nan());
    }
    for a in [0.0f32, -3.5, f32::MAX, f32::INFINITY, f32::NEG_INFINITY, f32::NAN, 800.0] {
        assert_eq!(es_finito_32(a.to_bits()), a.is_finite());
    }
}

#[test]
fn cero_positivo_y_negativo_son_iguales() {
    assert!(!menor(0.0f64.to_bits(), (-0.0f64).to_bits()));
    assert!(!menor((-0.0f64).to_bits(), 0.0f64.to_bits()));
    assert!(mayor_o_igual((-0.0f64).to_bits(), 0.0f64.to_bits()));
}
