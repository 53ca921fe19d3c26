use smart_classroom::models::medicion::Medicion;
use smart_classroom::services::mediciones::{
    calcular_maximo_humedad, calcular_maximo_iluminacion, calcular_maximo_ruido,
    calcular_maximo_temperatura, calcular_minimo_humedad, calcular_minimo_iluminacion,
    calcular_minimo_ruido, calcular_minimo_temperatura,
};

fn con_temperaturas(valores: &[Option<f64>]) -> Vec<Medicion> {
    valores
        .iter()
        .enumerate()
        .map(|(k, t)| Medicion {
            id: k as i32,
            aula_id: 1,
            sensor_id: None,
            temperatura: t.map(f64::to_bits),
            humedad: t.map(|x| (x * 2.0).to_bits()),
            iluminacion: t.map(|x| (x + 100.0).to_bits()),
            ruido: t.map(|x| (-x).to_bits()),
            confort: None,
            fecha_hora: String::new(),
        })
        .collect()
}

fn igual(a: Option<u64>, b: Option<f64>) -> bool {
    match (a.map(f64::from_bits), b) {
        (None, None) => true,
        (Some(x), Some(y)) => x == y || (x.is_nan() && y.is_nan()),
        _ => false,
    }
}

#[test]
fn maximos_y_minimos_coinciden_con_reduce() {
    let casos: Vec<Vec<Option<f64>>> = vec![
        vec![],
        vec![None, None],
        vec![Some(21.5)],
        vec![Some(21.5), None, Some(30.0), Some(-4.0), Some(25.0)],
        vec![Some(f64::NAN), Some(3.0), Some(f64::NAN), Some(1.0)],
        vec![Some(f64::NAN)],
        vec![Some(f64::NEG_INFINITY), Some(2.0), Some(f64::INFINITY)],
        vec![Some(-0.5), Some(-7.25), None, Some(-0.75)],
    ];
    for caso in casos {
        let m = con_temperaturas(&caso);
        let pres = |f: fn(f64) -> f64| caso.iter().filter_map(|x| x.map(f)).collect::<Vec<f64>>();
        let t = pres(|x| x);
        let h = pres(|x| x * 2.0);
        let i = pres(|x| x + 100.0);
        let r = pres(|x| -x);
        assert!(igual(calcular_maximo_temperatura(&m), t.iter().copied().reduce(f64::max)), "{:?}", caso);
        assert!(igual(calcular_minimo_temperatura(&m), t.iter().copied().reduce(f64::min)), "{:?}", caso);
        assert!(igual(calcular_maximo_humedad(&m), h.iter().copied().reduce(f64::max)));
        assert!(igual(calcular_minimo_humedad(&m), h.iter().copied().reduce(f64::min)));
        assert!(igual(calcular_maximo_iluminacion(&m), i.iter().copied().reduce(f64::max)));
        assert!(igual(calcular_minimo_iluminacion(&m), i.iter().copied().reduce(f64::min)));
        assert!(igual(calcular_maximo_ruido(&m), r.iter().copied().reduce(f64::max)));
        assert!(igual(calcular_minimo_ruido(&m), r.iter().copied().reduce(f64::min)));
    }
}

#[test]
fn maximo_de_valores_concretos() {
    let m = con_temperaturas(&[Some(18.0), Some(27.5), None, Some(22.0)]);
    assert_eq!(calcular_maximo_temperatura(&m).map(f64::from_bits), Some(27.5));
    assert_eq!(calcular_minimo_temperatura(&m).map(f64::from_bits), Some(18.0));
    assert_eq!(calcular_maximo_temperatura(&[]), None);
}
