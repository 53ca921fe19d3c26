use smart_classroom::models::medicion::Medicion;
use smart_classroom::services::confort::{
    comprobar_dato_acustico, comprobar_dato_visual, comprobar_datos_confort,
    comprobar_datos_termicos, obtener_estado_confort,
};

fn estado(x: f64) -> &'static str {
    obtener_estado_confort(x.to_bits())
}

fn medicion(t: Option<f64>, h: Option<f64>, i: Option<f64>, r: Option<f64>) -> Medicion {
    Medicion {
        id: 1,
        aula_id: 1,
        sensor_id: None,
        temperatura: t.map(f64::to_bits),
        humedad: h.map(f64::to_bits),
        iluminacion: i.map(f64::to_bits),
        ruido: r.map(f64::to_bits),
        confort: None,
        fecha_hora: String::new(),
    }
}

#[test]
fn estado_confort_por_umbral() {
    assert_eq!(estado(1.0), "Muy confortable");
    assert_eq!(estado(0.80), "Muy confortable");
    assert_eq!(estado(0.7999999), "Confortable");
    assert_eq!(estado(0.60), "Confortable");
    assert_eq!(estado(0.5), "Aceptable");
    assert_eq!(estado(0.40), "Aceptable");
    assert_eq!(estado(0.3), "Poco confortable");
    assert_eq!(estado(0.20), "Poco confortable");
    assert_eq!(estado(0.19), "Desfavorable");
    assert_eq!(estado(0.0), "Desfavorable");
    assert_eq!(estado(-0.5), "Desfavorable");
    assert_eq!(estado(f64::NAN), "Desfavorable");
    assert_eq!(estado(f64::INFINITY), "Muy confortable");
}

#[test]
fn estado_confort_es_monotono() {
    let rango = |e: &str| match e {
        "Desfavorable" => 0,
        "Poco confortable" => 1,
        "Aceptable" => 2,
        "Confortable" => 3,
        _ => 4,
    };
    let mut anterior = 0;
    for k in 0..=100 {
        let r = rango(estado(k as f64 / 100.0));
        assert!(r >= anterior);
        anterior = r;
    }
}

#[test]
fn datos_termicos_errores_en_orden() {
    let e = comprobar_datos_termicos(&medicion(None, None, None, None)).unwrap_err();
    assert_eq!(e, "La temperatura es necesaria para calcular el confort térmico");
    let e = comprobar_datos_termicos(&medicion(Some(f64::NAN), None, None, None)).unwrap_err();
    assert_eq!(e, "La humedad es necesaria para calcular el confort térmico");
    let e = comprobar_datos_termicos(&medicion(Some(f64::NAN), Some(f64::NAN), None, None)).unwrap_err();
    assert_eq!(e, "La temperatura debe ser un número válido");
    let e = comprobar_datos_termicos(&medicion(Some(20.0), Some(f64::INFINITY), None, None)).unwrap_err();
    assert_eq!(e, "La humedad debe ser un número válido");
    let ok = comprobar_datos_termicos(&medicion(Some(20.0), Some(45.0), None, None)).unwrap();
    assert_eq!(ok, (20.0f64.to_bits(), 45.0f64.to_bits()));
}

#[test]
fn datos_visual_y_acustico() {
    assert_eq!(
        comprobar_dato_visual(&medicion(None, None, None, None)).unwrap_err(),
        "La iluminación es necesaria para calcular el confort visual"
    );
    assert_eq!(
        comprobar_dato_visual(&medicion(None, None, Some(f64::NAN), None)).unwrap_err(),
        "La iluminación debe ser un número válido"
    );
    assert_eq!(comprobar_dato_visual(&medicion(None, None, Some(350.0), None)).unwrap(), 350.0f64.to_bits());
    assert_eq!(
        comprobar_dato_acustico(&medicion(None, None, None, None)).unwrap_err(),
        "El ruido es necesario para calcular el confort acústico"
    );
    assert_eq!(
        comprobar_dato_acustico(&medicion(None, None, None, Some(f64::NEG_INFINITY))).unwrap_err(),
        "El ruido debe ser un número válido"
    );
    assert_eq!(comprobar_dato_acustico(&medicion(None, None, None, Some(42.0))).unwrap(), 42.0f64.to_bits());
}

#[test]
fn datos_confort_primero_el_termico() {
    let e = comprobar_datos_confort(&medicion(Some(20.0), None, None, None)).unwrap_err();
    assert_eq!(e, "La humedad es necesaria para calcular el confort térmico");
    let e = comprobar_datos_confort(&medicion(Some(20.0), Some(50.0), None, None)).unwrap_err();
    assert_eq!(e, "La iluminación es necesaria para calcular el confort visual");
    let e = comprobar_datos_confort(&medicion(Some(20.0), Some(50.0), Some(400.0), None)).unwrap_err();
    assert_eq!(e, "El ruido es necesario para calcular el confort acústico");
    let ok = comprobar_datos_confort(&medicion(Some(20.0), Some(50.0), Some(400.0), Some(45.0))).unwrap();
    assert_eq!(ok, ((20.0f64.to_bits(), 50.0f64.to_bits()), 400.0f64.to_bits(), 45.0f64.to_bits()));
}
