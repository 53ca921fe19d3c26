use smart_classroom::models::medicion::Medicion;
use smart_classroom::services::mediciones::{
    buscar_por_id, filtrar_por_aula, filtrar_por_sensor, validar_medicion,
};

fn medicion(id: i32, aula_id: i32, sensor_id: Option<i32>) -> Medicion {
    Medicion {
        id,
        aula_id,
        sensor_id,
        temperatura: Some(24.0f64.to_bits()),
        humedad: Some(50.0f64.to_bits()),
        iluminacion: Some(400.0f64.to_bits()),
        ruido: Some(45.0f64.to_bits()),
        confort: None,
        fecha_hora: format!("2024-01-0{}T10:00:00Z", id),
    }
}

#[test]
fn validar_medicion_acepta_una_medicion_valida() {
    assert_eq!(validar_medicion(&medicion(1, 1, Some(2))), Ok(()));
    assert_eq!(validar_medicion(&medicion(1, 1, None)), Ok(()));
}

#[test]
fn validar_medicion_rechaza_cada_campo_en_orden() {
    let mut m = medicion(1, 0, Some(0));
    m.temperatura = Some(f64::NAN.to_bits());
    assert_eq!(validar_medicion(&m).unwrap_err(), "El ID del aula debe ser válido");
    m.aula_id = 3;
    assert_eq!(validar_medicion(&m).unwrap_err(), "El ID del sensor debe ser válido");
    m.sensor_id = Some(-4);
    assert_eq!(validar_medicion(&m).unwrap_err(), "El ID del sensor debe ser válido");
    m.sensor_id = None;
    assert_eq!(validar_medicion(&m).unwrap_err(), "La temperatura debe ser un número válido");
    m.temperatura = None;
    m.humedad = Some(f64::INFINITY.to_bits());
    assert_eq!(validar_medicion(&m).unwrap_err(), "La humedad debe ser un número válido");
    m.humedad = Some(10.0f64.to_bits());
    m.iluminacion = Some(f64::NEG_INFINITY.to_bits());
    assert_eq!(validar_medicion(&m).unwrap_err(), "La iluminación debe ser un número válido");
    m.iluminacion = None;
    m.ruido = Some(f64::NAN.to_bits());
    assert_eq!(validar_medicion(&m).unwrap_err(), "El ruido debe ser un número válido");
    m.ruido = None;
    m.confort = Some(f64::NAN.to_bits());
    assert_eq!(validar_medicion(&m).unwrap_err(), "El índice de confort debe ser un número válido");
    m.confort = Some(0.5f64.to_bits());
    assert_eq!(validar_medicion(&m), Ok(()));
}

#[test]
fn buscar_por_id_devuelve_la_primera_coincidencia() {
    let lista = vec![medicion(1, 10, None), medicion(2, 10, None), medicion(2, 20, None)];
    let m = buscar_por_id(&lista, 2).unwrap();
    assert_eq!(m.id, 2);
    assert_eq!(m.aula_id, 10);
    assert_eq!(m.fecha_hora, "2024-01-02T10:00:00Z");
    assert!(buscar_por_id(&lista, 5).is_none());
    assert!(buscar_por_id(&[], 1).is_none());
}

#[test]
fn filtrar_por_aula_conserva_el_orden() {
    let lista = vec![
        medicion(1, 10, Some(1)),
        medicion(2, 20, Some(1)),
        medicion(3, 10, Some(2)),
        medicion(4, 30, None),
    ];
    let r = filtrar_por_aula(&lista, 10);
    assert_eq!(r.iter().map(|m| m.id).collect::<Vec<_>>(), vec![1, 3]);
    assert!(filtrar_por_aula(&lista, 99).is_empty());
}

#[test]
fn filtrar_por_sensor_ignora_las_mediciones_sin_sensor() {
    let lista = vec![
        medicion(1, 10, Some(1)),
        medicion(2, 20, Some(1)),
        medicion(3, 10, Some(2)),
        medicion(4, 30, None),
    ];
    let r = filtrar_por_sensor(&lista, 1);
    assert_eq!(r.iter().map(|m| m.id).collect::<Vec<_>>(), vec![1, 2]);
    let r = filtrar_por_sensor(&lista, 2);
    assert_eq!(r.iter().map(|m| m.id).collect::<Vec<_>>(), vec![3]);
}

#[test]
fn lo_encontrado_esta_en_el_filtro_de_su_aula() {
    let lista = vec![medicion(1, 10, None), medicion(2, 20, None), medicion(3, 20, None)];
    let m = buscar_por_id(&lista, 3).unwrap();
    let filtro = filtrar_por_aula(&lista, m.aula_id);
    assert!(filtro.iter().any(|x| x.id == 3));
}

#[test]
fn medicion_valida_completa_tiene_datos_de_confort() {
    let m = medicion(5, 2, Some(1));
    assert_eq!(validar_medicion(&m), Ok(()));
    assert!(smart_classroom::services::confort::comprobar_datos_confort(&m).is_ok());
}
