use smart_classroom::routes::alertas::{
    crear_alerta, eliminar_alerta, listar_alertas, mock_alertas, obtener_alerta,
};
use smart_classroom::routes::aulas::{
    actualizar_aula, crear_aula, eliminar_aula, listar_aulas, mock_aulas, obtener_aula,
};
use smart_classroom::routes::mediciones::{
    crear_medicion, listar_mediciones, mock_mediciones, obtener_medicion,
};
use smart_classroom::routes::sensores::{
    crear_sensor, eliminar_sensor, listar_sensores, mock_sensores, obtener_sensor,
};
use smart_classroom::schemas::alerta::{NivelAlerta, NuevaAlerta};
use smart_classroom::schemas::aula::NuevaAula;
use smart_classroom::schemas::fecha::Fecha;
use smart_classroom::schemas::medicion::{NuevaMedicion, TipoMedicion};
use smart_classroom::schemas::sensor::{NuevoSensor, TipoSensor};

const FECHAS: [Fecha; 3] = [
    Fecha { segundos: 1_700_000_000, nanos: 1 },
    Fecha { segundos: 1_700_000_001, nanos: 2 },
    Fecha { segundos: 1_700_000_002, nanos: 3 },
];
const AHORA: Fecha = Fecha { segundos: 1_750_000_000, nanos: 999 };

fn nueva_aula(nombre: &str, capacidad: u32) -> NuevaAula {
    NuevaAula { nombre: nombre.to_string(), ubicacion: "Edificio C".to_string(), capacidad }
}

#[test]
fn mock_aulas_tiene_las_tres_aulas() {
    let v = mock_aulas();
    assert_eq!(v.len(), 3);
    assert_eq!((v[0].id, v[0].nombre.as_str(), v[0].ubicacion.as_str(), v[0].capacidad), (1, "Aula 101", "Edificio A, Piso 1", 30));
    assert_eq!((v[1].id, v[1].nombre.as_str(), v[1].ubicacion.as_str(), v[1].capacidad), (2, "Aula 102", "Edificio A, Piso 1", 25));
    assert_eq!(
        (v[2].id, v[2].nombre.as_str(), v[2].ubicacion.as_str(), v[2].capacidad),
        (3, "Laboratorio de Ciencias", "Edificio B, Piso 2", 20)
    );
    let (codigo, lista) = listar_aulas();
    assert_eq!(codigo, 200);
    assert_eq!(lista.len(), 3);
}

#[test]
fn obtener_aula_existente_e_inexistente() {
    let (codigo, r) = obtener_aula(2);
    assert_eq!(codigo, 200);
    assert_eq!(r.unwrap().nombre, "Aula 102");
    let (codigo, r) = obtener_aula(42);
    assert_eq!(codigo, 404);
    assert_eq!(r.unwrap_err().mensaje, "No se encontro un aula con id 42");
    let (codigo, r) = obtener_aula(0);
    assert_eq!(codigo, 404);
    assert_eq!(r.unwrap_err().mensaje, "No se encontro un aula con id 0");
}

#[test]
fn crear_aula_valida_nombre_y_capacidad() {
    let (codigo, r) = crear_aula(nueva_aula(" \t\n", 10));
    assert_eq!(codigo, 400);
    assert_eq!(r.unwrap_err().mensaje, "El campo 'nombre' no puede estar vacio");
    let (codigo, r) = crear_aula(nueva_aula("", 0));
    assert_eq!(codigo, 400);
    assert_eq!(r.unwrap_err().mensaje, "El campo 'nombre' no puede estar vacio");
    let (codigo, r) = crear_aula(nueva_aula("\u{3000}\u{a0}", 10));
    assert_eq!(codigo, 400);
    assert_eq!(r.unwrap_err().mensaje, "El campo 'nombre' no puede estar vacio");
    let (codigo, r) = crear_aula(nueva_aula("Aula 7", 0));
    assert_eq!(codigo, 400);
    assert_eq!(r.unwrap_err().mensaje, "El campo 'capacidad' debe ser mayor a 0");
    let (codigo, r) = crear_aula(nueva_aula("  Aula 7 ", 40));
    assert_eq!(codigo, 201);
    let a = r.unwrap();
    assert_eq!((a.id, a.nombre.as_str(), a.ubicacion.as_str(), a.capacidad), (99, "  Aula 7 ", "Edificio C", 40));
    // U+200B no es un espacio Unicode: el nombre no está en blanco.
    let (codigo, _) = crear_aula(nueva_aula("\u{200b}", 1));
    assert_eq!(codigo, 201);
}

#[test]
fn actualizar_aula_conserva_el_id_sin_validar() {
    let (codigo, r) = actualizar_aula(3, nueva_aula("", 0));
    assert_eq!(codigo, 200);
    let a = r.unwrap();
    assert_eq!((a.id, a.nombre.as_str(), a.capacidad), (3, "", 0));
    let (codigo, r) = actualizar_aula(4, nueva_aula("Aula", 5));
    assert_eq!(codigo, 404);
    assert_eq!(r.unwrap_err().mensaje, "No se encontro un aula con id 4");
}

#[test]
fn eliminar_aula_mensajes() {
    let (codigo, r) = eliminar_aula(1);
    assert_eq!(codigo, 200);
    assert_eq!(r.mensaje, "Aula con id 1 eliminada correctamente");
    let (codigo, r) = eliminar_aula(4294967295);
    assert_eq!(codigo, 404);
    assert_eq!(r.mensaje, "No se encontro un aula con id 4294967295");
}

#[test]
fn rutas_de_sensores() {
    let v = mock_sensores();
    assert_eq!(v.len(), 3);
    assert_eq!((v[0].id, v[0].nombre.as_str(), v[0].tipo.clone(), v[0].aula_id, v[0].activo), (1, "Sensor Temperatura Aula 101", TipoSensor::Temperatura, 101, true));
    assert_eq!((v[1].id, v[1].nombre.as_str(), v[1].tipo.clone(), v[1].aula_id, v[1].activo), (2, "Sensor Humedad Aula 101", TipoSensor::Humedad, 101, true));
    assert_eq!((v[2].id, v[2].nombre.as_str(), v[2].tipo.clone(), v[2].aula_id, v[2].activo), (3, "Sensor Co2 Laboratorio", TipoSensor::Co2, 102, false));
    assert_eq!(listar_sensores().0, 200);
    let (codigo, r) = obtener_sensor(3);
    assert_eq!(codigo, 200);
    assert!(!r.unwrap().activo);
    let (codigo, r) = obtener_sensor(9);
    assert_eq!(codigo, 404);
    assert_eq!(r.unwrap_err().mensaje, "No se encontro un sensor con id 9");
    let (codigo, r) = crear_sensor(NuevoSensor { nombre: "  ".to_string(), tipo: TipoSensor::Ruido, aula_id: 1 });
    assert_eq!(codigo, 400);
    assert_eq!(r.unwrap_err().mensaje, "El campo 'nombre' no puede estar vacio");
    let (codigo, r) = crear_sensor(NuevoSensor { nombre: "Ruido".to_string(), tipo: TipoSensor::Ruido, aula_id: 5 });
    assert_eq!(codigo, 201);
    let s = r.unwrap();
    assert_eq!((s.id, s.tipo, s.aula_id, s.activo), (99, TipoSensor::Ruido, 5, true));
    let (codigo, r) = eliminar_sensor(2);
    assert_eq!(codigo, 200);
    assert_eq!(r.mensaje, "Sensor con id 2 eliminado correctamente");
    let (codigo, r) = eliminar_sensor(12);
    assert_eq!(codigo, 404);
    assert_eq!(r.mensaje, "No se encontro un sensor con id 12");
}

#[test]
fn rutas_de_alertas() {
    let v = mock_alertas(FECHAS);
    assert_eq!(v.len(), 3);
    assert_eq!((v[0].id, v[0].sensor_id, v[0].aula_id, v[0].mensaje.as_str(), v[0].nivel, v[0].atendida), (1, 1, 101, "Temperatura por encima del limite", NivelAlerta::Alta, false));
    assert_eq!((v[1].id, v[1].sensor_id, v[1].aula_id, v[1].mensaje.as_str(), v[1].nivel, v[1].atendida), (2, 3, 102, "Nivel de CO2 elevado", NivelAlerta::Media, false));
    assert_eq!((v[2].id, v[2].sensor_id, v[2].aula_id, v[2].mensaje.as_str(), v[2].nivel, v[2].atendida), (3, 2, 101, "Humedad fuera de rango normal", NivelAlerta::Baja, true));
    assert_eq!([v[0].fecha, v[1].fecha, v[2].fecha], FECHAS);
    assert_eq!(listar_alertas(FECHAS).0, 200);
    let (codigo, r) = obtener_alerta(2, FECHAS);
    assert_eq!(codigo, 200);
    let a = r.unwrap();
    assert_eq!((a.nivel, a.fecha), (NivelAlerta::Media, FECHAS[1]));
    let (codigo, r) = obtener_alerta(10, FECHAS);
    assert_eq!(codigo, 404);
    assert_eq!(r.unwrap_err().mensaje, "No se encontro una alerta con id 10");
    let nueva = |m: &str| NuevaAlerta { sensor_id: 4, aula_id: 8, mensaje: m.to_string(), nivel: NivelAlerta::Baja };
    let (codigo, r) = crear_alerta(nueva("\r\n"), AHORA);
    assert_eq!(codigo, 400);
    assert_eq!(r.unwrap_err().mensaje, "El campo 'mensaje' no puede estar vacio");
    let (codigo, r) = crear_alerta(nueva("Puerta abierta"), AHORA);
    assert_eq!(codigo, 201);
    let a = r.unwrap();
    assert_eq!((a.id, a.sensor_id, a.aula_id, a.mensaje.as_str(), a.nivel, a.atendida), (99, 4, 8, "Puerta abierta", NivelAlerta::Baja, false));
    assert_eq!(a.fecha, AHORA);
    let (codigo, r) = eliminar_alerta(3, FECHAS);
    assert_eq!(codigo, 200);
    assert_eq!(r.mensaje, "Alerta con id 3 eliminada correctamente");
    let (codigo, r) = eliminar_alerta(100, FECHAS);
    assert_eq!(codigo, 404);
    assert_eq!(r.mensaje, "No se encontro una alerta con id 100");
}

#[test]
fn rutas_de_mediciones() {
    let v = mock_mediciones(FECHAS);
    assert_eq!(v.len(), 3);
    assert_eq!(f32::from_bits(v[0].valor), 23.5);
    assert_eq!(f32::from_bits(v[1].valor), 55.0);
    assert_eq!(f32::from_bits(v[2].valor), 800.0);
    assert_eq!((v[0].id, v[0].aula_id, v[0].sensor_id, v[0].tipo), (1, 101, 1, TipoMedicion::Temperatura));
    assert_eq!((v[1].id, v[1].aula_id, v[1].sensor_id, v[1].tipo), (2, 101, 2, TipoMedicion::Humedad));
    assert_eq!((v[2].id, v[2].aula_id, v[2].sensor_id, v[2].tipo), (3, 102, 3, TipoMedicion::Co2));
    assert_eq!(listar_mediciones(FECHAS).0, 200);
    let (codigo, r) = obtener_medicion(2, FECHAS);
    assert_eq!(codigo, 200);
    let m = r.unwrap();
    assert_eq!((m.id, m.aula_id, m.sensor_id, m.tipo, m.valor), (v[1].id, v[1].aula_id, v[1].sensor_id, v[1].tipo, v[1].valor));
    assert_eq!(m.fecha, FECHAS[1]);
    assert_eq!([v[0].fecha, v[1].fecha, v[2].fecha], FECHAS);
    let (codigo, r) = obtener_medicion(77, FECHAS);
    assert_eq!(codigo, 404);
    assert_eq!(r.unwrap_err().mensaje, "No se encontro una medicion con id 77");
    let nueva = |x: f32| NuevaMedicion { aula_id: 5, sensor_id: 6, tipo: TipoMedicion::Ruido, valor: x.to_bits() };
    for malo in [f32::NAN, f32::INFINITY, f32::NEG_INFINITY] {
        let (codigo, r) = crear_medicion(nueva(malo), AHORA);
        assert_eq!(codigo, 400);
        assert_eq!(r.unwrap_err().mensaje, "El campo 'valor' debe ser un numero valido");
    }
    let (codigo, r) = crear_medicion(nueva(-12.25), AHORA);
    assert_eq!(codigo, 201);
    let m = r.unwrap();
    assert_eq!((m.id, m.aula_id, m.sensor_id, m.tipo, f32::from_bits(m.valor)), (99, 5, 6, TipoMedicion::Ruido, -12.25));
    assert_eq!(m.fecha, AHORA);
}

#[test]
fn nombre_en_blanco_coincide_con_trim_para_todo_caracter() {
    for c in (0u32..=0x10ffff).filter_map(char::from_u32) {
        let nombre = format!("{c}{c}");
        let esperado = if nombre.trim().is_empty() { 400 } else { 201 };
        let (codigo, _) = crear_sensor(NuevoSensor { nombre, tipo: TipoSensor::Co2, aula_id: 1 });
        assert_eq!(codigo, esperado, "caracter U+{:04X}", c as u32);
    }
}
