//! Rutas de sensores: `/sensores` y `/sensores/:id`.

use vstd::prelude::*;
use crate::routes::{posicion, ConIdentificador, OK, CREADO, SOLICITUD_INVALIDA, NO_ENCONTRADO};
use crate::schemas::sensor::{NuevoSensor, RespuestaSensor, Sensor, TipoSensor};
use crate::texto::{con_numero, con_numero_y_sufijo, en_blanco, esta_en_blanco, texto_decimal};

verus! {

impl ConIdentificador for Sensor {
    open spec fn ident(&self) -> u32 {
        self.id
    }

    fn identificador(&self) -> (r: u32) {
        self.id
    }
}

/// Los sensores de prueba: (id, nombre, tipo, aula, activo).
pub open spec fn sensores_de_prueba() -> Seq<(u32, Seq<char>, TipoSensor, u32, bool)> {
    seq![
        (1u32, "Sensor Temperatura Aula 101"@, TipoSensor::Temperatura, 101u32, true),
        (2u32, "Sensor Humedad Aula 101"@, TipoSensor::Humedad, 101u32, true),
        (3u32, "Sensor Co2 Laboratorio"@, TipoSensor::Co2, 102u32, false),
    ]
}

/// Vista de una lista de sensores.
pub open spec fn vistas_sensores(s: Seq<Sensor>) -> Seq<(u32, Seq<char>, TipoSensor, u32, bool)> {
    s.map_values(|x: Sensor| x@)
}

/// Hay un sensor de prueba con ese id.
pub open spec fn existe_sensor(id: u32) -> bool {
    exists|i: int| 0 <= i < sensores_de_prueba().len() && sensores_de_prueba()[i].0 == id
}

/// Mensaje de sensor inexistente.
pub open spec fn sensor_no_encontrado(id: u32) -> Seq<char> {
    "No se encontro un sensor con id "@ + texto_decimal(id as nat)
}

fn sensor(id: u32, nombre: &str, tipo: TipoSensor, aula_id: u32, activo: bool) -> (s: Sensor)
    ensures
        s@ == (id, nombre@, tipo, aula_id, activo),
{
    Sensor { id, nombre: String::from_str(nombre), tipo, aula_id, activo }
}

/// Sensores de prueba.
pub fn mock_sensores() -> (r: Vec<Sensor>)
    ensures
        vistas_sensores(r@) == sensores_de_prueba(),
{
    let mut r: Vec<Sensor> = Vec::new();
    r.push(sensor(1, "Sensor Temperatura Aula 101", TipoSensor::Temperatura, 101, true));
    r.push(sensor(2, "Sensor Humedad Aula 101", TipoSensor::Humedad, 101, true));
    r.push(sensor(3, "Sensor Co2 Laboratorio", TipoSensor::Co2, 102, false));
    assert(vistas_sensores(r@) =~= sensores_de_prueba());
    r
}

/// GET /sensores: todos los sensores, con 200.
pub fn listar_sensores() -> (r: (u16, Vec<Sensor>))
    ensures
        r.0 == OK,
        vistas_sensores(r.1@) == sensores_de_prueba(),
{
    (OK, mock_sensores())
}

fn buscar_sensor(id: u32) -> (r: Option<Sensor>)
    ensures
        match r {
            Some(s) => s.id == id && exists|i: int|
                0 <= i < sensores_de_prueba().len() && #[trigger] sensores_de_prueba()[i] == s@,
            None => !existe_sensor(id),
        },
{
    let mut sensores = mock_sensores();
    proof {
        assert forall|i: int| 0 <= i < sensores@.len() implies
            #[trigger] sensores@[i]@ == sensores_de_prueba()[i] by {
            assert(vistas_sensores(sensores@)[i] == sensores@[i]@);
        }
    }
    match posicion(&sensores, id) {
        Some(i) => {
            let s = sensores.remove(i);
            assert(sensores_de_prueba()[i as int] == s@);
            Some(s)
        },
        None => {
            assert forall|i: int| 0 <= i < sensores_de_prueba().len() implies
                sensores_de_prueba()[i].0 != id by {
                assert(sensores@[i]@ == sensores_de_prueba()[i]);
            }
            None
        },
    }
}

/// GET /sensores/:id: el sensor y 200, o 404 con
/// "No se encontro un sensor con id {id}".
pub fn obtener_sensor(id: u32) -> (r: (u16, Result<Sensor, RespuestaSensor>))
    ensures
        match r.1 {
            Ok(s) => r.0 == OK && existe_sensor(id) && s.id == id && exists|i: int|
                0 <= i < sensores_de_prueba().len() && #[trigger] sensores_de_prueba()[i] == s@,
            Err(e) => r.0 == NO_ENCONTRADO && !existe_sensor(id) && e.mensaje@ == sensor_no_encontrado(id),
        },
{
    match buscar_sensor(id) {
        Some(s) => (OK, Ok(s)),
        None => (NO_ENCONTRADO, Err(RespuestaSensor { mensaje: con_numero("No se encontro un sensor con id ", id) })),
    }
}

/// POST /sensores: 400 si el nombre está en blanco; si no, crea el sensor
/// activo con id 99 y responde 201.
pub fn crear_sensor(payload: NuevoSensor) -> (r: (u16, Result<Sensor, RespuestaSensor>))
    ensures
        match r.1 {
            Ok(s) => r.0 == CREADO && !en_blanco(payload.nombre@)
                && s@ == (99u32, payload.nombre@, payload.tipo, payload.aula_id, true),
            Err(e) => r.0 == SOLICITUD_INVALIDA && en_blanco(payload.nombre@)
                && e.mensaje@ == "El campo 'nombre' no puede estar vacio"@,
        },
{
    if esta_en_blanco(payload.nombre.as_str()) {
        return (SOLICITUD_INVALIDA, Err(RespuestaSensor {
            mensaje: String::from_str("El campo 'nombre' no puede estar vacio"),
        }));
    }
    (CREADO, Ok(Sensor {
        id: 99,
        nombre: payload.nombre,
        tipo: payload.tipo,
        aula_id: payload.aula_id,
        activo: true,
    }))
}

/// DELETE /sensores/:id: 200 con "Sensor con id {id} eliminado
/// correctamente" si existe; si no, 404.
pub fn eliminar_sensor(id: u32) -> (r: (u16, RespuestaSensor))
    ensures
        existe_sensor(id) ==> r.0 == OK && r.1.mensaje@
            == "Sensor con id "@ + texto_decimal(id as nat) + " eliminado correctamente"@,
        !existe_sensor(id) ==> r.0 == NO_ENCONTRADO && r.1.mensaje@ == sensor_no_encontrado(id),
{
    match buscar_sensor(id) {
        Some(_) => (OK, RespuestaSensor {
            mensaje: con_numero_y_sufijo("Sensor con id ", id, " eliminado correctamente"),
        }),
        None => (NO_ENCONTRADO, RespuestaSensor { mensaje: con_numero("No se encontro un sensor con id ", id) }),
    }
}

/// Los sensores de prueba tienen los ids 1, 2 y 3, sin repetición.
pub proof fn ley_sensores_de_prueba(id: u32)
    ensures
        existe_sensor(id) <==> 1 <= id <= 3,
        forall|i: int, j: int|
            0 <= i < j < sensores_de_prueba().len() ==> sensores_de_prueba()[i].0 != sensores_de_prueba()[j].0,
{
    if 1 <= id <= 3 {
        assert(sensores_de_prueba()[id - 1].0 == id);
    }
}

} // verus!
