//! Rutas de alertas: `/alertas` y `/alertas/:id`.

use vstd::prelude::*;
use crate::routes::{posicion, ConIdentificador, OK, CREADO, SOLICITUD_INVALIDA, NO_ENCONTRADO};
use crate::schemas::alerta::{Alerta, NivelAlerta, NuevaAlerta, RespuestaAlerta};
use crate::schemas::fecha::Fecha;
use crate::texto::{con_numero, con_numero_y_sufijo, en_blanco, esta_en_blanco, texto_decimal};

verus! {

impl ConIdentificador for Alerta {
    open spec fn ident(&self) -> u32 {
        self.id
    }

    fn identificador(&self) -> (r: u32) {
        self.id
    }
}

/// Las alertas de prueba sin su fecha, que es la lectura del reloj que
/// recibe cada una: (id, sensor, aula, mensaje, nivel, atendida).
pub open spec fn alertas_de_prueba() -> Seq<(u32, u32, u32, Seq<char>, NivelAlerta, bool)> {
    seq![
        (1u32, 1u32, 101u32, "Temperatura por encima del limite"@, NivelAlerta::Alta, false),
        (2u32, 3u32, 102u32, "Nivel de CO2 elevado"@, NivelAlerta::Media, false),
        (3u32, 2u32, 101u32, "Humedad fuera de rango normal"@, NivelAlerta::Baja, true),
    ]
}

/// Vista de una alerta sin su fecha.
pub open spec fn sin_fecha(a: Alerta) -> (u32, u32, u32, Seq<char>, NivelAlerta, bool) {
    (a.id, a.sensor_id, a.aula_id, a.mensaje@, a.nivel, a.atendida)
}

/// Una lista es la de las alertas de prueba, la `i`-ésima con la fecha
/// `fechas[i]`.
pub open spec fn son_alertas_de_prueba(s: Seq<Alerta>, fechas: Seq<Fecha>) -> bool {
    &&& s.len() == alertas_de_prueba().len()
    &&& forall|i: int| 0 <= i < s.len() ==> #[trigger] sin_fecha(s[i]) == alertas_de_prueba()[i]
    &&& forall|i: int| 0 <= i < s.len() ==> #[trigger] s[i].fecha == fechas[i]
}

/// Hay una alerta de prueba con ese id.
pub open spec fn existe_alerta(id: u32) -> bool {
    exists|i: int| 0 <= i < alertas_de_prueba().len() && alertas_de_prueba()[i].0 == id
}

/// Mensaje de alerta inexistente.
pub open spec fn alerta_no_encontrada(id: u32) -> Seq<char> {
    "No se encontro una alerta con id "@ + texto_decimal(id as nat)
}

fn alerta(id: u32, sensor_id: u32, aula_id: u32, mensaje: &str, nivel: NivelAlerta, atendida: bool, fecha: Fecha) -> (a: Alerta)
    ensures
        sin_fecha(a) == (id, sensor_id, aula_id, mensaje@, nivel, atendida),
        a.fecha == fecha,
{
    Alerta { id, sensor_id, aula_id, mensaje: String::from_str(mensaje), nivel, atendida, fecha }
}

/// Alertas de prueba; la `i`-ésima lleva la lectura del reloj `fechas[i]`.
pub fn mock_alertas(fechas: [Fecha; 3]) -> (r: Vec<Alerta>)
    ensures
        son_alertas_de_prueba(r@, fechas@),
{
    let mut r: Vec<Alerta> = Vec::new();
    r.push(alerta(1, 1, 101, "Temperatura por encima del limite", NivelAlerta::Alta, false, fechas[0]));
    r.push(alerta(2, 3, 102, "Nivel de CO2 elevado", NivelAlerta::Media, false, fechas[1]));
    r.push(alerta(3, 2, 101, "Humedad fuera de rango normal", NivelAlerta::Baja, true, fechas[2]));
    r
}

/// GET /alertas: todas las alertas, con 200.
pub fn listar_alertas(fechas: [Fecha; 3]) -> (r: (u16, Vec<Alerta>))
    ensures
        r.0 == OK,
        son_alertas_de_prueba(r.1@, fechas@),
{
    (OK, mock_alertas(fechas))
}

fn buscar_alerta(id: u32, fechas: [Fecha; 3]) -> (r: Option<Alerta>)
    ensures
        match r {
            Some(a) => a.id == id && exists|i: int|
                0 <= i < alertas_de_prueba().len() && #[trigger] alertas_de_prueba()[i] == sin_fecha(a)
                    && a.fecha == fechas@[i],
            None => !existe_alerta(id),
        },
{
    let mut alertas = mock_alertas(fechas);
    match posicion(&alertas, id) {
        Some(i) => {
            let a = alertas.remove(i);
            assert(alertas_de_prueba()[i as int] == sin_fecha(a));
            assert(a.fecha == fechas@[i as int]);
            Some(a)
        },
        None => {
            assert forall|i: int| 0 <= i < alertas_de_prueba().len() implies
                alertas_de_prueba()[i].0 != id by {
                assert(sin_fecha(alertas@[i]) == alertas_de_prueba()[i]);
            }
            None
        },
    }
}

/// GET /alertas/:id: la alerta y 200, o 404 con
/// "No se encontro una alerta con id {id}".
pub fn obtener_alerta(id: u32, fechas: [Fecha; 3]) -> (r: (u16, Result<Alerta, RespuestaAlerta>))
    ensures
        match r.1 {
            Ok(a) => r.0 == OK && existe_alerta(id) && a.id == id && exists|i: int|
                0 <= i < alertas_de_prueba().len() && #[trigger] alertas_de_prueba()[i] == sin_fecha(a)
                    && a.fecha == fechas@[i],
            Err(e) => r.0 == NO_ENCONTRADO && !existe_alerta(id) && e.mensaje@ == alerta_no_encontrada(id),
        },
{
    match buscar_alerta(id, fechas) {
        Some(a) => (OK, Ok(a)),
        None => (NO_ENCONTRADO, Err(RespuestaAlerta { mensaje: con_numero("No se encontro una alerta con id ", id) })),
    }
}

/// POST /alertas: 400 si el mensaje está en blanco; si no, crea la alerta
/// no atendida con id 99 y la lectura del reloj `ahora`, y responde 201.
pub fn crear_alerta(payload: NuevaAlerta, ahora: Fecha) -> (r: (u16, Result<Alerta, RespuestaAlerta>))
    ensures
        match r.1 {
            Ok(a) => r.0 == CREADO && !en_blanco(payload.mensaje@) && a.fecha == ahora
                && sin_fecha(a) == (99u32, payload.sensor_id, payload.aula_id, payload.mensaje@, payload.nivel, false),
            Err(e) => r.0 == SOLICITUD_INVALIDA && en_blanco(payload.mensaje@)
                && e.mensaje@ == "El campo 'mensaje' no puede estar vacio"@,
        },
{
    if esta_en_blanco(payload.mensaje.as_str()) {
        return (SOLICITUD_INVALIDA, Err(RespuestaAlerta {
            mensaje: String::from_str("El campo 'mensaje' no puede estar vacio"),
        }));
    }
    (CREADO, Ok(Alerta {
        id: 99,
        sensor_id: payload.sensor_id,
        aula_id: payload.aula_id,
        mensaje: payload.mensaje,
        nivel: payload.nivel,
        atendida: false,
        fecha: ahora,
    }))
}

/// DELETE /alertas/:id: 200 con "Alerta con id {id} eliminada
/// correctamente" si existe entre las alertas de prueba (creadas con las
/// lecturas del reloj `fechas`); si no, 404.
pub fn eliminar_alerta(id: u32, fechas: [Fecha; 3]) -> (r: (u16, RespuestaAlerta))
    ensures
        existe_alerta(id) ==> r.0 == OK && r.1.mensaje@
            == "Alerta con id "@ + texto_decimal(id as nat) + " eliminada correctamente"@,
        !existe_alerta(id) ==> r.0 == NO_ENCONTRADO && r.1.mensaje@ == alerta_no_encontrada(id),
{
    match buscar_alerta(id, fechas) {
        Some(_) => (OK, RespuestaAlerta {
            mensaje: con_numero_y_sufijo("Alerta con id ", id, " eliminada correctamente"),
        }),
        None => (NO_ENCONTRADO, RespuestaAlerta { mensaje: con_numero("No se encontro una alerta con id ", id) }),
    }
}

/// Las alertas de prueba tienen los ids 1, 2 y 3, sin repetición.
pub proof fn ley_alertas_de_prueba(id: u32)
    ensures
        existe_alerta(id) <==> 1 <= id <= 3,
        forall|i: int, j: int|
            0 <= i < j < alertas_de_prueba().len() ==> alertas_de_prueba()[i].0 != alertas_de_prueba()[j].0,
{
    if 1 <= id <= 3 {
        assert(alertas_de_prueba()[id - 1].0 == id);
    }
}

} // verus!
