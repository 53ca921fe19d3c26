//! Rutas de mediciones: `/mediciones` y `/mediciones/:id`.
//!
//! El valor de cada medición es el patrón de bits de un `f32`.

use vstd::prelude::*;
use crate::flotante::{es_finito_32, es_finito_f32};
use crate::routes::{posicion, ConIdentificador, OK, CREADO, SOLICITUD_INVALIDA, NO_ENCONTRADO};
use crate::schemas::fecha::Fecha;
use crate::schemas::medicion::{Medicion, MensajeRespuesta, NuevaMedicion, TipoMedicion};
use crate::texto::{con_numero, texto_decimal};

verus! {

impl ConIdentificador for Medicion {
    open spec fn ident(&self) -> u32 {
        self.id
    }

    fn identificador(&self) -> (r: u32) {
        self.id
    }
}

/// Bits del `f32` 23.5.
pub const VALOR_23_5: u32 = 0x41bc_0000;

/// Bits del `f32` 55.0.
pub const VALOR_55: u32 = 0x425c_0000;

/// Bits del `f32` 800.0.
pub const VALOR_800: u32 = 0x4448_0000;

/// Las mediciones de prueba sin su fecha, que es la lectura del reloj que
/// recibe cada una:
/// (id, aula, sensor, tipo, bits del valor).
pub open spec fn mediciones_de_prueba() -> Seq<(u32, u32, u32, TipoMedicion, u32)> {
    seq![
        (1u32, 101u32, 1u32, TipoMedicion::Temperatura, VALOR_23_5),
        (2u32, 101u32, 2u32, TipoMedicion::Humedad, VALOR_55),
        (3u32, 102u32, 3u32, TipoMedicion::Co2, VALOR_800),
    ]
}

/// Vista de una medición sin su fecha.
pub open spec fn sin_fecha(m: Medicion) -> (u32, u32, u32, TipoMedicion, u32) {
    (m.id, m.aula_id, m.sensor_id, m.tipo, m.valor)
}

/// Una lista es la de las mediciones de prueba, la `i`-ésima con la fecha
/// `fechas[i]`.
pub open spec fn son_mediciones_de_prueba(s: Seq<Medicion>, fechas: Seq<Fecha>) -> bool {
    &&& s.len() == mediciones_de_prueba().len()
    &&& forall|i: int| 0 <= i < s.len() ==> #[trigger] sin_fecha(s[i]) == mediciones_de_prueba()[i]
    &&& forall|i: int| 0 <= i < s.len() ==> #[trigger] s[i].fecha == fechas[i]
}

/// Hay una medición de prueba con ese id.
pub open spec fn existe_medicion(id: u32) -> bool {
    exists|i: int| 0 <= i < mediciones_de_prueba().len() && mediciones_de_prueba()[i].0 == id
}

/// Mensaje de medición inexistente.
pub open spec fn medicion_no_encontrada(id: u32) -> Seq<char> {
    "No se encontro una medicion con id "@ + texto_decimal(id as nat)
}

/// Mediciones de prueba; la `i`-ésima lleva la lectura del reloj `fechas[i]`.
pub fn mock_mediciones(fechas: [Fecha; 3]) -> (r: Vec<Medicion>)
    ensures
        son_mediciones_de_prueba(r@, fechas@),
{
    let mut r: Vec<Medicion> = Vec::new();
    r.push(Medicion { id: 1, aula_id: 101, sensor_id: 1, tipo: TipoMedicion::Temperatura, valor: VALOR_23_5, fecha: fechas[0] });
    r.push(Medicion { id: 2, aula_id: 101, sensor_id: 2, tipo: TipoMedicion::Humedad, valor: VALOR_55, fecha: fechas[1] });
    r.push(Medicion { id: 3, aula_id: 102, sensor_id: 3, tipo: TipoMedicion::Co2, valor: VALOR_800, fecha: fechas[2] });
    r
}

/// GET /mediciones: todas las mediciones, con 200.
pub fn listar_mediciones(fechas: [Fecha; 3]) -> (r: (u16, Vec<Medicion>))
    ensures
        r.0 == OK,
        son_mediciones_de_prueba(r.1@, fechas@),
{
    (OK, mock_mediciones(fechas))
}

/// GET /mediciones/:id: la medición y 200, o 404 con
/// "No se encontro una medicion con id {id}".
pub fn obtener_medicion(id: u32, fechas: [Fecha; 3]) -> (r: (u16, Result<Medicion, MensajeRespuesta>))
    ensures
        match r.1 {
            Ok(m) => r.0 == OK && existe_medicion(id) && m.id == id && exists|i: int|
                0 <= i < mediciones_de_prueba().len() && #[trigger] mediciones_de_prueba()[i] == sin_fecha(m)
                    && m.fecha == fechas@[i],
            Err(e) => r.0 == NO_ENCONTRADO && !existe_medicion(id) && e.mensaje@ == medicion_no_encontrada(id),
        },
{
    let mediciones = mock_mediciones(fechas);
    match posicion(&mediciones, id) {
        Some(i) => {
            let m = mediciones[i];
            assert(mediciones_de_prueba()[i as int] == sin_fecha(m));
            assert(m.fecha == fechas@[i as int]);
            (OK, Ok(m))
        },
        None => {
            assert forall|i: int| 0 <= i < mediciones_de_prueba().len() implies
                mediciones_de_prueba()[i].0 != id by {
                assert(sin_fecha(mediciones@[i]) == mediciones_de_prueba()[i]);
            }
            (NO_ENCONTRADO, Err(MensajeRespuesta { mensaje: con_numero("No se encontro una medicion con id ", id) }))
        },
    }
}

/// POST /mediciones: 400 si el valor no es finito; si no, crea la
/// medición con id 99 y la lectura del reloj `ahora`, y responde 201.
pub fn crear_medicion(payload: NuevaMedicion, ahora: Fecha) -> (r: (u16, Result<Medicion, MensajeRespuesta>))
    ensures
        match r.1 {
            Ok(m) => r.0 == CREADO && es_finito_f32(payload.valor) && m.fecha == ahora
                && sin_fecha(m) == (99u32, payload.aula_id, payload.sensor_id, payload.tipo, payload.valor),
            Err(e) => r.0 == SOLICITUD_INVALIDA && !es_finito_f32(payload.valor)
                && e.mensaje@ == "El campo 'valor' debe ser un numero valido"@,
        },
{
    if !es_finito_32(payload.valor) {
        return (SOLICITUD_INVALIDA, Err(MensajeRespuesta {
            mensaje: String::from_str("El campo 'valor' debe ser un numero valido"),
        }));
    }
    (CREADO, Ok(Medicion {
        id: 99,
        aula_id: payload.aula_id,
        sensor_id: payload.sensor_id,
        tipo: payload.tipo,
        valor: payload.valor,
        fecha: ahora,
    }))
}

/// Las mediciones de prueba tienen los ids 1, 2 y 3, sin repetición, y
/// valores finitos.
pub proof fn ley_mediciones_de_prueba(id: u32)
    ensures
        existe_medicion(id) <==> 1 <= id <= 3,
        forall|i: int, j: int|
            0 <= i < j < mediciones_de_prueba().len() ==> mediciones_de_prueba()[i].0 != mediciones_de_prueba()[j].0,
        forall|i: int| 0 <= i < mediciones_de_prueba().len() ==> es_finito_f32(#[trigger] mediciones_de_prueba()[i].4),
{
    if 1 <= id <= 3 {
        assert(mediciones_de_prueba()[id - 1].0 == id);
    }
    assert(es_finito_f32(VALOR_23_5)) by (bit_vector);
    assert(es_finito_f32(VALOR_55)) by (bit_vector);
    assert(es_finito_f32(VALOR_800)) by (bit_vector);
}

} // verus!
