//! Esquemas de las mediciones.

use vstd::prelude::*;
use crate::schemas::fecha::Fecha;

verus! {

/// Variable ambiental medida.
#[derive(Debug, Clone, Copy, PartialEq, Eq, Structural)]
pub enum TipoMedicion {
    Temperatura,
    Humedad,
    Co2,
    Ruido,
    Luminosidad,
}

/// Datos recibidos para registrar una medición. `valor` es el patrón de
/// bits IEEE-754 del `f32` recibido (`f32::to_bits`).
#[derive(Debug, Clone, Copy, PartialEq, Eq, Structural)]
pub struct NuevaMedicion {
    pub aula_id: u32,
    pub sensor_id: u32,
    pub tipo: TipoMedicion,
    pub valor: u32,
}

/// Medición devuelta por la API. `valor` es el patrón de bits del `f32`.
#[derive(Debug, Clone, Copy, PartialEq, Eq, Structural)]
pub struct Medicion {
    pub id: u32,
    pub aula_id: u32,
    pub sensor_id: u32,
    pub tipo: TipoMedicion,
    pub valor: u32,
    pub fecha: Fecha,
}

/// Mensaje de respuesta de las rutas de mediciones.
#[derive(Debug)]
pub struct MensajeRespuesta {
    pub mensaje: String,
}

} // verus!
