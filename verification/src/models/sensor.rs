//! Sensor asociado a un aula.

use vstd::prelude::*;

verus! {

/// Sensor de un aula: qué mide, con qué unidad y si está activo.
#[derive(Debug, Clone)]
pub struct Sensor {
    /// Identificador único del sensor.
    pub id: i32,
    /// Aula a la que pertenece.
    pub aula_id: i32,
    /// Variable medida (temperatura, humedad, iluminación, ruido…).
    pub tipo: String,
    /// Nombre descriptivo.
    pub nombre: String,
    /// Unidad de medida (°C, %, lux, dB…).
    pub unidad: String,
    /// Sensor activo.
    pub activo: bool,
}

} // verus!
