//! Medición ambiental de un aula.

use vstd::prelude::*;

verus! {

/// Valores registrados por los sensores de un aula en un instante.
///
/// Las magnitudes reales se guardan como el patrón de bits IEEE-754 de
/// su `f64` (`f64::to_bits`); ver `crate::flotante`.
#[derive(Debug, Clone)]
pub struct Medicion {
    /// Identificador único de la medición.
    pub id: i32,
    /// Aula donde se realizó.
    pub aula_id: i32,
    /// Sensor que la generó.
    pub sensor_id: Option<i32>,
    /// Temperatura en °C (bits de `f64`).
    pub temperatura: Option<u64>,
    /// Humedad relativa en % (bits de `f64`).
    pub humedad: Option<u64>,
    /// Iluminación en lux (bits de `f64`).
    pub iluminacion: Option<u64>,
    /// Ruido en dB (bits de `f64`).
    pub ruido: Option<u64>,
    /// Índice de confort (bits de `f64`).
    pub confort: Option<u64>,
    /// Fecha y hora de registro.
    pub fecha_hora: String,
}

impl Medicion {
    /// Copia campo a campo; el resultado es igual a `self`.
    pub fn copiar(&self) -> (r: Medicion)
        ensures
            r == *self,
    {
        Medicion {
            id: self.id,
            aula_id: self.aula_id,
            sensor_id: self.sensor_id,
            temperatura: self.temperatura,
            humedad: self.humedad,
            iluminacion: self.iluminacion,
            ruido: self.ruido,
            confort: self.confort,
            fecha_hora: self.fecha_hora.clone(),
        }
    }
}

} // verus!
