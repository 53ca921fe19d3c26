//! Esquemas de los sensores.

use vstd::prelude::*;

verus! {

/// Variable que mide un sensor.
#[derive(Debug, Clone, Copy, PartialEq, Eq, Structural)]
pub enum TipoSensor {
    Temperatura,
    Humedad,
    Co2,
    Ruido,
    Luminosidad,
}

/// Datos recibidos para registrar un sensor.
#[derive(Debug)]
pub struct NuevoSensor {
    pub nombre: String,
    pub tipo: TipoSensor,
    pub aula_id: u32,
}

/// Sensor devuelto por la API.
#[derive(Debug, Clone)]
pub struct Sensor {
    pub id: u32,
    pub nombre: String,
    pub tipo: TipoSensor,
    pub aula_id: u32,
    pub activo: bool,
}

/// Mensaje de respuesta de las rutas de sensores.
#[derive(Debug)]
pub struct RespuestaSensor {
    pub mensaje: String,
}

impl View for NuevoSensor {
    type V = (Seq<char>, TipoSensor, u32);

    open spec fn view(&self) -> Self::V {
        (self.nombre@, self.tipo, self.aula_id)
    }
}

impl View for Sensor {
    type V = (u32, Seq<char>, TipoSensor, u32, bool);

    open spec fn view(&self) -> Self::V {
        (self.id, self.nombre@, self.tipo, self.aula_id, self.activo)
    }
}

} // verus!
