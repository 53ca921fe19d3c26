//! Esquemas de las alertas.

use vstd::prelude::*;
use crate::schemas::fecha::Fecha;

verus! {

/// Prioridad de una alerta.
#[derive(Debug, Clone, Copy, PartialEq, Eq, Structural)]
pub enum NivelAlerta {
    Baja,
    Media,
    Alta,
}

/// Datos recibidos para registrar una alerta.
#[derive(Debug)]
pub struct NuevaAlerta {
    pub sensor_id: u32,
    pub aula_id: u32,
    pub mensaje: String,
    pub nivel: NivelAlerta,
}

/// Alerta devuelta por la API.
#[derive(Debug, Clone)]
pub struct Alerta {
    pub id: u32,
    pub sensor_id: u32,
    pub aula_id: u32,
    pub mensaje: String,
    pub nivel: NivelAlerta,
    pub atendida: bool,
    pub fecha: Fecha,
}

/// Mensaje de respuesta de las rutas de alertas.
#[derive(Debug)]
pub struct RespuestaAlerta {
    pub mensaje: String,
}

impl View for NuevaAlerta {
    type V = (u32, u32, Seq<char>, NivelAlerta);

    open spec fn view(&self) -> Self::V {
        (self.sensor_id, self.aula_id, self.mensaje@, self.nivel)
    }
}

impl View for Alerta {
    type V = (u32, u32, u32, Seq<char>, NivelAlerta, bool, Fecha);

    open spec fn view(&self) -> Self::V {
        (self.id, self.sensor_id, self.aula_id, self.mensaje@, self.nivel, self.atendida, self.fecha)
    }
}

} // verus!
