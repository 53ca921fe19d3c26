//! Alerta generada por condiciones ambientales.

use vstd::prelude::*;

verus! {

/// Alerta sobre una condición ambiental que requiere atención.
#[derive(Debug, Clone)]
pub struct Alerta {
    /// Identificador único de la alerta.
    pub id: i32,
    /// Aula donde se generó.
    pub aula_id: i32,
    /// Condición que la originó.
    pub tipo: String,
    /// Descripción.
    pub mensaje: String,
    /// Prioridad: baja, media, alta o crítica.
    pub nivel: String,
    /// Sigue activa.
    pub activa: bool,
    /// Fecha y hora de generación.
    pub fecha_hora: String,
}

} // verus!
