//! Aula monitoreada.

use vstd::prelude::*;

verus! {

/// Aula del sistema: identificación, ubicación, capacidad y si se
/// monitorea.
#[derive(Debug, Clone)]
pub struct Aula {
    /// Identificador único del aula.
    pub id: i32,
    /// Nombre o código del aula.
    pub nombre: String,
    /// Ubicación física.
    pub ubicacion: Option<String>,
    /// Capacidad máxima de estudiantes.
    pub capacidad: Option<i32>,
    /// Disponible para monitoreo.
    pub activa: bool,
}

} // verus!
