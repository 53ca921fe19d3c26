//! Esquemas de las aulas.

use vstd::prelude::*;

verus! {

/// Datos recibidos para crear o actualizar un aula.
#[derive(Debug)]
pub struct NuevaAula {
    pub nombre: String,
    pub ubicacion: String,
    pub capacidad: u32,
}

/// Aula devuelta por la API.
#[derive(Debug, Clone)]
pub struct Aula {
    pub id: u32,
    pub nombre: String,
    pub ubicacion: String,
    pub capacidad: u32,
}

/// Mensaje de respuesta de las rutas de aulas.
#[derive(Debug)]
pub struct RespuestaAula {
    pub mensaje: String,
}

impl View for NuevaAula {
    type V = (Seq<char>, Seq<char>, u32);

    open spec fn view(&self) -> Self::V {
        (self.nombre@, self.ubicacion@, self.capacidad)
    }
}

impl View for Aula {
    type V = (u32, Seq<char>, Seq<char>, u32);

    open spec fn view(&self) -> Self::V {
        (self.id, self.nombre@, self.ubicacion@, self.capacidad)
    }
}

} // verus!
