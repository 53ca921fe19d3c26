//! Respuestas generales del servicio: información, salud y ruta inexistente.

use vstd::prelude::*;

verus! {

/// Nombre del servicio.
pub const NOMBRE_SERVICIO: &'static str = "smart-classroom-backend";

/// 503 Service Unavailable.
pub const SERVICIO_NO_DISPONIBLE: u16 = 503;

/// Cuerpo de `GET /`.
#[derive(Debug)]
pub struct InfoServicio {
    pub servicio: String,
    pub version: String,
}

/// Cuerpo de `GET /api/salud`.
#[derive(Debug)]
pub struct EstadoSalud {
    pub estado: String,
    pub servicio: String,
    pub version: String,
    pub base_de_datos: String,
}

/// Cuerpo de una ruta inexistente.
#[derive(Debug)]
pub struct ErrorRuta {
    pub error: String,
}

/// GET /: nombre y versión del servicio.
pub fn inicio(version: &str) -> (r: InfoServicio)
    ensures
        r.servicio@ == NOMBRE_SERVICIO@,
        r.version@ == version@,
{
    InfoServicio { servicio: String::from_str(NOMBRE_SERVICIO), version: String::from_str(version) }
}

/// GET /api/salud: 200 con estado "ok" y base de datos "conectada" si la
/// base respondió; si no, 503 con "error" y "sin conexión".
pub fn salud(conectada: bool, version: &str) -> (r: (u16, EstadoSalud))
    ensures
        r.1.servicio@ == NOMBRE_SERVICIO@,
        r.1.version@ == version@,
        conectada ==> r.0 == 200 && r.1.estado@ == "ok"@ && r.1.base_de_datos@ == "conectada"@,
        !conectada ==> r.0 == SERVICIO_NO_DISPONIBLE && r.1.estado@ == "error"@
            && r.1.base_de_datos@ == "sin conexión"@,
{
    if conectada {
        (200, EstadoSalud {
            estado: String::from_str("ok"),
            servicio: String::from_str(NOMBRE_SERVICIO),
            version: String::from_str(version),
            base_de_datos: String::from_str("conectada"),
        })
    } else {
        (SERVICIO_NO_DISPONIBLE, EstadoSalud {
            estado: String::from_str("error"),
            servicio: String::from_str(NOMBRE_SERVICIO),
            version: String::from_str(version),
            base_de_datos: String::from_str("sin conexión"),
        })
    }
}

/// Ruta inexistente: 404 con "Recurso no encontrado".
pub fn no_encontrado() -> (r: (u16, ErrorRuta))
    ensures
        r.0 == 404,
        r.1.error@ == "Recurso no encontrado"@,
{
    (404, ErrorRuta { error: String::from_str("Recurso no encontrado") })
}

} // verus!
