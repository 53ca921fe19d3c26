//! Error central de la API: a cada variante le corresponde un código HTTP
//! y un mensaje, y todas se responden con la misma forma `ErrorResponse`.

use vstd::prelude::*;
use crate::texto::concatenar;

verus! {

/// Cuerpo JSON de toda respuesta de error.
#[derive(Debug)]
pub struct ErrorResponse {
    pub status: u16,
    pub message: String,
}

/// Error de cualquier capa de la aplicación.
#[derive(Debug)]
pub enum ApiError {
    NotFound(String),
    BadRequest(String),
    Internal(String),
    WebSocket(String),
}

/// Resultado con error de la API.
pub type ApiResult<T> = Result<T, ApiError>;

/// Código HTTP de cada variante: 404, 400, 500 y 500.
pub open spec fn codigo_de(e: ApiError) -> u16 {
    match e {
        ApiError::NotFound(_) => 404,
        ApiError::BadRequest(_) => 400,
        ApiError::Internal(_) => 500,
        ApiError::WebSocket(_) => 500,
    }
}

/// Mensaje de cada variante: un prefijo fijo seguido del detalle.
pub open spec fn texto_de(e: ApiError) -> Seq<char> {
    match e {
        ApiError::NotFound(s) => "Recurso no encontrado: "@ + s@,
        ApiError::BadRequest(s) => "Solicitud inválida: "@ + s@,
        ApiError::Internal(s) => "Error interno del servidor: "@ + s@,
        ApiError::WebSocket(s) => "Error de WebSocket: "@ + s@,
    }
}

impl ApiError {
    /// Código de estado HTTP del error.
    pub fn codigo_estado(&self) -> (r: u16)
        ensures
            r == codigo_de(*self),
    {
        match self {
            ApiError::NotFound(_) => 404,
            ApiError::BadRequest(_) => 400,
            ApiError::Internal(_) => 500,
            ApiError::WebSocket(_) => 500,
        }
    }

    /// Texto del error, como lo muestra su `Display`.
    pub fn mensaje(&self) -> (r: String)
        ensures
            r@ == texto_de(*self),
    {
        match self {
            ApiError::NotFound(s) => concatenar("Recurso no encontrado: ", s.as_str()),
            ApiError::BadRequest(s) => concatenar("Solicitud inválida: ", s.as_str()),
            ApiError::Internal(s) => concatenar("Error interno del servidor: ", s.as_str()),
            ApiError::WebSocket(s) => concatenar("Error de WebSocket: ", s.as_str()),
        }
    }

    /// Respuesta de error: el código de la variante y su mensaje.
    pub fn into_response(self) -> (r: ErrorResponse)
        ensures
            r.status == codigo_de(self),
            r.message@ == texto_de(self),
    {
        let status = self.codigo_estado();
        let message = self.mensaje();
        ErrorResponse { status, message }
    }
}

/// Solo `NotFound` responde 404 y solo `BadRequest` responde 400; los
/// errores internos y de WebSocket responden 500.
pub proof fn ley_codigos(e: ApiError)
    ensures
        codigo_de(e) == 404 <==> e is NotFound,
        codigo_de(e) == 400 <==> e is BadRequest,
        codigo_de(e) == 500 <==> (e is Internal || e is WebSocket),
{
}

} // verus!
