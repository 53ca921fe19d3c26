//! Errores de la API y su forma de respuesta.

pub mod api_error;

pub use api_error::{ApiError, ApiResult, ErrorResponse};
