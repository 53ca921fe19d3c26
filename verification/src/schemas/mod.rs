//! Esquemas de entrada y salida de la API HTTP.

pub mod alerta;
pub mod aula;
pub mod fecha;
pub mod medicion;
pub mod sensor;
