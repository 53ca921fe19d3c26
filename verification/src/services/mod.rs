//! Lógica de negocio: validación y consulta de mediciones, detección de
//! alertas y clasificación del confort.

pub mod alertas;
pub mod confort;
pub mod mediciones;
