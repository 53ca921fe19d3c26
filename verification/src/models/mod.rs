//! Modelos de datos persistentes del sistema.

pub mod alerta;
pub mod aula;
pub mod medicion;
pub mod sensor;
