//! Núcleo verificado del backend SMART CLASSROOM: modelos de datos,
//! esquemas de la API, reglas de validación, búsqueda y filtrado de
//! mediciones, detección de alertas y las decisiones de cada ruta HTTP.

pub mod flotante;
pub mod texto;
pub mod models;
pub mod schemas;
pub mod services;
pub mod routes;
pub mod errors;
pub mod servicio;
pub mod websocket;
pub mod config;
