//! Instante en UTC, guardado como segundos y nanosegundos desde la época
//! Unix (la misma información que un `DateTime<Utc>` de chrono).

use vstd::prelude::*;

verus! {

/// Instante UTC: `segundos` desde 1970-01-01T00:00:00Z más `nanos`
/// nanosegundos (como `timestamp` y `timestamp_subsec_nanos` de chrono).
#[derive(Clone, Copy, Debug, PartialEq, Eq, Structural)]
pub struct Fecha {
    pub segundos: i64,
    pub nanos: u32,
}

} // verus!
