//! Decisiones de las rutas HTTP: datos de prueba, búsqueda por id,
//! validación de las solicitudes y el código de estado de cada respuesta.
//! La capa HTTP (extracción de parámetros, JSON, reloj) queda fuera.

pub mod alertas;
pub mod aulas;
pub mod mediciones;
pub mod sensores;

use vstd::prelude::*;

verus! {

/// 200 OK.
pub const OK: u16 = 200;

/// 201 Created.
pub const CREADO: u16 = 201;

/// 400 Bad Request.
pub const SOLICITUD_INVALIDA: u16 = 400;

/// 404 Not Found.
pub const NO_ENCONTRADO: u16 = 404;

/// Recursos con un identificador numérico.
pub trait ConIdentificador {
    spec fn ident(&self) -> u32;

    fn identificador(&self) -> (r: u32)
        ensures
            r == self.ident(),
    ;
}

/// `i` es la primera posición de `s` cuyo elemento tiene el id dado.
pub open spec fn primera_posicion<T: ConIdentificador>(s: Seq<T>, id: u32, i: int) -> bool {
    &&& 0 <= i < s.len()
    &&& s[i].ident() == id
    &&& forall|j: int| 0 <= j < i ==> s[j].ident() != id
}

/// Posición del primer elemento con el id dado, como `Iterator::find`.
pub fn posicion<T: ConIdentificador>(v: &Vec<T>, id: u32) -> (r: Option<usize>)
    ensures
        match r {
            Some(i) => primera_posicion(v@, id, i as int),
            None => forall|j: int| 0 <= j < v@.len() ==> v@[j].ident() != id,
        },
{
    let n = v.len();
    let mut i: usize = 0;
    while i < n
        invariant
            n == v@.len(),
            i <= n,
            forall|j: int| 0 <= j < i ==> v@[j].ident() != id,
        decreases n - i,
    {
        if v[i].identificador() == id {
            return Some(i);
        }
        i = i + 1;
    }
    None
}

} // verus!
