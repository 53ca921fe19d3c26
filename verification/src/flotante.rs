//! Números en coma flotante IEEE-754 representados por su patrón de bits.
//!
//! La biblioteca no manipula valores `f64`/`f32` directamente: cada valor
//! real se guarda como el entero que devuelve `to_bits`, y aquí se define
//! qué significa ser finito, ser NaN y compararse según la norma IEEE-754.

use vstd::prelude::*;

verus! {

/// Campo de exponente (11 bits) de un `f64`.
pub open spec fn exponente_f64(b: u64) -> u64 {
    (b >> 52u64) & 0x7ffu64
}

/// Campo de mantisa (52 bits) de un `f64`.
pub open spec fn mantisa_f64(b: u64) -> u64 {
    b & 0xf_ffff_ffff_ffffu64
}

/// Un `f64` es finito cuando su exponente no es el máximo (ni infinito ni NaN).
pub open spec fn es_finito_f64(b: u64) -> bool {
    exponente_f64(b) != 0x7ffu64
}

/// Un `f64` es NaN cuando su exponente es máximo y su mantisa no es nula.
pub open spec fn es_nan_f64(b: u64) -> bool {
    exponente_f64(b) == 0x7ffu64 && mantisa_f64(b) != 0
}

/// Valor absoluto del patrón de bits (sin el bit de signo).
pub open spec fn magnitud_f64(b: u64) -> u64 {
    b & 0x7fff_ffff_ffff_ffffu64
}

/// Bit de signo activo.
pub open spec fn negativo_f64(b: u64) -> bool {
    (b >> 63u64) == 1u64
}

/// Clave entera que ordena los `f64` que no son NaN igual que la norma:
/// positivos por magnitud, negativos por magnitud opuesta; `+0` y `-0`
/// tienen la misma clave.
pub open spec fn clave_f64(b: u64) -> int {
    if negativo_f64(b) {
        -(magnitud_f64(b) as int)
    } else {
        magnitud_f64(b) as int
    }
}

/// `a < b` según IEEE-754: falso si alguno es NaN.
pub open spec fn menor_f64(a: u64, b: u64) -> bool {
    !es_nan_f64(a) && !es_nan_f64(b) && clave_f64(a) < clave_f64(b)
}

/// `a >= b` según IEEE-754: falso si alguno es NaN.
pub open spec fn mayor_o_igual_f64(a: u64, b: u64) -> bool {
    !es_nan_f64(a) && !es_nan_f64(b) && clave_f64(a) >= clave_f64(b)
}

/// Campo de exponente (8 bits) de un `f32`.
pub open spec fn exponente_f32(b: u32) -> u32 {
    (b >> 23u32) & 0xffu32
}

/// Un `f32` es finito cuando su exponente no es el máximo.
pub open spec fn es_finito_f32(b: u32) -> bool {
    exponente_f32(b) != 0xffu32
}

/// Equivalente de `f64::is_finite` sobre el patrón de bits.
pub fn es_finito(b: u64) -> (r: bool)
    ensures
        r == es_finito_f64(b),
{
    (b >> 52u64) & 0x7ffu64 != 0x7ffu64
}

/// Equivalente de `f32::is_finite` sobre el patrón de bits.
pub fn es_finito_32(b: u32) -> (r: bool)
    ensures
        r == es_finito_f32(b),
{
    (b >> 23u32) & 0xffu32 != 0xffu32
}

/// Equivalente de `f64::is_nan` sobre el patrón de bits.
pub fn es_nan(b: u64) -> (r: bool)
    ensures
        r == es_nan_f64(b),
{
    (b >> 52u64) & 0x7ffu64 == 0x7ffu64 && b & 0xf_ffff_ffff_ffffu64 != 0
}

fn clave(b: u64) -> (r: i64)
    ensures
        r == clave_f64(b),
{
    let m: u64 = b & 0x7fff_ffff_ffff_ffffu64;
    assert(m <= 0x7fff_ffff_ffff_ffffu64) by (bit_vector)
        requires
            m == b & 0x7fff_ffff_ffff_ffffu64,
    ;
    let magnitud: i64 = m as i64;
    if b >> 63u64 == 1u64 {
        -magnitud
    } else {
        magnitud
    }
}

/// Comparación `a < b` de dos `f64` dados por sus bits.
pub fn menor(a: u64, b: u64) -> (r: bool)
    ensures
        r == menor_f64(a, b),
{
    if es_nan(a) || es_nan(b) {
        false
    } else {
        clave(a) < clave(b)
    }
}

/// Comparación `a >= b` de dos `f64` dados por sus bits.
pub fn mayor_o_igual(a: u64, b: u64) -> (r: bool)
    ensures
        r == mayor_o_igual_f64(a, b),
{
    if es_nan(a) || es_nan(b) {
        false
    } else {
        clave(a) >= clave(b)
    }
}

/// `menor_f64` es un orden estricto: irreflexivo, asimétrico y transitivo,
/// y NaN no es menor ni mayor que ningún valor.
pub proof fn ley_orden_estricto(a: u64, b: u64, c: u64)
    ensures
        !menor_f64(a, a),
        menor_f64(a, b) ==> !menor_f64(b, a),
        menor_f64(a, b) && menor_f64(b, c) ==> menor_f64(a, c),
        es_nan_f64(a) ==> !menor_f64(a, b) && !menor_f64(b, a),
{
}

/// Entre valores que no son NaN, `a >= b` es exactamente la negación de `a < b`.
pub proof fn ley_complemento(a: u64, b: u64)
    requires
        !es_nan_f64(a),
        !es_nan_f64(b),
    ensures
        mayor_o_igual_f64(a, b) <==> !menor_f64(a, b),
{
}

/// Un valor finito no es NaN.
pub proof fn ley_finito_no_nan(a: u64)
    ensures
        es_finito_f64(a) ==> !es_nan_f64(a),
{
}

} // verus!
