//! Interpretación del índice general de confort.
//!
//! El índice es un `f64` en `[0, 1]` dado por su patrón de bits. Los
//! cálculos de los índices térmico, visual, acústico y general son
//! aritmética en coma flotante y no forman parte de esta biblioteca.

use vstd::prelude::*;
use crate::flotante::{es_finito, es_finito_f64, mayor_o_igual, mayor_o_igual_f64, clave_f64, es_nan_f64};
use crate::models::medicion::Medicion;
use crate::services::mediciones::error_de_medicion;

verus! {

/// Bits del `f64` 0.80, umbral de "Muy confortable".
pub const UMBRAL_MUY_CONFORTABLE: u64 = 0x3fe9_9999_9999_999a;

/// Bits del `f64` 0.60, umbral de "Confortable".
pub const UMBRAL_CONFORTABLE: u64 = 0x3fe3_3333_3333_3333;

/// Bits del `f64` 0.40, umbral de "Aceptable".
pub const UMBRAL_ACEPTABLE: u64 = 0x3fd9_9999_9999_999a;

/// Bits del `f64` 0.20, umbral de "Poco confortable".
pub const UMBRAL_POCO_CONFORTABLE: u64 = 0x3fc9_9999_9999_999a;

/// Datos del índice térmico: temperatura y humedad, o el primer error
/// (falta temperatura, falta humedad, temperatura no finita, humedad no
/// finita, en ese orden).
pub open spec fn datos_termicos(m: Medicion) -> Result<(u64, u64), Seq<char>> {
    match (m.temperatura, m.humedad) {
        (None, _) => Err("La temperatura es necesaria para calcular el confort térmico"@),
        (Some(_), None) => Err("La humedad es necesaria para calcular el confort térmico"@),
        (Some(t), Some(h)) => if !es_finito_f64(t) {
            Err("La temperatura debe ser un número válido"@)
        } else if !es_finito_f64(h) {
            Err("La humedad debe ser un número válido"@)
        } else {
            Ok((t, h))
        },
    }
}

/// Dato del índice visual: la iluminación, o el error si falta o no es finita.
pub open spec fn dato_visual(m: Medicion) -> Result<u64, Seq<char>> {
    match m.iluminacion {
        None => Err("La iluminación es necesaria para calcular el confort visual"@),
        Some(i) => if es_finito_f64(i) { Ok(i) } else { Err("La iluminación debe ser un número válido"@) },
    }
}

/// Dato del índice acústico: el ruido, o el error si falta o no es finito.
pub open spec fn dato_acustico(m: Medicion) -> Result<u64, Seq<char>> {
    match m.ruido {
        None => Err("El ruido es necesario para calcular el confort acústico"@),
        Some(r) => if es_finito_f64(r) { Ok(r) } else { Err("El ruido debe ser un número válido"@) },
    }
}

/// Resultado de una comprobación, con el mensaje de error como texto.
pub open spec fn como_texto<T>(r: Result<T, String>) -> Result<T, Seq<char>> {
    match r {
        Ok(v) => Ok(v),
        Err(e) => Err(e@),
    }
}

/// Comprueba los datos que necesita el índice de confort térmico y los
/// devuelve; el cálculo en coma flotante lo hace quien llama.
pub fn comprobar_datos_termicos(medicion: &Medicion) -> (r: Result<(u64, u64), String>)
    ensures
        como_texto(r) == datos_termicos(*medicion),
{
    let t = match medicion.temperatura {
        Some(t) => t,
        None => return Err(String::from_str("La temperatura es necesaria para calcular el confort térmico")),
    };
    let h = match medicion.humedad {
        Some(h) => h,
        None => return Err(String::from_str("La humedad es necesaria para calcular el confort térmico")),
    };
    if !es_finito(t) {
        return Err(String::from_str("La temperatura debe ser un número válido"));
    }
    if !es_finito(h) {
        return Err(String::from_str("La humedad debe ser un número válido"));
    }
    Ok((t, h))
}

/// Comprueba la iluminación que necesita el índice de confort visual.
pub fn comprobar_dato_visual(medicion: &Medicion) -> (r: Result<u64, String>)
    ensures
        como_texto(r) == dato_visual(*medicion),
{
    match medicion.iluminacion {
        None => Err(String::from_str("La iluminación es necesaria para calcular el confort visual")),
        Some(i) => if es_finito(i) {
            Ok(i)
        } else {
            Err(String::from_str("La iluminación debe ser un número válido"))
        },
    }
}

/// Comprueba el ruido que necesita el índice de confort acústico.
pub fn comprobar_dato_acustico(medicion: &Medicion) -> (r: Result<u64, String>)
    ensures
        como_texto(r) == dato_acustico(*medicion),
{
    match medicion.ruido {
        None => Err(String::from_str("El ruido es necesario para calcular el confort acústico")),
        Some(x) => if es_finito(x) {
            Ok(x)
        } else {
            Err(String::from_str("El ruido debe ser un número válido"))
        },
    }
}

/// Datos del índice general: los del térmico, el visual y el acústico,
/// o el primer error en ese orden.
pub open spec fn datos_confort(m: Medicion) -> Result<((u64, u64), u64, u64), Seq<char>> {
    match datos_termicos(m) {
        Err(e) => Err(e),
        Ok(t) => match dato_visual(m) {
            Err(e) => Err(e),
            Ok(v) => match dato_acustico(m) {
                Err(e) => Err(e),
                Ok(a) => Ok((t, v, a)),
            },
        },
    }
}

/// Comprueba todos los datos del índice general de confort.
pub fn comprobar_datos_confort(medicion: &Medicion) -> (r: Result<((u64, u64), u64, u64), String>)
    ensures
        como_texto(r) == datos_confort(*medicion),
{
    let t = match comprobar_datos_termicos(medicion) {
        Ok(t) => t,
        Err(e) => return Err(e),
    };
    let v = match comprobar_dato_visual(medicion) {
        Ok(v) => v,
        Err(e) => return Err(e),
    };
    let a = match comprobar_dato_acustico(medicion) {
        Ok(a) => a,
        Err(e) => return Err(e),
    };
    Ok((t, v, a))
}

/// Categoría del índice: 4 (muy confortable) a 0 (desfavorable), según el
/// primer umbral que el índice alcanza (`>=`); NaN cae en 0.
pub open spec fn categoria_confort(indice: u64) -> int {
    if mayor_o_igual_f64(indice, UMBRAL_MUY_CONFORTABLE) {
        4
    } else if mayor_o_igual_f64(indice, UMBRAL_CONFORTABLE) {
        3
    } else if mayor_o_igual_f64(indice, UMBRAL_ACEPTABLE) {
        2
    } else if mayor_o_igual_f64(indice, UMBRAL_POCO_CONFORTABLE) {
        1
    } else {
        0
    }
}

/// Nombre de cada categoría.
pub open spec fn nombre_categoria(c: int) -> Seq<char> {
    if c == 4 {
        "Muy confortable"@
    } else if c == 3 {
        "Confortable"@
    } else if c == 2 {
        "Aceptable"@
    } else if c == 1 {
        "Poco confortable"@
    } else {
        "Desfavorable"@
    }
}

/// Estado interpretativo del índice general de confort.
pub fn obtener_estado_confort(indice: u64) -> (r: &'static str)
    ensures
        r@ == nombre_categoria(categoria_confort(indice)),
{
    if mayor_o_igual(indice, UMBRAL_MUY_CONFORTABLE) {
        "Muy confortable"
    } else if mayor_o_igual(indice, UMBRAL_CONFORTABLE) {
        "Confortable"
    } else if mayor_o_igual(indice, UMBRAL_ACEPTABLE) {
        "Aceptable"
    } else if mayor_o_igual(indice, UMBRAL_POCO_CONFORTABLE) {
        "Poco confortable"
    } else {
        "Desfavorable"
    }
}

/// La categoría crece con el índice: si `a <= b` (ninguno NaN), la
/// categoría de `a` no supera la de `b`.
pub proof fn ley_monotonia(a: u64, b: u64)
    requires
        !es_nan_f64(a),
        !es_nan_f64(b),
        clave_f64(a) <= clave_f64(b),
    ensures
        categoria_confort(a) <= categoria_confort(b),
{
}

/// Las categorías tienen nombres distintos, de modo que el texto
/// determina la categoría.
pub proof fn ley_nombres_distintos(c: int, d: int)
    requires
        0 <= c <= 4,
        0 <= d <= 4,
        c != d,
    ensures
        nombre_categoria(c) != nombre_categoria(d),
{
    reveal_strlit("Muy confortable");
    reveal_strlit("Confortable");
    reveal_strlit("Aceptable");
    reveal_strlit("Poco confortable");
    reveal_strlit("Desfavorable");
    assert(nombre_categoria(4).len() == 15);
    assert(nombre_categoria(3).len() == 11);
    assert(nombre_categoria(2).len() == 9);
    assert(nombre_categoria(1).len() == 16);
    assert(nombre_categoria(0).len() == 12);
}

/// Una medición que supera `validar_medicion` y trae temperatura,
/// humedad, iluminación y ruido tiene todos los datos del índice de confort.
pub proof fn ley_validada_tiene_datos(m: Medicion)
    requires
        error_de_medicion(m) is None,
        m.temperatura is Some,
        m.humedad is Some,
        m.iluminacion is Some,
        m.ruido is Some,
    ensures
        datos_confort(m) is Ok,
{
}

/// Los datos comprobados son los de la propia medición, sin modificar: la
/// comprobación acepta exactamente los valores presentes y finitos, y
/// entonces devuelve esos mismos valores.
pub proof fn ley_datos_propios(m: Medicion)
    ensures
        dato_visual(m) is Ok <==> (m.iluminacion is Some && es_finito_f64(m.iluminacion->Some_0)),
        dato_visual(m) is Ok ==> dato_visual(m) == Ok::<u64, Seq<char>>(m.iluminacion->Some_0),
        dato_acustico(m) is Ok <==> (m.ruido is Some && es_finito_f64(m.ruido->Some_0)),
        dato_acustico(m) is Ok ==> dato_acustico(m) == Ok::<u64, Seq<char>>(m.ruido->Some_0),
        datos_termicos(m) is Ok <==> (m.temperatura is Some && es_finito_f64(m.temperatura->Some_0)
            && m.humedad is Some && es_finito_f64(m.humedad->Some_0)),
        datos_termicos(m) is Ok ==> datos_termicos(m)
            == Ok::<(u64, u64), Seq<char>>((m.temperatura->Some_0, m.humedad->Some_0)),
        datos_confort(m) is Ok <==> (datos_termicos(m) is Ok && dato_visual(m) is Ok && dato_acustico(m) is Ok),
        datos_confort(m) is Ok ==> datos_confort(m) == Ok::<((u64, u64), u64, u64), Seq<char>>(
            ((m.temperatura->Some_0, m.humedad->Some_0), m.iluminacion->Some_0, m.ruido->Some_0),
        ),
{
}

} // verus!
