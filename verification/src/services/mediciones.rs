//! Validación, búsqueda y filtrado de mediciones.

use vstd::prelude::*;
use crate::flotante::{es_finito, es_finito_f64, es_nan, es_nan_f64, menor, menor_f64};
use crate::services::alertas::{valor_de, Variable};
use crate::models::medicion::Medicion;

verus! {

/// Un valor opcional es aceptable si falta o si es finito.
pub open spec fn opcional_finito(v: Option<u64>) -> bool {
    match v {
        Some(b) => es_finito_f64(b),
        None => true,
    }
}

/// Primer error de validación de una medición, en el orden en que se
/// comprueban los campos; `None` si la medición es válida.
pub open spec fn error_de_medicion(m: Medicion) -> Option<Seq<char>> {
    if m.aula_id <= 0 {
        Some("El ID del aula debe ser válido"@)
    } else if m.sensor_id matches Some(s) && s <= 0 {
        Some("El ID del sensor debe ser válido"@)
    } else if !opcional_finito(m.temperatura) {
        Some("La temperatura debe ser un número válido"@)
    } else if !opcional_finito(m.humedad) {
        Some("La humedad debe ser un número válido"@)
    } else if !opcional_finito(m.iluminacion) {
        Some("La iluminación debe ser un número válido"@)
    } else if !opcional_finito(m.ruido) {
        Some("El ruido debe ser un número válido"@)
    } else if !opcional_finito(m.confort) {
        Some("El índice de confort debe ser un número válido"@)
    } else {
        None
    }
}

fn valor_finito(v: Option<u64>) -> (r: bool)
    ensures
        r == opcional_finito(v),
{
    match v {
        Some(b) => es_finito(b),
        None => true,
    }
}

/// Valida los datos de una medición antes de procesarlos: `Ok` exactamente
/// cuando `error_de_medicion` no encuentra error; si no, el mensaje del
/// primer campo inválido.
pub fn validar_medicion(medicion: &Medicion) -> (r: Result<(), String>)
    ensures
        match r {
            Ok(()) => error_de_medicion(*medicion) is None,
            Err(e) => error_de_medicion(*medicion) == Some(e@),
        },
{
    if medicion.aula_id <= 0 {
        return Err(String::from_str("El ID del aula debe ser válido"));
    }
    if let Some(sensor_id) = medicion.sensor_id {
        if sensor_id <= 0 {
            return Err(String::from_str("El ID del sensor debe ser válido"));
        }
    }
    if !valor_finito(medicion.temperatura) {
        return Err(String::from_str("La temperatura debe ser un número válido"));
    }
    if !valor_finito(medicion.humedad) {
        return Err(String::from_str("La humedad debe ser un número válido"));
    }
    if !valor_finito(medicion.iluminacion) {
        return Err(String::from_str("La iluminación debe ser un número válido"));
    }
    if !valor_finito(medicion.ruido) {
        return Err(String::from_str("El ruido debe ser un número válido"));
    }
    if !valor_finito(medicion.confort) {
        return Err(String::from_str("El índice de confort debe ser un número válido"));
    }
    Ok(())
}

/// `i` es la primera posición de `s` cuya medición tiene el id dado.
pub open spec fn primera_con_id(s: Seq<Medicion>, id: i32, i: int) -> bool {
    &&& 0 <= i < s.len()
    &&& s[i].id == id
    &&& forall|j: int| 0 <= j < i ==> s[j].id != id
}

/// Busca una medición por su identificador: devuelve una copia de la
/// primera que lo tiene, o `None` si ninguna lo tiene.
pub fn buscar_por_id(mediciones: &[Medicion], id: i32) -> (r: Option<Medicion>)
    ensures
        match r {
            Some(m) => exists|i: int| primera_con_id(mediciones@, id, i) && m == mediciones@[i],
            None => forall|i: int| 0 <= i < mediciones@.len() ==> mediciones@[i].id != id,
        },
{
    let n = mediciones.len();
    let mut i: usize = 0;
    while i < n
        invariant
            n == mediciones@.len(),
            i <= n,
            forall|j: int| 0 <= j < i ==> mediciones@[j].id != id,
        decreases n - i,
    {
        if mediciones[i].id == id {
            let m = mediciones[i].copiar();
            assert(primera_con_id(mediciones@, id, i as int));
            return Some(m);
        }
        i = i + 1;
    }
    None
}

/// Mediciones de un aula.
pub open spec fn de_aula(aula_id: i32) -> spec_fn(Medicion) -> bool {
    |m: Medicion| m.aula_id == aula_id
}

/// Mediciones de un sensor.
pub open spec fn de_sensor(sensor_id: i32) -> spec_fn(Medicion) -> bool {
    |m: Medicion| m.sensor_id == Some(sensor_id)
}

/// Obtiene, en el mismo orden, todas las mediciones de un aula.
pub fn filtrar_por_aula(mediciones: &[Medicion], aula_id: i32) -> (r: Vec<Medicion>)
    ensures
        r@ == mediciones@.filter(de_aula(aula_id)),
{
    let n = mediciones.len();
    let mut r: Vec<Medicion> = Vec::new();
    let mut i: usize = 0;
    while i < n
        invariant
            n == mediciones@.len(),
            i <= n,
            r@ == mediciones@.take(i as int).filter(de_aula(aula_id)),
        decreases n - i,
    {
        proof {
            reveal_with_fuel(Seq::<_>::filter, 1);
            assert(mediciones@.take(i + 1).drop_last() =~= mediciones@.take(i as int));
        }
        if mediciones[i].aula_id == aula_id {
            r.push(mediciones[i].copiar());
        }
        i = i + 1;
    }
    assert(mediciones@.take(n as int) =~= mediciones@);
    r
}

/// Obtiene, en el mismo orden, todas las mediciones de un sensor.
pub fn filtrar_por_sensor(mediciones: &[Medicion], sensor_id: i32) -> (r: Vec<Medicion>)
    ensures
        r@ == mediciones@.filter(de_sensor(sensor_id)),
{
    let n = mediciones.len();
    let mut r: Vec<Medicion> = Vec::new();
    let mut i: usize = 0;
    while i < n
        invariant
            n == mediciones@.len(),
            i <= n,
            r@ == mediciones@.take(i as int).filter(de_sensor(sensor_id)),
        decreases n - i,
    {
        proof {
            reveal_with_fuel(Seq::<_>::filter, 1);
            assert(mediciones@.take(i + 1).drop_last() =~= mediciones@.take(i as int));
        }
        if mediciones[i].sensor_id == Some(sensor_id) {
            r.push(mediciones[i].copiar());
        }
        i = i + 1;
    }
    assert(mediciones@.take(n as int) =~= mediciones@);
    r
}

/// Filtrar por aula conserva solo mediciones de esa aula, todas las de
/// esa aula y nunca más elementos que los de partida.
pub proof fn ley_filtro_por_aula(s: Seq<Medicion>, aula_id: i32)
    ensures
        s.filter(de_aula(aula_id)).len() <= s.len(),
        forall|k: int| 0 <= k < s.filter(de_aula(aula_id)).len()
            ==> (#[trigger] s.filter(de_aula(aula_id))[k]).aula_id == aula_id,
        forall|i: int| 0 <= i < s.len() && s[i].aula_id == aula_id
            ==> s.filter(de_aula(aula_id)).contains(#[trigger] s[i]),
{
    let p = de_aula(aula_id);
    s.lemma_filter_len(p);
    assert forall|k: int| 0 <= k < s.filter(p).len() implies (#[trigger] s.filter(p)[k]).aula_id == aula_id by {
        s.lemma_filter_pred(p, k);
    }
    assert forall|i: int| 0 <= i < s.len() && s[i].aula_id == aula_id implies s.filter(p).contains(#[trigger] s[i]) by {
        s.lemma_filter_contains(p, i);
    }
}

/// Filtrar por sensor conserva solo mediciones de ese sensor, todas las
/// de ese sensor y nunca más elementos que los de partida.
pub proof fn ley_filtro_por_sensor(s: Seq<Medicion>, sensor_id: i32)
    ensures
        s.filter(de_sensor(sensor_id)).len() <= s.len(),
        forall|k: int| 0 <= k < s.filter(de_sensor(sensor_id)).len()
            ==> (#[trigger] s.filter(de_sensor(sensor_id))[k]).sensor_id == Some(sensor_id),
        forall|i: int| 0 <= i < s.len() && s[i].sensor_id == Some(sensor_id)
            ==> s.filter(de_sensor(sensor_id)).contains(#[trigger] s[i]),
{
    let p = de_sensor(sensor_id);
    s.lemma_filter_len(p);
    assert forall|k: int| 0 <= k < s.filter(p).len() implies (#[trigger] s.filter(p)[k]).sensor_id == Some(sensor_id) by {
        s.lemma_filter_pred(p, k);
    }
    assert forall|i: int| 0 <= i < s.len() && s[i].sensor_id == Some(sensor_id) implies s.filter(p).contains(#[trigger] s[i]) by {
        s.lemma_filter_contains(p, i);
    }
}

/// Lo que encuentra `buscar_por_id` está también entre las mediciones que
/// devuelve el filtro por su aula.
pub proof fn ley_busqueda_y_filtro(s: Seq<Medicion>, id: i32, i: int)
    requires
        primera_con_id(s, id, i),
    ensures
        s.filter(de_aula(s[i].aula_id)).contains(s[i]),
{
    s.lemma_filter_contains(de_aula(s[i].aula_id), i);
}

/// `f64::max`: si uno es NaN, el otro; si no, el mayor. Ante dos valores
/// iguales (como `+0` y `-0`) std puede devolver cualquiera de los dos; aquí
/// se devuelve el primero.
pub open spec fn maximo_f64(a: u64, b: u64) -> u64 {
    if es_nan_f64(a) {
        b
    } else if es_nan_f64(b) {
        a
    } else if menor_f64(a, b) {
        b
    } else {
        a
    }
}

/// `f64::min`: si uno es NaN, el otro; si no, el menor (el primero si son
/// iguales).
pub open spec fn minimo_f64(a: u64, b: u64) -> u64 {
    if es_nan_f64(a) {
        b
    } else if es_nan_f64(b) {
        a
    } else if menor_f64(b, a) {
        b
    } else {
        a
    }
}

/// Reducción con `maximo_f64` de los valores presentes de una variable, en
/// orden; `None` si ninguna medición tiene valor.
pub open spec fn maximo_de(s: Seq<Medicion>, v: Variable) -> Option<u64>
    decreases s.len(),
{
    if s.len() == 0 {
        None
    } else {
        let previo = maximo_de(s.drop_last(), v);
        match valor_de(s.last(), v) {
            None => previo,
            Some(x) => match previo {
                None => Some(x),
                Some(p) => Some(maximo_f64(p, x)),
            },
        }
    }
}

/// Reducción con `minimo_f64` de los valores presentes de una variable.
pub open spec fn minimo_de(s: Seq<Medicion>, v: Variable) -> Option<u64>
    decreases s.len(),
{
    if s.len() == 0 {
        None
    } else {
        let previo = minimo_de(s.drop_last(), v);
        match valor_de(s.last(), v) {
            None => previo,
            Some(x) => match previo {
                None => Some(x),
                Some(p) => Some(minimo_f64(p, x)),
            },
        }
    }
}

fn valor(m: &Medicion, v: Variable) -> (r: Option<u64>)
    ensures
        r == valor_de(*m, v),
{
    match v {
        Variable::Temperatura => m.temperatura,
        Variable::Humedad => m.humedad,
        Variable::Iluminacion => m.iluminacion,
        Variable::Ruido => m.ruido,
    }
}

fn maximo(a: u64, b: u64) -> (r: u64)
    ensures
        r == maximo_f64(a, b),
{
    if es_nan(a) {
        b
    } else if es_nan(b) {
        a
    } else if menor(a, b) {
        b
    } else {
        a
    }
}

fn minimo(a: u64, b: u64) -> (r: u64)
    ensures
        r == minimo_f64(a, b),
{
    if es_nan(a) {
        b
    } else if es_nan(b) {
        a
    } else if menor(b, a) {
        b
    } else {
        a
    }
}

fn calcular_maximo(mediciones: &[Medicion], variable: Variable) -> (r: Option<u64>)
    ensures
        r == maximo_de(mediciones@, variable),
{
    let n = mediciones.len();
    let mut acc: Option<u64> = None;
    let mut i: usize = 0;
    while i < n
        invariant
            n == mediciones@.len(),
            i <= n,
            acc == maximo_de(mediciones@.take(i as int), variable),
        decreases n - i,
    {
        proof {
            assert(mediciones@.take(i + 1).drop_last() =~= mediciones@.take(i as int));
        }
        acc = match valor(&mediciones[i], variable) {
            None => acc,
            Some(x) => match acc {
                None => Some(x),
                Some(p) => Some(maximo(p, x)),
            },
        };
        i = i + 1;
    }
    assert(mediciones@.take(n as int) =~= mediciones@);
    acc
}

fn calcular_minimo(mediciones: &[Medicion], variable: Variable) -> (r: Option<u64>)
    ensures
        r == minimo_de(mediciones@, variable),
{
    let n = mediciones.len();
    let mut acc: Option<u64> = None;
    let mut i: usize = 0;
    while i < n
        invariant
            n == mediciones@.len(),
            i <= n,
            acc == minimo_de(mediciones@.take(i as int), variable),
        decreases n - i,
    {
        proof {
            assert(mediciones@.take(i + 1).drop_last() =~= mediciones@.take(i as int));
        }
        acc = match valor(&mediciones[i], variable) {
            None => acc,
            Some(x) => match acc {
                None => Some(x),
                Some(p) => Some(minimo(p, x)),
            },
        };
        i = i + 1;
    }
    assert(mediciones@.take(n as int) =~= mediciones@);
    acc
}

/// Temperatura máxima registrada (bits de `f64`), como
/// `reduce(f64::max)` sobre las temperaturas presentes.
pub fn calcular_maximo_temperatura(mediciones: &[Medicion]) -> (r: Option<u64>)
    ensures
        r == maximo_de(mediciones@, Variable::Temperatura),
{
    calcular_maximo(mediciones, Variable::Temperatura)
}

/// Humedad máxima registrada.
pub fn calcular_maximo_humedad(mediciones: &[Medicion]) -> (r: Option<u64>)
    ensures
        r == maximo_de(mediciones@, Variable::Humedad),
{
    calcular_maximo(mediciones, Variable::Humedad)
}

/// Iluminación máxima registrada.
pub fn calcular_maximo_iluminacion(mediciones: &[Medicion]) -> (r: Option<u64>)
    ensures
        r == maximo_de(mediciones@, Variable::Iluminacion),
{
    calcular_maximo(mediciones, Variable::Iluminacion)
}

/// Ruido máximo registrado.
pub fn calcular_maximo_ruido(mediciones: &[Medicion]) -> (r: Option<u64>)
    ensures
        r == maximo_de(mediciones@, Variable::Ruido),
{
    calcular_maximo(mediciones, Variable::Ruido)
}

/// Temperatura mínima registrada (bits de `f64`), como
/// `reduce(f64::min)` sobre las temperaturas presentes.
pub fn calcular_minimo_temperatura(mediciones: &[Medicion]) -> (r: Option<u64>)
    ensures
        r == minimo_de(mediciones@, Variable::Temperatura),
{
    calcular_minimo(mediciones, Variable::Temperatura)
}

/// Humedad mínima registrada.
pub fn calcular_minimo_humedad(mediciones: &[Medicion]) -> (r: Option<u64>)
    ensures
        r == minimo_de(mediciones@, Variable::Humedad),
{
    calcular_minimo(mediciones, Variable::Humedad)
}

/// Iluminación mínima registrada.
pub fn calcular_minimo_iluminacion(mediciones: &[Medicion]) -> (r: Option<u64>)
    ensures
        r == minimo_de(mediciones@, Variable::Iluminacion),
{
    calcular_minimo(mediciones, Variable::Iluminacion)
}

/// Ruido mínimo registrado.
pub fn calcular_minimo_ruido(mediciones: &[Medicion]) -> (r: Option<u64>)
    ensures
        r == minimo_de(mediciones@, Variable::Ruido),
{
    calcular_minimo(mediciones, Variable::Ruido)
}

/// El máximo existe exactamente cuando alguna medición tiene valor, es uno
/// de esos valores, no es NaN si alguno no lo es, y ningún valor que no
/// sea NaN lo supera.
pub proof fn ley_maximo(s: Seq<Medicion>, v: Variable)
    ensures
        maximo_de(s, v) is Some <==> exists|i: int| 0 <= i < s.len() && (#[trigger] valor_de(s[i], v)) is Some,
        maximo_de(s, v) is Some ==> exists|i: int| 0 <= i < s.len() && #[trigger] valor_de(s[i], v) == maximo_de(s, v),
        maximo_de(s, v) is Some ==> forall|i: int| 0 <= i < s.len()
            && (#[trigger] valor_de(s[i], v)) is Some && !es_nan_f64(valor_de(s[i], v)->Some_0)
            ==> !es_nan_f64(maximo_de(s, v)->Some_0) && !menor_f64(maximo_de(s, v)->Some_0, valor_de(s[i], v)->Some_0),
    decreases s.len(),
{
    if s.len() > 0 {
        let t = s.drop_last();
        let ultimo = valor_de(s.last(), v);
        ley_maximo(t, v);
        assert(s[s.len() - 1] == s.last());
        assert forall|i: int| 0 <= i < t.len() implies #[trigger] valor_de(t[i], v) == valor_de(s[i], v) by {
            assert(t[i] == s[i]);
        }
        if exists|i: int| 0 <= i < s.len() && (#[trigger] valor_de(s[i], v)) is Some {
            let i = choose|i: int| 0 <= i < s.len() && (#[trigger] valor_de(s[i], v)) is Some;
            if i < t.len() {
                assert(valor_de(t[i], v) is Some);
            }
        }
        if maximo_de(s, v) is Some {
            if ultimo is Some {
                assert(valor_de(s[s.len() - 1], v) == ultimo);
            }
            if maximo_de(t, v) is Some {
                let i = choose|i: int| 0 <= i < t.len() && #[trigger] valor_de(t[i], v) == maximo_de(t, v);
                assert(valor_de(s[i], v) == maximo_de(t, v));
            }
            let x = maximo_de(s, v)->Some_0;
            assert forall|i: int| 0 <= i < s.len()
                && (#[trigger] valor_de(s[i], v)) is Some && !es_nan_f64(valor_de(s[i], v)->Some_0)
                implies !es_nan_f64(x) && { let y = valor_de(s[i], v)->Some_0; !menor_f64(x, y) } by {
                if i < t.len() {
                    assert(valor_de(t[i], v) == valor_de(s[i], v));
                }
            }
        }
    }
}

/// El mínimo existe exactamente cuando alguna medición tiene valor, es uno
/// de esos valores, no es NaN si alguno no lo es, y no supera a ningún
/// valor que no sea NaN.
pub proof fn ley_minimo(s: Seq<Medicion>, v: Variable)
    ensures
        minimo_de(s, v) is Some <==> exists|i: int| 0 <= i < s.len() && (#[trigger] valor_de(s[i], v)) is Some,
        minimo_de(s, v) is Some ==> exists|i: int| 0 <= i < s.len() && #[trigger] valor_de(s[i], v) == minimo_de(s, v),
        minimo_de(s, v) is Some ==> forall|i: int| 0 <= i < s.len()
            && (#[trigger] valor_de(s[i], v)) is Some && !es_nan_f64(valor_de(s[i], v)->Some_0)
            ==> !es_nan_f64(minimo_de(s, v)->Some_0) && !menor_f64(valor_de(s[i], v)->Some_0, minimo_de(s, v)->Some_0),
    decreases s.len(),
{
    if s.len() > 0 {
        let t = s.drop_last();
        let ultimo = valor_de(s.last(), v);
        ley_minimo(t, v);
        assert(s[s.len() - 1] == s.last());
        assert forall|i: int| 0 <= i < t.len() implies #[trigger] valor_de(t[i], v) == valor_de(s[i], v) by {
            assert(t[i] == s[i]);
        }
        if exists|i: int| 0 <= i < s.len() && (#[trigger] valor_de(s[i], v)) is Some {
            let i = choose|i: int| 0 <= i < s.len() && (#[trigger] valor_de(s[i], v)) is Some;
            if i < t.len() {
                assert(valor_de(t[i], v) is Some);
            }
        }
        if minimo_de(s, v) is Some {
            if ultimo is Some {
                assert(valor_de(s[s.len() - 1], v) == ultimo);
            }
            if minimo_de(t, v) is Some {
                let i = choose|i: int| 0 <= i < t.len() && #[trigger] valor_de(t[i], v) == minimo_de(t, v);
                assert(valor_de(s[i], v) == minimo_de(t, v));
            }
            let x = minimo_de(s, v)->Some_0;
            assert forall|i: int| 0 <= i < s.len()
                && (#[trigger] valor_de(s[i], v)) is Some && !es_nan_f64(valor_de(s[i], v)->Some_0)
                implies !es_nan_f64(x) && { let y = valor_de(s[i], v)->Some_0; !menor_f64(y, x) } by {
                if i < t.len() {
                    assert(valor_de(t[i], v) == valor_de(s[i], v));
                }
            }
        }
    }
}

/// Una medición es válida exactamente cuando su aula es positiva, su
/// sensor (si lo tiene) es positivo y cada magnitud presente es finita; el
/// error del aula aparece exactamente con un aula no positiva, sea cual sea
/// el resto, y cualquier aula positiva (de cualquier tamaño) lo evita.
pub proof fn ley_validacion(m: Medicion)
    ensures
        error_de_medicion(m) is None <==> {
            &&& m.aula_id > 0
            &&& (m.sensor_id is None || m.sensor_id->Some_0 > 0)
            &&& (m.temperatura is None || es_finito_f64(m.temperatura->Some_0))
            &&& (m.humedad is None || es_finito_f64(m.humedad->Some_0))
            &&& (m.iluminacion is None || es_finito_f64(m.iluminacion->Some_0))
            &&& (m.ruido is None || es_finito_f64(m.ruido->Some_0))
            &&& (m.confort is None || es_finito_f64(m.confort->Some_0))
        },
        error_de_medicion(m) == Some("El ID del aula debe ser válido"@) <==> m.aula_id <= 0,
        m.aula_id > 0 && m.sensor_id is Some && m.sensor_id->Some_0 <= 0
            ==> error_de_medicion(m) == Some("El ID del sensor debe ser válido"@),
{
    reveal_strlit("El ID del aula debe ser válido");
    reveal_strlit("El ID del sensor debe ser válido");
    reveal_strlit("La temperatura debe ser un número válido");
    reveal_strlit("La humedad debe ser un número válido");
    reveal_strlit("La iluminación debe ser un número válido");
    reveal_strlit("El ruido debe ser un número válido");
    reveal_strlit("El índice de confort debe ser un número válido");
    assert("El ID del aula debe ser válido"@.len() == 30);
    assert("El ID del sensor debe ser válido"@.len() == 32);
    assert("La temperatura debe ser un número válido"@.len() == 40);
    assert("La humedad debe ser un número válido"@.len() == 36);
    assert("La iluminación debe ser un número válido"@.len() == 40);
    assert("El ruido debe ser un número válido"@.len() == 34);
    assert("El índice de confort debe ser un número válido"@.len() == 46);
}

} // verus!
