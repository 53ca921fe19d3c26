//! Detección de valores fuera de rango y construcción de alertas.
//!
//! Los rangos y los valores medidos son `f64` dados por su patrón de bits
//! (ver `crate::flotante`). La comparación sigue IEEE-754: un NaN nunca
//! está por debajo ni por encima de un límite.

use vstd::prelude::*;
use crate::flotante::{menor, menor_f64};
use crate::models::alerta::Alerta;
use crate::models::medicion::Medicion;

verus! {

/// Lado del rango por el que se sale un valor.
#[derive(Debug, Clone, Copy, PartialEq, Eq, Structural)]
pub enum Desviacion {
    PorDebajo,
    PorEncima,
}

/// Variable ambiental vigilada.
#[derive(Debug, Clone, Copy, PartialEq, Eq, Structural)]
pub enum Variable {
    Temperatura,
    Humedad,
    Iluminacion,
    Ruido,
}

/// Variable fuera de rango y hacia qué lado.
#[derive(Debug, Clone, Copy, PartialEq, Eq, Structural)]
pub struct Hallazgo {
    pub variable: Variable,
    pub desviacion: Desviacion,
}

/// Nombre del tipo de alerta que corresponde a cada variable.
pub open spec fn nombre_variable(v: Variable) -> Seq<char> {
    match v {
        Variable::Temperatura => "temperatura"@,
        Variable::Humedad => "humedad"@,
        Variable::Iluminacion => "iluminacion"@,
        Variable::Ruido => "ruido"@,
    }
}

/// Nivel de las alertas generadas por valores fuera de rango.
pub open spec fn nivel_fuera_de_rango() -> Seq<char> {
    "media"@
}

impl Variable {
    /// Nombre del tipo de alerta ("temperatura", "humedad", "iluminacion", "ruido").
    pub fn tipo(&self) -> (r: &'static str)
        ensures
            r@ == nombre_variable(*self),
    {
        match self {
            Variable::Temperatura => "temperatura",
            Variable::Humedad => "humedad",
            Variable::Iluminacion => "iluminacion",
            Variable::Ruido => "ruido",
        }
    }
}

/// Valor de la medición para una variable.
pub open spec fn valor_de(m: Medicion, v: Variable) -> Option<u64> {
    match v {
        Variable::Temperatura => m.temperatura,
        Variable::Humedad => m.humedad,
        Variable::Iluminacion => m.iluminacion,
        Variable::Ruido => m.ruido,
    }
}

/// Desviación de un valor respecto del rango `[minimo, maximo]`: ninguna si
/// el valor falta o si el rango está invertido (`minimo > maximo`); por
/// debajo si `valor < minimo`; por encima si `valor > maximo`.
pub open spec fn desviacion_de(valor: Option<u64>, minimo: u64, maximo: u64) -> Option<Desviacion> {
    match valor {
        None => None,
        Some(v) => if menor_f64(maximo, minimo) {
            None
        } else if menor_f64(v, minimo) {
            Some(Desviacion::PorDebajo)
        } else if menor_f64(maximo, v) {
            Some(Desviacion::PorEncima)
        } else {
            None
        },
    }
}

/// Decide si un valor opcional está fuera del rango `[minimo, maximo]`.
pub fn verificar_rango(valor: Option<u64>, minimo: u64, maximo: u64) -> (r: Option<Desviacion>)
    ensures
        r == desviacion_de(valor, minimo, maximo),
{
    let v = match valor {
        Some(v) => v,
        None => return None,
    };
    if menor(maximo, minimo) {
        return None;
    }
    if menor(v, minimo) {
        Some(Desviacion::PorDebajo)
    } else if menor(maximo, v) {
        Some(Desviacion::PorEncima)
    } else {
        None
    }
}

/// Textos posibles de una alerta, según el lado por el que el valor sale
/// del rango. Los redacta quien llama, con los valores reales.
#[derive(Debug, Clone)]
pub struct Mensajes {
    pub por_debajo: String,
    pub por_encima: String,
}

/// Textos de las alertas de cada variable.
#[derive(Debug, Clone)]
pub struct MensajesAlerta {
    pub temperatura: Mensajes,
    pub humedad: Mensajes,
    pub iluminacion: Mensajes,
    pub ruido: Mensajes,
}

/// Texto que corresponde a un lado del rango.
pub open spec fn mensaje_para(ms: Mensajes, d: Desviacion) -> Seq<char> {
    match d {
        Desviacion::PorDebajo => ms.por_debajo@,
        Desviacion::PorEncima => ms.por_encima@,
    }
}

/// Textos de una variable.
pub open spec fn mensajes_de(ms: MensajesAlerta, v: Variable) -> Mensajes {
    match v {
        Variable::Temperatura => ms.temperatura,
        Variable::Humedad => ms.humedad,
        Variable::Iluminacion => ms.iluminacion,
        Variable::Ruido => ms.ruido,
    }
}

/// `a` es la alerta de una variable fuera de rango: id 0, el aula y la
/// fecha de la medición, el tipo de la variable, nivel "media", activa, y
/// el texto del lado por el que se sale.
pub open spec fn es_alerta_de(a: Alerta, m: Medicion, v: Variable, d: Desviacion, ms: Mensajes) -> bool {
    &&& a.id == 0
    &&& a.aula_id == m.aula_id
    &&& a.tipo@ == nombre_variable(v)
    &&& a.mensaje@ == mensaje_para(ms, d)
    &&& a.nivel@ == nivel_fuera_de_rango()
    &&& a.activa
    &&& a.fecha_hora == m.fecha_hora
}

/// Resultado de verificar una variable: sin alerta si no hay desviación;
/// si la hay, su alerta.
pub open spec fn alerta_esperada(r: Option<Alerta>, m: Medicion, v: Variable, d: Option<Desviacion>, ms: Mensajes) -> bool {
    match d {
        None => r is None,
        Some(d) => r matches Some(a) && es_alerta_de(a, m, v, d, ms),
    }
}

/// Verificación de una variable de la medición.
fn verificar(medicion: &Medicion, variable: Variable, valor: Option<u64>, minimo: u64, maximo: u64, mensajes: Mensajes) -> (r: Option<Alerta>)
    ensures
        alerta_esperada(r, *medicion, variable, desviacion_de(valor, minimo, maximo), mensajes),
{
    match verificar_rango(valor, minimo, maximo) {
        None => None,
        Some(Desviacion::PorDebajo) => Some(crear_alerta(medicion, variable.tipo(), mensajes.por_debajo, "media")),
        Some(Desviacion::PorEncima) => Some(crear_alerta(medicion, variable.tipo(), mensajes.por_encima, "media")),
    }
}

/// Verifica si la temperatura está fuera del rango permitido y, si lo
/// está, genera su alerta con el texto del lado correspondiente.
pub fn verificar_temperatura(medicion: &Medicion, minimo: u64, maximo: u64, mensajes: Mensajes) -> (r: Option<Alerta>)
    ensures
        alerta_esperada(r, *medicion, Variable::Temperatura, desviacion_de(medicion.temperatura, minimo, maximo), mensajes),
{
    verificar(medicion, Variable::Temperatura, medicion.temperatura, minimo, maximo, mensajes)
}

/// Verifica si la humedad está fuera del rango permitido y, si lo está,
/// genera su alerta con el texto del lado correspondiente.
pub fn verificar_humedad(medicion: &Medicion, minimo: u64, maximo: u64, mensajes: Mensajes) -> (r: Option<Alerta>)
    ensures
        alerta_esperada(r, *medicion, Variable::Humedad, desviacion_de(medicion.humedad, minimo, maximo), mensajes),
{
    verificar(medicion, Variable::Humedad, medicion.humedad, minimo, maximo, mensajes)
}

/// Verifica si la iluminación está fuera del rango permitido y, si lo
/// está, genera su alerta con el texto del lado correspondiente.
pub fn verificar_iluminacion(medicion: &Medicion, minimo: u64, maximo: u64, mensajes: Mensajes) -> (r: Option<Alerta>)
    ensures
        alerta_esperada(r, *medicion, Variable::Iluminacion, desviacion_de(medicion.iluminacion, minimo, maximo), mensajes),
{
    verificar(medicion, Variable::Iluminacion, medicion.iluminacion, minimo, maximo, mensajes)
}

/// Verifica si el ruido está fuera del rango permitido y, si lo está,
/// genera su alerta con el texto del lado correspondiente.
pub fn verificar_ruido(medicion: &Medicion, minimo: u64, maximo: u64, mensajes: Mensajes) -> (r: Option<Alerta>)
    ensures
        alerta_esperada(r, *medicion, Variable::Ruido, desviacion_de(medicion.ruido, minimo, maximo), mensajes),
{
    verificar(medicion, Variable::Ruido, medicion.ruido, minimo, maximo, mensajes)
}

/// Hallazgo de una variable, como secuencia de cero o un elementos.
pub open spec fn hallazgo_de(variable: Variable, d: Option<Desviacion>) -> Seq<Hallazgo> {
    match d {
        Some(desviacion) => seq![Hallazgo { variable, desviacion }],
        None => Seq::empty(),
    }
}

/// Hallazgos de una medición: temperatura, humedad, iluminación y ruido,
/// en ese orden, cada uno presente solo si su valor está fuera de rango.
pub open spec fn hallazgos_de(
    m: Medicion,
    rango_temperatura: (u64, u64),
    rango_humedad: (u64, u64),
    rango_iluminacion: (u64, u64),
    rango_ruido: (u64, u64),
) -> Seq<Hallazgo> {
    hallazgo_de(Variable::Temperatura, desviacion_de(m.temperatura, rango_temperatura.0, rango_temperatura.1))
        + hallazgo_de(Variable::Humedad, desviacion_de(m.humedad, rango_humedad.0, rango_humedad.1))
        + hallazgo_de(Variable::Iluminacion, desviacion_de(m.iluminacion, rango_iluminacion.0, rango_iluminacion.1))
        + hallazgo_de(Variable::Ruido, desviacion_de(m.ruido, rango_ruido.0, rango_ruido.1))
}

/// `s` son las alertas de los hallazgos `hs`, una por hallazgo y en su orden.
pub open spec fn alertas_de(s: Seq<Alerta>, hs: Seq<Hallazgo>, m: Medicion, ms: MensajesAlerta) -> bool {
    &&& s.len() == hs.len()
    &&& forall|k: int| 0 <= k < s.len() ==> es_alerta_de(
        #[trigger] s[k],
        m,
        hs[k].variable,
        hs[k].desviacion,
        mensajes_de(ms, hs[k].variable),
    )
}

fn agregar(
    alertas: &mut Vec<Alerta>,
    alerta: Option<Alerta>,
    Ghost(hs): Ghost<Seq<Hallazgo>>,
    Ghost(m): Ghost<Medicion>,
    Ghost(ms): Ghost<MensajesAlerta>,
    Ghost(v): Ghost<Variable>,
    Ghost(d): Ghost<Option<Desviacion>>,
)
    requires
        alertas_de(old(alertas)@, hs, m, ms),
        alerta_esperada(alerta, m, v, d, mensajes_de(ms, v)),
    ensures
        alertas_de(final(alertas)@, hs + hallazgo_de(v, d), m, ms),
{
    if let Some(a) = alerta {
        alertas.push(a);
    }
    proof {
        let nuevo = hs + hallazgo_de(v, d);
        assert forall|k: int| 0 <= k < final(alertas)@.len() implies es_alerta_de(
            #[trigger] final(alertas)@[k],
            m,
            nuevo[k].variable,
            nuevo[k].desviacion,
            mensajes_de(ms, nuevo[k].variable),
        ) by {
            if k < hs.len() {
                assert(final(alertas)@[k] == old(alertas)@[k]);
                assert(nuevo[k] == hs[k]);
            }
        }
    }
}

/// Todas las alertas de la medición, una por variable fuera de su rango, en
/// el orden temperatura, humedad, iluminación, ruido; cada una con el texto
/// de su variable y del lado por el que se sale.
pub fn generar_alertas(
    medicion: &Medicion,
    rango_temperatura: (u64, u64),
    rango_humedad: (u64, u64),
    rango_iluminacion: (u64, u64),
    rango_ruido: (u64, u64),
    mensajes: MensajesAlerta,
) -> (r: Vec<Alerta>)
    ensures
        alertas_de(
            r@,
            hallazgos_de(*medicion, rango_temperatura, rango_humedad, rango_iluminacion, rango_ruido),
            *medicion,
            mensajes,
        ),
{
    let ghost ms = mensajes;
    let ghost m = *medicion;
    let mut r: Vec<Alerta> = Vec::new();
    let ghost dt = desviacion_de(m.temperatura, rango_temperatura.0, rango_temperatura.1);
    let ghost dh = desviacion_de(m.humedad, rango_humedad.0, rango_humedad.1);
    let ghost di = desviacion_de(m.iluminacion, rango_iluminacion.0, rango_iluminacion.1);
    let ghost dr = desviacion_de(m.ruido, rango_ruido.0, rango_ruido.1);
    let ghost h0: Seq<Hallazgo> = Seq::empty();
    let MensajesAlerta { temperatura, humedad, iluminacion, ruido } = mensajes;
    let a = verificar_temperatura(medicion, rango_temperatura.0, rango_temperatura.1, temperatura);
    agregar(&mut r, a, Ghost(h0), Ghost(m), Ghost(ms), Ghost(Variable::Temperatura), Ghost(dt));
    let ghost h1 = h0 + hallazgo_de(Variable::Temperatura, dt);
    let a = verificar_humedad(medicion, rango_humedad.0, rango_humedad.1, humedad);
    agregar(&mut r, a, Ghost(h1), Ghost(m), Ghost(ms), Ghost(Variable::Humedad), Ghost(dh));
    let ghost h2 = h1 + hallazgo_de(Variable::Humedad, dh);
    let a = verificar_iluminacion(medicion, rango_iluminacion.0, rango_iluminacion.1, iluminacion);
    agregar(&mut r, a, Ghost(h2), Ghost(m), Ghost(ms), Ghost(Variable::Iluminacion), Ghost(di));
    let ghost h3 = h2 + hallazgo_de(Variable::Iluminacion, di);
    let a = verificar_ruido(medicion, rango_ruido.0, rango_ruido.1, ruido);
    agregar(&mut r, a, Ghost(h3), Ghost(m), Ghost(ms), Ghost(Variable::Ruido), Ghost(dr));
    assert(h3 + hallazgo_de(Variable::Ruido, dr)
        =~= hallazgos_de(m, rango_temperatura, rango_humedad, rango_iluminacion, rango_ruido));
    r
}

/// Crea una alerta con los datos de la medición: id 0, activa, con el aula
/// y la fecha de la medición.
pub fn crear_alerta(medicion: &Medicion, tipo: &str, mensaje: String, nivel: &str) -> (a: Alerta)
    ensures
        a.id == 0,
        a.aula_id == medicion.aula_id,
        a.tipo@ == tipo@,
        a.mensaje == mensaje,
        a.nivel@ == nivel@,
        a.activa,
        a.fecha_hora == medicion.fecha_hora,
{
    Alerta {
        id: 0,
        aula_id: medicion.aula_id,
        tipo: String::from_str(tipo),
        mensaje,
        nivel: String::from_str(nivel),
        activa: true,
        fecha_hora: medicion.fecha_hora.clone(),
    }
}

/// Un valor dentro del rango, o ausente, o con el rango invertido, no
/// produce hallazgo; uno por debajo y uno por encima se excluyen.
pub proof fn ley_rango(valor: Option<u64>, minimo: u64, maximo: u64)
    ensures
        valor is None ==> desviacion_de(valor, minimo, maximo) is None,
        menor_f64(maximo, minimo) ==> desviacion_de(valor, minimo, maximo) is None,
        valor matches Some(v) && !menor_f64(v, minimo) && !menor_f64(maximo, v)
            ==> desviacion_de(valor, minimo, maximo) is None,
        desviacion_de(valor, minimo, maximo) == Some(Desviacion::PorDebajo)
            ==> (valor matches Some(v) && menor_f64(v, minimo)),
        desviacion_de(valor, minimo, maximo) == Some(Desviacion::PorEncima)
            ==> (valor matches Some(v) && menor_f64(maximo, v)),
{
}

/// La desviación la deciden solo las comparaciones IEEE-754 con los
/// límites: con un valor presente y un rango no invertido, todo valor menor
/// que el mínimo (también 0, negativo o infinito) está por debajo, todo
/// valor mayor que el máximo está por encima, y un valor entre ambos (o NaN)
/// no produce desviación.
pub proof fn ley_rango_completa(v: u64, minimo: u64, maximo: u64)
    requires
        !menor_f64(maximo, minimo),
    ensures
        menor_f64(v, minimo) ==> desviacion_de(Some(v), minimo, maximo) == Some(Desviacion::PorDebajo),
        menor_f64(maximo, v) && !menor_f64(v, minimo)
            ==> desviacion_de(Some(v), minimo, maximo) == Some(Desviacion::PorEncima),
        !menor_f64(v, minimo) && !menor_f64(maximo, v) ==> desviacion_de(Some(v), minimo, maximo) is None,
{
}

/// Rango que corresponde a cada variable.
pub open spec fn rango_de(v: Variable, rt: (u64, u64), rh: (u64, u64), ri: (u64, u64), rr: (u64, u64)) -> (u64, u64) {
    match v {
        Variable::Temperatura => rt,
        Variable::Humedad => rh,
        Variable::Iluminacion => ri,
        Variable::Ruido => rr,
    }
}

/// Desviación de una variable de la medición respecto de su rango.
pub open spec fn desviacion_de_variable(
    m: Medicion,
    v: Variable,
    rt: (u64, u64),
    rh: (u64, u64),
    ri: (u64, u64),
    rr: (u64, u64),
) -> Option<Desviacion> {
    desviacion_de(valor_de(m, v), rango_de(v, rt, rh, ri, rr).0, rango_de(v, rt, rh, ri, rr).1)
}

/// `generar_alertas` informa exactamente de las variables fuera de rango:
/// a lo sumo una vez cada una, cada hallazgo con la desviación real de su
/// variable, y toda variable fuera de rango aparece.
pub proof fn ley_hallazgos(
    m: Medicion,
    rt: (u64, u64),
    rh: (u64, u64),
    ri: (u64, u64),
    rr: (u64, u64),
)
    ensures
        hallazgos_de(m, rt, rh, ri, rr).len() <= 4,
        forall|k: int| 0 <= k < hallazgos_de(m, rt, rh, ri, rr).len() ==> {
            let h = #[trigger] hallazgos_de(m, rt, rh, ri, rr)[k];
            desviacion_de_variable(m, h.variable, rt, rh, ri, rr) == Some(h.desviacion)
        },
        forall|k: int, j: int| 0 <= k < j < hallazgos_de(m, rt, rh, ri, rr).len()
            ==> hallazgos_de(m, rt, rh, ri, rr)[k].variable != hallazgos_de(m, rt, rh, ri, rr)[j].variable,
        forall|v: Variable| #[trigger] desviacion_de_variable(m, v, rt, rh, ri, rr) is Some
            ==> hallazgos_de(m, rt, rh, ri, rr).contains(Hallazgo {
                variable: v,
                desviacion: desviacion_de_variable(m, v, rt, rh, ri, rr)->Some_0,
            }),
{
    let s = hallazgos_de(m, rt, rh, ri, rr);
    let t = hallazgo_de(Variable::Temperatura, desviacion_de(m.temperatura, rt.0, rt.1));
    let h = hallazgo_de(Variable::Humedad, desviacion_de(m.humedad, rh.0, rh.1));
    let i = hallazgo_de(Variable::Iluminacion, desviacion_de(m.iluminacion, ri.0, ri.1));
    let r = hallazgo_de(Variable::Ruido, desviacion_de(m.ruido, rr.0, rr.1));
    assert(s == t + h + i + r);
    assert forall|v: Variable| #[trigger] desviacion_de_variable(m, v, rt, rh, ri, rr) is Some
        implies s.contains(Hallazgo { variable: v, desviacion: desviacion_de_variable(m, v, rt, rh, ri, rr)->Some_0 }) by {
        let d = desviacion_de_variable(m, v, rt, rh, ri, rr)->Some_0;
        let x = Hallazgo { variable: v, desviacion: d };
        match v {
            Variable::Temperatura => {
                assert(s[0] == x);
            },
            Variable::Humedad => {
                assert(s[t.len() as int] == x);
            },
            Variable::Iluminacion => {
                assert(s[(t.len() + h.len()) as int] == x);
            },
            Variable::Ruido => {
                assert(s[(t.len() + h.len() + i.len()) as int] == x);
            },
        }
    }
}

} // verus!
