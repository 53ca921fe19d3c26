//! Configuración del servidor a partir de las variables de entorno, ya
//! leídas: valores por defecto y conversión de texto a número.

use vstd::prelude::*;
use crate::texto::concatenar;

verus! {

/// Host por defecto: todas las interfaces, para que los ESP32 de la red
/// puedan conectarse.
pub const HOST_POR_DEFECTO: &'static str = "0.0.0.0";

/// Puerto por defecto.
pub const PUERTO_POR_DEFECTO: &'static str = "3000";

/// Conexiones simultáneas a PostgreSQL por defecto.
pub const MAX_CONEXIONES_POR_DEFECTO: u32 = 10;

/// Valor decimal de una secuencia de dígitos ASCII.
pub open spec fn valor_digitos(d: Seq<char>) -> nat
    decreases d.len(),
{
    if d.len() == 0 {
        0
    } else {
        valor_digitos(d.drop_last()) * 10 + ((d.last() as u32) - 48) as nat
    }
}

/// Todos los caracteres son dígitos ASCII.
pub open spec fn solo_digitos(d: Seq<char>) -> bool {
    forall|i: int| 0 <= i < d.len() ==> '0' <= #[trigger] d[i] <= '9'
}

/// Lo que acepta `u32::from_str`: un `+` opcional seguido de al menos un
/// dígito decimal y nada más, con valor que quepa en 32 bits.
pub open spec fn entero_u32(s: Seq<char>) -> Option<u32> {
    let d = if s.len() > 0 && s[0] == '+' { s.drop_first() } else { s };
    if d.len() > 0 && solo_digitos(d) && valor_digitos(d) <= u32::MAX {
        Some(valor_digitos(d) as u32)
    } else {
        None
    }
}

/// Agregar dígitos al final no disminuye el valor.
proof fn lema_valor_creciente(d: Seq<char>, k: int)
    requires
        solo_digitos(d),
        0 <= k <= d.len(),
    ensures
        valor_digitos(d.take(k)) <= valor_digitos(d),
    decreases d.len(),
{
    if k < d.len() {
        let t = d.drop_last();
        assert forall|i: int| 0 <= i < t.len() implies '0' <= #[trigger] t[i] <= '9' by {
            assert(t[i] == d[i]);
        }
        lema_valor_creciente(t, k);
        assert(t.take(k) =~= d.take(k));
    } else {
        assert(d.take(k) =~= d);
    }
}

/// Equivalente de `s.parse::<u32>().ok()`: un `+` opcional y luego solo
/// dígitos decimales, con valor que quepa en 32 bits.
pub fn parsear_u32(s: &str) -> (r: Option<u32>)
    ensures
        r == entero_u32(s@),
{
    let n = s.unicode_len();
    let mut inicio: usize = 0;
    if n > 0 && s.get_char(0) == '+' {
        inicio = 1;
    }
    let ghost d = if s@.len() > 0 && s@[0] == '+' { s@.drop_first() } else { s@ };
    assert(d =~= s@.subrange(inicio as int, n as int));
    if inicio == n {
        return None;
    }
    let mut i: usize = inicio;
    let mut acc: u64 = 0;
    while i < n
        invariant
            n == s@.len(),
            inicio <= i <= n,
            d == s@.subrange(inicio as int, n as int),
            d == (if s@.len() > 0 && s@[0] == '+' { s@.drop_first() } else { s@ }),
            d.len() > 0,
            solo_digitos(d.take(i - inicio)),
            acc == valor_digitos(d.take(i - inicio)),
            acc <= u32::MAX,
        decreases n - i,
    {
        let c = s.get_char(i);
        assert(c == d[i - inicio]);
        if !('0' <= c && c <= '9') {
            assert(!('0' <= d[i - inicio] <= '9'));
            assert(!solo_digitos(d));
            return None;
        }
        let digito: u64 = ((c as u32) - 48) as u64;
        let siguiente: u64 = acc * 10 + digito;
        assert(d.take(i - inicio + 1).drop_last() =~= d.take(i - inicio));
        assert(d.take(i - inicio + 1).last() == c);
        assert(siguiente == valor_digitos(d.take(i - inicio + 1)));
        assert forall|j: int| 0 <= j < d.take(i - inicio + 1).len() implies
            '0' <= #[trigger] d.take(i - inicio + 1)[j] <= '9' by {
            if j < i - inicio {
                assert(d.take(i - inicio + 1)[j] == d.take(i - inicio)[j]);
            }
        }
        if siguiente > 0xffff_ffffu64 {
            proof {
                if solo_digitos(d) {
                    lema_valor_creciente(d, i - inicio + 1);
                }
            }
            return None;
        }
        acc = siguiente;
        i = i + 1;
    }
    assert(d.take(n - inicio) =~= d);
    Some(acc as u32)
}

/// Valor de `DB_MAX_CONNECTIONS`: el número si la variable existe y es un
/// `u32` válido; si no, 10.
pub open spec fn max_conexiones_de(valor: Option<Seq<char>>) -> u32 {
    match valor {
        Some(s) => match entero_u32(s) {
            Some(n) => n,
            None => MAX_CONEXIONES_POR_DEFECTO,
        },
        None => MAX_CONEXIONES_POR_DEFECTO,
    }
}

/// Número máximo de conexiones a partir del valor de `DB_MAX_CONNECTIONS`.
pub fn max_conexiones(valor: Option<String>) -> (r: u32)
    ensures
        r == max_conexiones_de(match valor {
            Some(s) => Some(s@),
            None => None,
        }),
{
    match valor {
        Some(s) => match parsear_u32(s.as_str()) {
            Some(n) => n,
            None => MAX_CONEXIONES_POR_DEFECTO,
        },
        None => MAX_CONEXIONES_POR_DEFECTO,
    }
}

/// Texto `host:puerto` del servidor, con `SERVER_HOST` y `SERVER_PORT` o,
/// si faltan, "0.0.0.0" y "3000".
pub fn direccion_servidor(host: Option<String>, puerto: Option<String>) -> (r: String)
    ensures
        r@ == (match host {
            Some(h) => h@,
            None => HOST_POR_DEFECTO@,
        }) + ":"@ + (match puerto {
            Some(p) => p@,
            None => PUERTO_POR_DEFECTO@,
        }),
{
    let mut r = match &host {
        Some(h) => concatenar(h.as_str(), ":"),
        None => concatenar(HOST_POR_DEFECTO, ":"),
    };
    match &puerto {
        Some(p) => r.append(p.as_str()),
        None => r.append(PUERTO_POR_DEFECTO),
    }
    r
}

} // verus!
