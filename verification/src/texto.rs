//! Utilidades de texto: representación decimal de enteros y detección
//! de cadenas formadas solo por espacios en blanco.

use vstd::prelude::*;

verus! {

/// Carácter ASCII del dígito decimal `d % 10`.
pub open spec fn digito(d: nat) -> char {
    ((d % 10) + 48) as char
}

/// Representación decimal, sin ceros a la izquierda, de un natural.
pub open spec fn texto_decimal(n: nat) -> Seq<char>
    decreases n,
{
    if n < 10 {
        seq![digito(n)]
    } else {
        texto_decimal(n / 10).push(digito(n % 10))
    }
}

/// Caracteres con la propiedad Unicode `White_Space`.
pub open spec fn es_espacio_unicode(c: char) -> bool {
    let u = c as u32;
    ||| 0x09 <= u <= 0x0d
    ||| u == 0x20
    ||| u == 0x85
    ||| u == 0xa0
    ||| u == 0x1680
    ||| 0x2000 <= u <= 0x200a
    ||| u == 0x2028
    ||| u == 0x2029
    ||| u == 0x202f
    ||| u == 0x205f
    ||| u == 0x3000
}

/// Una cadena está en blanco si todos sus caracteres son espacios; es
/// exactamente cuando `trim()` la deja vacía.
pub open spec fn en_blanco(s: Seq<char>) -> bool {
    forall|i: int| 0 <= i < s.len() ==> es_espacio_unicode(#[trigger] s[i])
}

/// Dígito decimal de `n % 10` como texto de un carácter.
fn digito_texto(n: u32) -> (r: &'static str)
    ensures
        r@ == seq![digito(n as nat)],
{
    let d = n % 10;
    proof {
        reveal_strlit("0");
        reveal_strlit("1");
        reveal_strlit("2");
        reveal_strlit("3");
        reveal_strlit("4");
        reveal_strlit("5");
        reveal_strlit("6");
        reveal_strlit("7");
        reveal_strlit("8");
        reveal_strlit("9");
    }
    if d == 0 {
        "0"
    } else if d == 1 {
        "1"
    } else if d == 2 {
        "2"
    } else if d == 3 {
        "3"
    } else if d == 4 {
        "4"
    } else if d == 5 {
        "5"
    } else if d == 6 {
        "6"
    } else if d == 7 {
        "7"
    } else if d == 8 {
        "8"
    } else {
        "9"
    }
}

/// Escribe `n` en base diez, sin ceros a la izquierda (lo que escribe el
/// `Display` de los enteros).
pub fn texto_de_u32(n: u32) -> (r: String)
    ensures
        r@ == texto_decimal(n as nat),
{
    let mut q: u32 = n / 10;
    let mut r = String::from_str(digito_texto(n));
    while q > 0
        invariant
            texto_decimal(n as nat) == (if q == 0 { Seq::<char>::empty() } else { texto_decimal(q as nat) }) + r@,
        decreases q,
    {
        let nuevo = concatenar(digito_texto(q), r.as_str());
        proof {
            if q < 10 {
                assert(texto_decimal(q as nat) == seq![digito(q as nat)]);
                assert(Seq::<char>::empty() + nuevo@ =~= seq![digito(q as nat)] + r@);
            } else {
                assert(texto_decimal(q as nat) == texto_decimal((q / 10) as nat).push(digito((q % 10) as nat)));
                assert(digito((q % 10) as nat) == digito(q as nat));
                assert(texto_decimal((q / 10) as nat).push(digito(q as nat)) + r@
                    =~= texto_decimal((q / 10) as nat) + nuevo@);
            }
        }
        r = nuevo;
        q = q / 10;
    }
    assert(Seq::<char>::empty() + r@ =~= r@);
    r
}

/// Pertenencia a la propiedad Unicode `White_Space` (lo que decide
/// `char::is_whitespace`).
pub fn es_espacio(c: char) -> (r: bool)
    ensures
        r == es_espacio_unicode(c),
{
    let u = c as u32;
    (0x09 <= u && u <= 0x0d) || u == 0x20 || u == 0x85 || u == 0xa0 || u == 0x1680
        || (0x2000 <= u && u <= 0x200a) || u == 0x2028 || u == 0x2029 || u == 0x202f
        || u == 0x205f || u == 0x3000
}

/// Equivalente de `s.trim().is_empty()`.
pub fn esta_en_blanco(s: &str) -> (r: bool)
    ensures
        r == en_blanco(s@),
{
    let n = s.unicode_len();
    let mut i: usize = 0;
    while i < n
        invariant
            n == s@.len(),
            i <= n,
            forall|j: int| 0 <= j < i ==> es_espacio_unicode(#[trigger] s@[j]),
        decreases n - i,
    {
        let c = s.get_char(i);
        if !es_espacio(c) {
            return false;
        }
        i = i + 1;
    }
    true
}

/// Concatena un prefijo con la representación decimal de `n`.
pub fn con_numero(prefijo: &str, n: u32) -> (r: String)
    ensures
        r@ == prefijo@ + texto_decimal(n as nat),
{
    let numero = texto_de_u32(n);
    let mut r = String::from_str(prefijo);
    r.append(numero.as_str());
    r
}

/// Texto `prefijo + n + sufijo`.
pub fn con_numero_y_sufijo(prefijo: &str, n: u32, sufijo: &str) -> (r: String)
    ensures
        r@ == prefijo@ + texto_decimal(n as nat) + sufijo@,
{
    let mut r = con_numero(prefijo, n);
    r.append(sufijo);
    r
}

/// Concatena dos cadenas.
pub fn concatenar(a: &str, b: &str) -> (r: String)
    ensures
        r@ == a@ + b@,
{
    let mut r = String::from_str(a);
    r.append(b);
    r
}

} // verus!
