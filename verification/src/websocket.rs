//! Estado compartido de las conexiones WebSocket: un canal de difusión por
//! el que cada medición nueva llega a todos los clientes suscritos. La
//! atención de cada conexión (red, tareas asíncronas) queda fuera.

use std::sync::Arc;
use tokio::sync::broadcast;
use vstd::prelude::*;

verus! {

#[verifier::external_type_specification]
#[verifier::external_body]
#[verifier::reject_recursive_types(T)]
pub struct ExSender<T>(broadcast::Sender<T>);

/// Número de mensajes que el canal de un emisor retiene para cada
/// receptor antes de que el más lento pierda los más viejos. Lo fija la
/// creación del canal y no cambia después.
pub uninterp spec fn capacidad_canal(tx: broadcast::Sender<String>) -> nat;

/// Menor potencia de dos que es mayor o igual que `n` (1 para `n <= 1`),
/// como `usize::next_power_of_two`.
pub open spec fn siguiente_potencia_de_dos(n: nat) -> nat
    decreases n,
{
    if n <= 1 {
        1
    } else {
        2 * siguiente_potencia_de_dos(((n + 1) / 2) as nat)
    }
}

/// `Clone` de `broadcast::Sender`: otro emisor del mismo canal (tokio solo
/// incrementa el contador de emisores). No se afirma nada del resultado.
pub assume_specification<T>[ <broadcast::Sender<T> as Clone>::clone ](s: &broadcast::Sender<T>) -> broadcast::Sender<T>;

/// Crea un canal con `tokio::sync::broadcast::channel(capacity)` y devuelve
/// su emisor; el receptor inicial se descarta. Tokio entra en pánico si
/// `capacity` es 0 o supera `usize::MAX / 2`, de ahí el `requires`, y
/// redondea la capacidad a la siguiente potencia de dos
/// (`capacity.next_power_of_two()`), que es lo que se afirma. No se afirma
/// nada de los receptores, que cambian con las otras tareas.
#[verifier::external_body]
fn canal_de_difusion(capacity: usize) -> (tx: broadcast::Sender<String>)
    requires
        0 < capacity <= usize::MAX / 2,
    ensures
        capacidad_canal(tx) == siguiente_potencia_de_dos(capacity as nat),
{
    broadcast::channel(capacity).0
}

/// Envía un mensaje con `broadcast::Sender::send`. Tokio devuelve `Ok(n)`
/// con `n` el número de receptores suscritos, que es al menos uno, y
/// `Err` si no hay ninguno; cuántos hay depende de las otras tareas, así
/// que solo se afirma `n >= 1`.
#[verifier::external_body]
fn difundir(tx: &broadcast::Sender<String>, mensaje: String) -> (r: Option<usize>)
    ensures
        r matches Some(n) ==> n >= 1,
{
    tx.send(mensaje).ok()
}

/// Estado compartido de todas las conexiones WebSocket.
#[derive(Clone)]
pub struct WsState {
    pub tx: broadcast::Sender<String>,
}

impl WsState {
    /// Estado con un canal nuevo que guarda al menos `capacity` mensajes
    /// por cliente lento (la capacidad se redondea a la siguiente potencia
    /// de dos) antes de descartar los más viejos.
    pub fn new(capacity: usize) -> (r: Arc<Self>)
        requires
            0 < capacity <= usize::MAX / 2,
        ensures
            capacidad_canal(r.tx) == siguiente_potencia_de_dos(capacity as nat),
            capacity <= capacidad_canal(r.tx) < 2 * capacity,
    {
        proof {
            ley_capacidad_suficiente(capacity as nat);
        }
        let tx = canal_de_difusion(capacity);
        Arc::new(WsState { tx })
    }

    /// Publica una medición a todos los clientes conectados; si no hay
    /// ninguno, el mensaje se pierde sin error.
    pub fn broadcast_measurement(&self, payload: String) {
        let _ = difundir(&self.tx, payload);
    }
}

/// Lo que ocurre en una conexión WebSocket abierta.
#[derive(Debug)]
pub enum EventoConexion {
    /// Llegó una medición por el canal de difusión.
    Medicion(String),
    /// El cliente iba tan atrasado que el canal descartó tantos mensajes viejos.
    Retraso(u64),
    /// El canal de difusión se cerró (no quedan emisores).
    CanalCerrado,
    /// No se pudo enviar al cliente: se desconectó.
    EnvioFallido,
    /// El cliente envió un texto.
    TextoCliente(String),
    /// El cliente pidió cerrar la conexión.
    CierreCliente,
    /// El cliente envió otro tipo de mensaje (ping, pong, binario).
    OtroMensaje,
    /// El flujo del cliente terminó o dio error.
    ClienteDesconectado,
}

/// Qué hacer ante un evento de la conexión.
#[derive(Debug)]
pub enum AccionConexion {
    /// Reenviar el texto al cliente.
    EnviarTexto(String),
    /// Dejar constancia del texto recibido del cliente.
    Registrar(String),
    /// Seguir esperando sin hacer nada.
    Ignorar,
    /// Cerrar la conexión.
    Terminar,
}

/// Acción que corresponde a cada evento: cada medición se reenvía tal
/// cual; un cliente atrasado solo pierde los mensajes viejos y sigue
/// conectado; el texto del cliente se registra; los demás mensajes del
/// cliente se ignoran; el cierre del canal, un envío fallido, el cierre
/// pedido por el cliente o su desconexión terminan la conexión.
pub open spec fn accion_para(evento: EventoConexion) -> AccionConexion {
    match evento {
        EventoConexion::Medicion(m) => AccionConexion::EnviarTexto(m),
        EventoConexion::Retraso(_) => AccionConexion::Ignorar,
        EventoConexion::CanalCerrado => AccionConexion::Terminar,
        EventoConexion::EnvioFallido => AccionConexion::Terminar,
        EventoConexion::TextoCliente(t) => AccionConexion::Registrar(t),
        EventoConexion::CierreCliente => AccionConexion::Terminar,
        EventoConexion::OtroMensaje => AccionConexion::Ignorar,
        EventoConexion::ClienteDesconectado => AccionConexion::Terminar,
    }
}

/// Paso de una conexión WebSocket: de un evento a la acción que toca.
pub fn siguiente_accion(evento: EventoConexion) -> (a: AccionConexion)
    ensures
        a == accion_para(evento),
{
    match evento {
        EventoConexion::Medicion(m) => AccionConexion::EnviarTexto(m),
        EventoConexion::Retraso(_) => AccionConexion::Ignorar,
        EventoConexion::CanalCerrado => AccionConexion::Terminar,
        EventoConexion::EnvioFallido => AccionConexion::Terminar,
        EventoConexion::TextoCliente(t) => AccionConexion::Registrar(t),
        EventoConexion::CierreCliente => AccionConexion::Terminar,
        EventoConexion::OtroMensaje => AccionConexion::Ignorar,
        EventoConexion::ClienteDesconectado => AccionConexion::Terminar,
    }
}

/// La conexión solo termina por cierre del canal, envío fallido, cierre o
/// desconexión del cliente; un retraso nunca la termina, y lo único que se
/// envía al cliente son las mediciones, sin cambios.
pub proof fn ley_conexion(evento: EventoConexion)
    ensures
        accion_para(evento) is Terminar <==> (evento is CanalCerrado || evento is EnvioFallido
            || evento is CierreCliente || evento is ClienteDesconectado),
        evento is Retraso ==> accion_para(evento) is Ignorar,
        accion_para(evento) is EnviarTexto <==> evento is Medicion,
        evento matches EventoConexion::Medicion(m) ==> accion_para(evento) == AccionConexion::EnviarTexto(m),
{
}

/// La capacidad del canal nunca es menor que la pedida ni llega al doble:
/// un cliente puede atrasarse al menos `capacity` mensajes sin perder ninguno.
pub proof fn ley_capacidad_suficiente(n: nat)
    requires
        n >= 1,
    ensures
        n <= siguiente_potencia_de_dos(n) < 2 * n,
    decreases n,
{
    if n > 1 {
        ley_capacidad_suficiente(((n + 1) / 2) as nat);
    }
}

/// Textos que una conexión envía al cliente al procesar, en orden, una
/// secuencia de eventos con `siguiente_accion`.
pub open spec fn textos_enviados(eventos: Seq<EventoConexion>) -> Seq<String>
    decreases eventos.len(),
{
    if eventos.len() == 0 {
        Seq::empty()
    } else {
        let previos = textos_enviados(eventos.drop_last());
        match accion_para(eventos.last()) {
            AccionConexion::EnviarTexto(t) => previos.push(t),
            _ => previos,
        }
    }
}

/// Mediciones que llegaron por el canal de difusión en una secuencia de
/// eventos, en orden.
pub open spec fn mediciones_recibidas(eventos: Seq<EventoConexion>) -> Seq<String>
    decreases eventos.len(),
{
    if eventos.len() == 0 {
        Seq::empty()
    } else {
        let previas = mediciones_recibidas(eventos.drop_last());
        match eventos.last() {
            EventoConexion::Medicion(m) => previas.push(m),
            _ => previas,
        }
    }
}

/// Entrega ordenada: procesando cualquier secuencia de eventos, los textos
/// enviados al cliente son exactamente las mediciones recibidas del canal,
/// en el mismo orden, cada una una vez y sin cambios; retrasos, textos del
/// cliente y otros mensajes no añaden ni quitan nada, así que nunca se
/// devuelve al cliente lo que él mismo envía.
pub proof fn ley_entrega_ordenada(eventos: Seq<EventoConexion>)
    ensures
        textos_enviados(eventos) == mediciones_recibidas(eventos),
        (forall|i: int| 0 <= i < eventos.len() ==> !(#[trigger] eventos[i] is Medicion))
            ==> textos_enviados(eventos).len() == 0,
    decreases eventos.len(),
{
    if eventos.len() > 0 {
        let previos = eventos.drop_last();
        ley_entrega_ordenada(previos);
        if forall|i: int| 0 <= i < eventos.len() ==> !(#[trigger] eventos[i] is Medicion) {
            assert forall|i: int| 0 <= i < previos.len() implies !(#[trigger] previos[i] is Medicion) by {
                assert(previos[i] == eventos[i]);
            }
            assert(eventos[eventos.len() - 1] == eventos.last());
        }
    }
}

/// Sin retrasos ni cierres, una secuencia de mediciones `m1, ..., mk` se
/// envía al cliente como exactamente `m1, ..., mk`.
pub proof fn ley_solo_mediciones(mensajes: Seq<String>)
    ensures
        textos_enviados(mensajes.map_values(|m: String| EventoConexion::Medicion(m))) == mensajes,
    decreases mensajes.len(),
{
    let eventos = mensajes.map_values(|m: String| EventoConexion::Medicion(m));
    if mensajes.len() > 0 {
        let previos = mensajes.drop_last();
        ley_solo_mediciones(previos);
        assert(eventos.drop_last() =~= previos.map_values(|m: String| EventoConexion::Medicion(m)));
        assert(previos.push(mensajes.last()) =~= mensajes);
    } else {
        assert(mensajes =~= Seq::<String>::empty());
    }
}

} // verus!
