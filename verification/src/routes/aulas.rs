//! Rutas de aulas: `/aulas` y `/aulas/:id`.

use vstd::prelude::*;
use crate::routes::{posicion, ConIdentificador, OK, CREADO, SOLICITUD_INVALIDA, NO_ENCONTRADO};
use crate::schemas::aula::{Aula, NuevaAula, RespuestaAula};
use crate::texto::{con_numero, con_numero_y_sufijo, en_blanco, esta_en_blanco, texto_decimal};

verus! {

impl ConIdentificador for Aula {
    open spec fn ident(&self) -> u32 {
        self.id
    }

    fn identificador(&self) -> (r: u32) {
        self.id
    }
}

/// Las aulas de prueba que sirve la API: (id, nombre, ubicación, capacidad).
pub open spec fn aulas_de_prueba() -> Seq<(u32, Seq<char>, Seq<char>, u32)> {
    seq![
        (1u32, "Aula 101"@, "Edificio A, Piso 1"@, 30u32),
        (2u32, "Aula 102"@, "Edificio A, Piso 1"@, 25u32),
        (3u32, "Laboratorio de Ciencias"@, "Edificio B, Piso 2"@, 20u32),
    ]
}

/// Vista de una lista de aulas.
pub open spec fn vistas_aulas(s: Seq<Aula>) -> Seq<(u32, Seq<char>, Seq<char>, u32)> {
    s.map_values(|a: Aula| a@)
}

/// Hay un aula de prueba con ese id.
pub open spec fn existe_aula(id: u32) -> bool {
    exists|i: int| 0 <= i < aulas_de_prueba().len() && aulas_de_prueba()[i].0 == id
}

/// Mensaje de aula inexistente.
pub open spec fn aula_no_encontrada(id: u32) -> Seq<char> {
    "No se encontro un aula con id "@ + texto_decimal(id as nat)
}

fn aula(id: u32, nombre: &str, ubicacion: &str, capacidad: u32) -> (a: Aula)
    ensures
        a@ == (id, nombre@, ubicacion@, capacidad),
{
    Aula { id, nombre: String::from_str(nombre), ubicacion: String::from_str(ubicacion), capacidad }
}

/// Aulas de prueba.
pub fn mock_aulas() -> (r: Vec<Aula>)
    ensures
        vistas_aulas(r@) == aulas_de_prueba(),
{
    let mut r: Vec<Aula> = Vec::new();
    r.push(aula(1, "Aula 101", "Edificio A, Piso 1", 30));
    r.push(aula(2, "Aula 102", "Edificio A, Piso 1", 25));
    r.push(aula(3, "Laboratorio de Ciencias", "Edificio B, Piso 2", 20));
    assert(vistas_aulas(r@) =~= aulas_de_prueba());
    r
}

/// GET /aulas: todas las aulas, con 200.
pub fn listar_aulas() -> (r: (u16, Vec<Aula>))
    ensures
        r.0 == OK,
        vistas_aulas(r.1@) == aulas_de_prueba(),
{
    (OK, mock_aulas())
}

/// Busca el aula de prueba con el id dado.
fn buscar_aula(id: u32) -> (r: Option<Aula>)
    ensures
        match r {
            Some(a) => a.id == id && exists|i: int|
                0 <= i < aulas_de_prueba().len() && #[trigger] aulas_de_prueba()[i] == a@,
            None => !existe_aula(id),
        },
{
    let mut aulas = mock_aulas();
    proof {
        assert(aulas_de_prueba().len() == aulas@.len());
        assert forall|i: int| 0 <= i < aulas@.len() implies
            #[trigger] aulas@[i]@ == aulas_de_prueba()[i] by {
            assert(vistas_aulas(aulas@)[i] == aulas@[i]@);
        }
    }
    match posicion(&aulas, id) {
        Some(i) => {
            let a = aulas.remove(i);
            assert(aulas_de_prueba()[i as int] == a@);
            Some(a)
        },
        None => {
            assert forall|i: int| 0 <= i < aulas_de_prueba().len() implies
                aulas_de_prueba()[i].0 != id by {
                assert(aulas@[i]@ == aulas_de_prueba()[i]);
            }
            None
        },
    }
}

/// GET /aulas/:id: el aula con ese id y 200, o 404 con el mensaje
/// "No se encontro un aula con id {id}".
pub fn obtener_aula(id: u32) -> (r: (u16, Result<Aula, RespuestaAula>))
    ensures
        match r.1 {
            Ok(a) => r.0 == OK && existe_aula(id) && a.id == id && exists|i: int|
                0 <= i < aulas_de_prueba().len() && #[trigger] aulas_de_prueba()[i] == a@,
            Err(e) => r.0 == NO_ENCONTRADO && !existe_aula(id) && e.mensaje@ == aula_no_encontrada(id),
        },
{
    match buscar_aula(id) {
        Some(a) => (OK, Ok(a)),
        None => (NO_ENCONTRADO, Err(RespuestaAula { mensaje: con_numero("No se encontro un aula con id ", id) })),
    }
}

/// Primer error de una solicitud de alta de aula: nombre en blanco, luego
/// capacidad 0; `None` si es válida.
pub open spec fn error_nueva_aula(p: (Seq<char>, Seq<char>, u32)) -> Option<Seq<char>> {
    if en_blanco(p.0) {
        Some("El campo 'nombre' no puede estar vacio"@)
    } else if p.2 == 0 {
        Some("El campo 'capacidad' debe ser mayor a 0"@)
    } else {
        None
    }
}

/// POST /aulas: rechaza con 400 un nombre en blanco o una capacidad 0
/// (en ese orden); si no, crea el aula con id 99 y responde 201.
pub fn crear_aula(payload: NuevaAula) -> (r: (u16, Result<Aula, RespuestaAula>))
    ensures
        match r.1 {
            Ok(a) => r.0 == CREADO && error_nueva_aula(payload@) is None
                && a@ == (99u32, payload.nombre@, payload.ubicacion@, payload.capacidad),
            Err(e) => r.0 == SOLICITUD_INVALIDA && error_nueva_aula(payload@) == Some(e.mensaje@),
        },
{
    if esta_en_blanco(payload.nombre.as_str()) {
        return (SOLICITUD_INVALIDA, Err(RespuestaAula {
            mensaje: String::from_str("El campo 'nombre' no puede estar vacio"),
        }));
    }
    if payload.capacidad == 0 {
        return (SOLICITUD_INVALIDA, Err(RespuestaAula {
            mensaje: String::from_str("El campo 'capacidad' debe ser mayor a 0"),
        }));
    }
    (CREADO, Ok(Aula {
        id: 99,
        nombre: payload.nombre,
        ubicacion: payload.ubicacion,
        capacidad: payload.capacidad,
    }))
}

/// PUT /aulas/:id: si el aula existe, la reemplaza por los datos recibidos
/// conservando el id y responde 200; si no, 404. No valida los datos.
pub fn actualizar_aula(id: u32, payload: NuevaAula) -> (r: (u16, Result<Aula, RespuestaAula>))
    ensures
        match r.1 {
            Ok(a) => r.0 == OK && existe_aula(id)
                && a@ == (id, payload.nombre@, payload.ubicacion@, payload.capacidad),
            Err(e) => r.0 == NO_ENCONTRADO && !existe_aula(id) && e.mensaje@ == aula_no_encontrada(id),
        },
{
    match buscar_aula(id) {
        Some(_) => (OK, Ok(Aula {
            id,
            nombre: payload.nombre,
            ubicacion: payload.ubicacion,
            capacidad: payload.capacidad,
        })),
        None => (NO_ENCONTRADO, Err(RespuestaAula { mensaje: con_numero("No se encontro un aula con id ", id) })),
    }
}

/// DELETE /aulas/:id: 200 con "Aula con id {id} eliminada correctamente"
/// si existe; si no, 404.
pub fn eliminar_aula(id: u32) -> (r: (u16, RespuestaAula))
    ensures
        existe_aula(id) ==> r.0 == OK && r.1.mensaje@
            == "Aula con id "@ + texto_decimal(id as nat) + " eliminada correctamente"@,
        !existe_aula(id) ==> r.0 == NO_ENCONTRADO && r.1.mensaje@ == aula_no_encontrada(id),
{
    match buscar_aula(id) {
        Some(_) => (OK, RespuestaAula {
            mensaje: con_numero_y_sufijo("Aula con id ", id, " eliminada correctamente"),
        }),
        None => (NO_ENCONTRADO, RespuestaAula { mensaje: con_numero("No se encontro un aula con id ", id) }),
    }
}

/// Las aulas de prueba tienen los ids 1, 2 y 3, sin repetición.
pub proof fn ley_aulas_de_prueba(id: u32)
    ensures
        existe_aula(id) <==> 1 <= id <= 3,
        forall|i: int, j: int|
            0 <= i < j < aulas_de_prueba().len() ==> aulas_de_prueba()[i].0 != aulas_de_prueba()[j].0,
{
    if 1 <= id <= 3 {
        assert(aulas_de_prueba()[id - 1].0 == id);
    }
}

/// Una solicitud de alta se rechaza exactamente cuando el nombre queda
/// vacío tras quitar los espacios o la capacidad es 0; el nombre en blanco
/// da siempre el error del nombre y, con nombre válido, la capacidad 0 el de
/// la capacidad. Cualquier otro nombre, de cualquier longitud, se acepta.
pub proof fn ley_alta_de_aula(p: (Seq<char>, Seq<char>, u32))
    ensures
        error_nueva_aula(p) is None <==> (!en_blanco(p.0) && p.2 != 0),
        en_blanco(p.0) ==> error_nueva_aula(p) == Some("El campo 'nombre' no puede estar vacio"@),
        !en_blanco(p.0) && p.2 == 0 ==> error_nueva_aula(p) == Some("El campo 'capacidad' debe ser mayor a 0"@),
{
}

} // verus!
