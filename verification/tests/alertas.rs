use smart_classroom::models::medicion::Medicion;
use smart_classroom::models::alerta::Alerta;
use smart_classroom::services::alertas::{
    crear_alerta, generar_alertas, verificar_humedad, verificar_iluminacion, verificar_rango,
    verificar_ruido, verificar_temperatura, Desviacion, Mensajes, MensajesAlerta, Variable,
};

fn b(x: f64) -> u64 {
    x.to_bits()
}

fn medicion(t: Option<f64>, h: Option<f64>, i: Option<f64>, r: Option<f64>) -> Medicion {
    Medicion {
        id: 7,
        aula_id: 3,
        sensor_id: Some(1),
        temperatura: t.map(f64::to_bits),
        humedad: h.map(f64::to_bits),
        iluminacion: i.map(f64::to_bits),
        ruido: r.map(f64::to_bits),
        confort: None,
        fecha_hora: "2024-05-01T08:00:00Z".to_string(),
    }
}

#[test]
fn verificar_rango_por_debajo_dentro_y_por_encima() {
    assert_eq!(verificar_rango(Some(b(17.0)), b(18.0), b(28.0)), Some(Desviacion::PorDebajo));
    assert_eq!(verificar_rango(Some(b(18.0)), b(18.0), b(28.0)), None);
    assert_eq!(verificar_rango(Some(b(28.0)), b(18.0), b(28.0)), None);
    assert_eq!(verificar_rango(Some(b(28.5)), b(18.0), b(28.0)), Some(Desviacion::PorEncima));
    assert_eq!(verificar_rango(Some(b(-3.0)), b(-2.0), b(5.0)), Some(Desviacion::PorDebajo));
}

#[test]
fn verificar_rango_sin_valor_rango_invertido_o_nan() {
    assert_eq!(verificar_rango(None, b(18.0), b(28.0)), None);
    assert_eq!(verificar_rango(Some(b(50.0)), b(28.0), b(18.0)), None);
    assert_eq!(verificar_rango(Some(b(f64::NAN)), b(18.0), b(28.0)), None);
    assert_eq!(verificar_rango(Some(b(f64::INFINITY)), b(18.0), b(28.0)), Some(Desviacion::PorEncima));
}

fn textos(nombre: &str) -> Mensajes {
    Mensajes { por_debajo: format!("{nombre} bajo"), por_encima: format!("{nombre} alto") }
}

fn comprobar(a: &Alerta, tipo: &str, mensaje: &str) {
    assert_eq!(a.id, 0);
    assert_eq!(a.aula_id, 3);
    assert_eq!(a.tipo, tipo);
    assert_eq!(a.mensaje, mensaje);
    assert_eq!(a.nivel, "media");
    assert!(a.activa);
    assert_eq!(a.fecha_hora, "2024-05-01T08:00:00Z");
}

#[test]
fn cada_variable_usa_su_valor_y_su_texto() {
    let m = medicion(Some(30.0), Some(20.0), Some(100.0), Some(70.0));
    let a = verificar_temperatura(&m, b(18.0), b(28.0), textos("t")).unwrap();
    comprobar(&a, "temperatura", "t alto");
    let a = verificar_humedad(&m, b(30.0), b(70.0), textos("h")).unwrap();
    comprobar(&a, "humedad", "h bajo");
    let a = verificar_iluminacion(&m, b(300.0), b(500.0), textos("i")).unwrap();
    comprobar(&a, "iluminacion", "i bajo");
    let a = verificar_ruido(&m, b(0.0), b(65.0), textos("r")).unwrap();
    comprobar(&a, "ruido", "r alto");
    assert!(verificar_ruido(&m, b(0.0), b(75.0), textos("r")).is_none());
    assert!(verificar_temperatura(&m, b(40.0), b(18.0), textos("t")).is_none());
    let vacia = medicion(None, None, None, None);
    assert!(verificar_humedad(&vacia, b(30.0), b(70.0), textos("h")).is_none());
}

fn todos_los_textos() -> MensajesAlerta {
    MensajesAlerta { temperatura: textos("t"), humedad: textos("h"), iluminacion: textos("i"), ruido: textos("r") }
}

#[test]
fn generar_alertas_en_orden_de_variables() {
    let m = medicion(Some(30.0), Some(50.0), None, Some(70.0));
    let r = generar_alertas(&m, (b(18.0), b(28.0)), (b(30.0), b(70.0)), (b(300.0), b(500.0)), (b(0.0), b(65.0)), todos_los_textos());
    assert_eq!(r.len(), 2);
    comprobar(&r[0], "temperatura", "t alto");
    comprobar(&r[1], "ruido", "r alto");
    let m = medicion(Some(10.0), Some(90.0), Some(50.0), Some(10.0));
    let r = generar_alertas(&m, (b(18.0), b(28.0)), (b(30.0), b(70.0)), (b(300.0), b(500.0)), (b(20.0), b(65.0)), todos_los_textos());
    assert_eq!(r.len(), 4);
    comprobar(&r[0], "temperatura", "t bajo");
    comprobar(&r[1], "humedad", "h alto");
    comprobar(&r[2], "iluminacion", "i bajo");
    comprobar(&r[3], "ruido", "r bajo");
    let todo_bien = medicion(Some(22.0), Some(50.0), Some(400.0), Some(40.0));
    assert!(generar_alertas(&todo_bien, (b(18.0), b(28.0)), (b(30.0), b(70.0)), (b(300.0), b(500.0)), (b(0.0), b(65.0)), todos_los_textos()).is_empty());
}

#[test]
fn crear_alerta_copia_los_datos_de_la_medicion() {
    let m = medicion(Some(30.0), None, None, None);
    let a = crear_alerta(&m, "temperatura", "texto".to_string(), "alta");
    assert_eq!(a.id, 0);
    assert_eq!(a.aula_id, 3);
    assert_eq!(a.tipo, "temperatura");
    assert_eq!(a.mensaje, "texto");
    assert_eq!(a.nivel, "alta");
    assert!(a.activa);
    assert_eq!(a.fecha_hora, "2024-05-01T08:00:00Z");
    assert_eq!(Variable::Humedad.tipo(), "humedad");
    assert_eq!(Variable::Iluminacion.tipo(), "iluminacion");
}
