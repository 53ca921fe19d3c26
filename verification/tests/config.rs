use smart_classroom::config::{direccion_servidor, max_conexiones};

#[test]
fn max_conexiones_coincide_con_parse() {
    let casos = [
        "", "+", "-", "0", "7", "+7", "-7", "007", "10 ", " 10", "1_0", "4294967295", "4294967296",
        "99999999999", "++1", "+-1", "12a", "٣", "25",
    ];
    for s in casos {
        let esperado = s.parse::<u32>().unwrap_or(10);
        assert_eq!(max_conexiones(Some(s.to_string())), esperado, "{:?}", s);
    }
    assert_eq!(max_conexiones(None), 10);
    assert_eq!(max_conexiones(Some("64".to_string())), 64);
}

#[test]
fn direccion_con_valores_por_defecto() {
    assert_eq!(direccion_servidor(None, None), "0.0.0.0:3000");
    assert_eq!(direccion_servidor(Some("127.0.0.1".to_string()), None), "127.0.0.1:3000");
    assert_eq!(direccion_servidor(None, Some("8080".to_string())), "0.0.0.0:8080");
    assert_eq!(direccion_servidor(Some("[::1]".to_string()), Some("80".to_string())), "[::1]:80");
}
