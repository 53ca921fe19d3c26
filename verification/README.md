# smart_classroom

Núcleo verificado con Verus del backend SMART CLASSROOM (monitoreo
ambiental de aulas con sensores ESP32).

- `src/`: la biblioteca verificada. Modelos y esquemas de la API, reglas
  de validación de mediciones, búsqueda y filtrado, detección de valores
  fuera de rango, clasificación del confort, decisiones de cada ruta HTTP
  (código de estado y cuerpo), errores de la API, configuración y el canal
  de difusión WebSocket. Los números en coma flotante se representan por su
  patrón de bits IEEE-754 (`src/flotante.rs`).
- `tests/`: pruebas de la biblioteca.
- `app/`: el servidor (axum, sqlx, tokio): red, base de datos, lectura
  del reloj, serialización JSON, redacción de los textos con decimales y
  la aritmética en coma flotante de los índices de confort y los
  promedios; ejecuta en cada conexión WebSocket la acción que decide la
  biblioteca.
