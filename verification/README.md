# GeoStorm alert service

A service that consumes space-weather alerts from RabbitMQ, logs each one in
PostgreSQL, writes a report for it and settles the delivery with the broker.

- `src/` is the verified library (Verus): alert normalisation (`models`, `text`),
  the e-mail status (`email`), the processing machine that decides every database and
  report operation (`processing`), how deliveries are settled (`delivery`), the
  start-up connection retries (`connection`) and the broker names (`broker`).
- `app/` is the program around it: environment, PostgreSQL (sqlx), RabbitMQ (lapin),
  the tokio runtime, JSON decoding and report files.
- `tests/` exercises the library.
