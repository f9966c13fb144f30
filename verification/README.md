# recon_server

A reconstruction job server and its clients. Clients send a measured signal
and pick a model (`30x30`, `60x60`) and an algorithm (`CGNR`, `CGNE`); the
server queues the job, a bounded pool of workers reconstructs the image,
saves it as a PNG and appends a line to a CSV report.

- `src/` is the verified library (Verus): request admission and the HTTP
  answers, the server's counters, the worker semaphore, job planning, the
  matrix shape check, the pixel order of saved images, the report text and
  the clients' file helpers. Each module states its contracts and laws.
- `app/` is the program around it: the HTTP server, the dispatcher and
  worker threads, the floating-point conjugate-gradient solvers, file I/O,
  and the two clients (`report`, `spammer`).
- `tests/` runs the library on concrete values.
