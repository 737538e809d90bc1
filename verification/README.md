# iotedge

Verified pieces of the Azure IoT Edge tooling, written in Verus.

- `src/models/` — the Kubernetes object models (`ObjectMeta`, `OwnerReference`,
  `Initializer`) with builders and getters specified over mathematical views,
  and the builder laws (read-back, independence of fields, last write wins).
- `src/docker.rs` — the decoder of the Docker engine's multiplexed log
  stream, specified frame by frame against vstd's UTF-8 model, with the
  concatenation law and the independence from the stream-type byte.
- `src/uds.rs` — the Unix-socket connector's decisions as a small state
  machine.
- `src/dashboard.rs` — the dashboard's configuration path, listen address and
  `/api/modules` answer.
- `src/service.rs` — the Windows service decisions: run mode, answers to the
  service control manager, the one-shot shutdown signal, reported status.
- `tests/` — tests of the library on concrete values.
- `app/` — the programs around the library: the Docker log reader with hyper
  and tokio, the actix-web dashboard, and the serde forms of the models.
