# cohosting

Serves plain HTTP (HTTP/1.1 and HTTP/2) and gRPC on the same listeners: a
hybrid service hands each request to the web service or to the gRPC service.

- `src/` is the verified library (Verus): the routing decision
  (`routing`), the readiness, hand-over and result tagging of the hybrid
  service and its factory (`hybrid`), the TLS acceptor set-up (`tls`), the
  example gRPC method (`greeter`), the supervisor's reaction to a server's end
  (`supervisor`) and the logging style (`logging`).
- `app/` is the executable around it: hyper/axum/tonic plumbing, the listeners
  (TCP, TLS, Unix socket), logging and signal handling.
- `tests/` runs the library on concrete values.

The TLS listener reads `certs/server.crt` and `certs/server.key` (PEM, PKCS#8
key) from the working directory. The Unix-domain-socket listener
(`/tmp/cohosting.sock`) is compiled only with the `unix-domain-sockets` cfg
feature, as before; it is off in a default build.
