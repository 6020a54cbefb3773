# webhook

Receives payment webhooks from Flutterwave, Paystack, MTN MoMo, Airtel Money
and Orange Money, brings each into one transaction event, queues it, and
delivers it to the backend with retries.

- `src/` is the library, verified with Verus: the normalizers (`dispatch`,
  `flutterwave`, `paystack`, `mno`, `transaction`), the JSON model they read
  through (`json`), webhook signatures (`signature`), the endpoint's
  decisions (`server`), back-off and the worker's state machine (`backoff`,
  `worker`) and the backend configuration (`config`).
- `app/` holds the services around it: the HTTP endpoints (axum), the Redis
  and in-memory queues, the HTTP backend client, and the worker loop that
  performs the library's decisions.
- `tests/` exercises the library on concrete payloads.
