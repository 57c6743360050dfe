# contract_enclave

Delivery-versus-payment matching for an execution enclave, verified with Verus.

An asset transaction (tokens from a seller to a buyer) and a payment
transaction (money from the buyer to the seller) are settled together when
they name each other and agree on amounts; a lone transaction is recorded,
under the name of its sender, until its counterpart arrives.

- `src/` — the verified library: the records (`records`, `text`), the replies
  (`replies`), the settlement state machine (`settlement`), the model of a
  whole call against the record store with its laws (`protocol`), the reply
  buffer shared with the service (`framing`), the service's error response
  (`service`) and the median positions (`median`).
- `app/` — the HTTP service, the enclave entry points that run the state
  machine against record files, JSON (de)serialization, and the float median.
- `tests/` — tests of the library.
