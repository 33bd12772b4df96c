# Callora Vault

The logic of a vault contract that holds a token for its users, written in Verus
and proved against the contracts of its functions.

- `src/` is the library. `vault::CalloraVault` is the vault as it is stored; its
  methods decide whether a call is accepted, change the vault and return the
  steps to take outside of it. `model` says what each call does, `calls` puts
  all calls into one type, and `laws` states what holds of every call and of
  every sequence of calls. `cold_storage` is the split into a hot and a cold
  pool. `host` holds what is believed about the contract SDK.
- `app/` is the contract around the library: authentication, storage, token
  transfers, events.
- `tests/` runs the library on values.

Events are named by their first topic; `events` lists the names.
