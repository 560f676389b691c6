# for_mqtt

The core of an MQTT desktop client, verified with Verus.

- `src/` is the verified library: broker records and their views, the
  subscribe and publish histories, payload encoding (text, JSON, hex), the
  ledger of stored broker ids and the writes it asks the store to make, the
  events sent to the user interface, and the set-up of a connection.
  Contracts are stated over spec functions and views; the laws of the
  library stand as public proof functions named `law_*`.
- `app/` is the program around it: the Tauri commands, the sled store that
  performs the library's writes, the MQTT client connections, the settings
  file, logging, and the serde forms of the library's types.
- `tests/` runs the library on concrete values.
