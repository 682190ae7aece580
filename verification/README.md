# psdk_port

The Linux port layer of the DJI Payload SDK, as a Verus-verified library.

- `src/` holds what the port decides, with contracts proved by Verus:
  the UART, network, OSAL, file system and socket handler tables and the two
  log consoles given to the SDK (`hal`, `osal`); device names turned into C
  strings and read back (`c_string`); the index of the local log files, read
  and written in decimal (`log_index`); the local date and time and the
  stamp that names a log after it (`local_time`); the rotation of the log
  files over successive starts (`local_log`); the preparation of the system: the local log opened first,
  then every registration with the SDK in order, and how a failure ends it
  (`setup`); the SDK's return codes (`return_code`).
- `app/` holds the C interface of the SDK and of the port's C library, and the
  file system work of the local log; it follows the library's decisions.
- `tests/` runs the library on concrete values.
