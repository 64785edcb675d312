# drogue-device mesh library

A Bluetooth mesh node's protocol logic, with each function's behaviour
stated as a contract and proved.

- `src/` is the library. It holds the PDUs of every layer with their byte
  layouts (`pdu`, `provisioning`, `generic_provisioning`, `address`), the
  configuration, generic, sensor and firmware models (`model`), the stages
  that PDUs pass through on their way in and out (`driver::pipeline`:
  network authentication, relaying, replay detection, lower and upper
  transport, provisioning bearer, segmentation and provisioning), the GATT
  bearer's framing of PDUs in proxy PDUs and its beacon data (`interface`),
  and the cryptographic primitives they rest on (`crypto`, which calls the `aes`,
  `cmac` and `ccm` crates).
- Round trips (a PDU is read back from what it is written as, a sent network
  PDU is authenticated by its receiver, a segmented transaction is
  reassembled) and the behaviour of the caches and of the bearer are stated
  as public proof functions or in the contracts of the functions concerned.
- `app/` draws random values, performs the P-256 key exchange of
  provisioning and computes the logarithmic period codes of sensor
  descriptors, and hands the results to the library.
- `tests/` exercises the library on concrete values.
