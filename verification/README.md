# cynthion

The logic of the Cynthion / LUNA SoC firmware as a verified library: a
small USB device stack, the Great Communications Protocol, and the
firmware programs' decisions, each with a contract that Verus proves.

- `bytes` — little-endian encodings.
- `smolusb` — SETUP packets, descriptors and their wire bytes, the
  descriptor sets of the CDC serial adapter and of the Cynthion, and the
  control request handling of a USB device. The device answers a request
  with a list of driver actions; `UsbDevice::perform` hands them to the
  hal driver.
- `usb` — control types decoded from raw values, and the vendor requests.
- `gcp` — command preludes and parsing, the class registry, and the core
  class (board information and introspection).
- `class` — the firmware and greatdancer classes. The greatdancer class
  keeps what the target port reported, and queues the operations it asks
  of the port.
- `firmware_app` — the firmware's main loop step: commands arrive as vendor
  requests on the host port, their responses wait for the host's next
  request.
- `speed_test`, `benchmark`, `cdc_serial` — the decisions of the other
  firmware programs.

`app/` runs the programs against a console stand-in for the hardware.
