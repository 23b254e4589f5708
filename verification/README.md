# ws63_wifi

Verified logic of the WS63 Wi-Fi firmware images: the blinky delay, the
station (scan, connect, reconnect) and the SoftAP (DHCP lease service, UDP
echo, transmit-path diagnostics).

- `src/` is the library, verified with Verus: decisions as functions from
  state and event to next state and action, and every UART report as a
  function from plain values to bytes whose contract gives the exact bytes.
  smoltcp's DHCP parser and emitter and its UDP socket are called through a
  few trusted wrappers in `dhcp.rs` and `udp.rs`. The emitted DHCP bytes are
  spelled out (`spec_dhcp_emit`); the socket is modelled by its receive and
  transmit queues, its transmit limits and its binding, so the services'
  contracts say which datagram is taken, what is queued in reply, and when
  the reply is sure to be queued.
- `tests/` runs the library on concrete inputs.
- `app/` is the firmware around it: peripherals, the executor, the radio
  facade, the waits and the UART. It hands the library plain values and
  prints what comes back. The build features of the images (`wpa3`,
  `diagnostic-disable-sta-pm`, `dual-board-hil`, `data-path-diagnostics`,
  `blinky`) select code paths there.
