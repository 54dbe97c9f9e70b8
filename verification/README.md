# qemu-display

A client library for QEMU's D-Bus display interface, with a VNC server on
top of it. The logic is verified with Verus; the D-Bus, VNC and GTK plumbing
around it is ordinary Rust.

- `src/console.rs`: the object paths of the display consoles.
- `src/console_listener.rs`: the messages that QEMU sends to a console
  listener, and the listener that hands them to a user's handler.
- `src/image.rs`: pixel formats and the BGRA framebuffer that scanouts and
  updates build.
- `src/mouse.rs`: mouse buttons and VNC button masks.
- `src/client.rs`: the decisions of a VNC client session.
- `src/usbredir.rs`: how the USB redirection widget answers a device switch.
- `app/`: the D-Bus proxies and listener interface, the VNC server program,
  and the GTK USB redirection widget.
