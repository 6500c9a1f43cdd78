# wayvern

Wayvern is a Wayland compositor whose user interface is drawn by the Flutter
engine. This crate holds its logic as a library verified with Verus, and the
program around it.

- `src/` — the verified library: the engine's task queue (`task_runner`),
  the mouse button state (`mouse_button_tracker`), how input events become
  Flutter pointer events and which keys stop the compositor
  (`input_handling`), the identifiers, textures and vsync baton the
  compositor keeps (`common`), the messages that tell Flutter of Wayland
  surfaces (`wayland_messages`, `encodable_value`), the requests Flutter
  sends back (`platform_message_handler`), the choices the display backends
  make (`backend_config`), and the platform channels (`platform_channels`).
- `tests/` — tests of the library on concrete values.
- `app/` — the compositor program: smithay's protocol handlers, the X11 and
  DRM backends, the Flutter engine's embedder interface and the event loop.
