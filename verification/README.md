# nlhgui

A small desktop GUI toolkit whose core is verified with Verus.

- `src/` is the verified library: the launch configuration, the event model,
  cursor hover/press tracking and the single text receiver (`input_state`),
  the click state machine of cursor reactive boxes (`cursor`), text field
  editing over UTF-8 (`text_field`), radio button groups (`radio`), box
  alignment flags (`align`), rebuild requests of reactive UIs (`reactive`), the
  frame timing decision (`frame`) and
  the channels between background tasks and the UI (`concurrency`).
- `app/` is the rest of the toolkit and its examples: widgets, float layout,
  rendering with skia and the window and event loop with winit and glutin.
- `tests/` exercises the library on concrete values.
