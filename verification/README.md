# pp252

A small desktop tool that opens a PNG image, lets the user move a 252 x 252
selection over it, and saves that square as a new PNG file.

- `src/` is the verified library (Verus):
  - `crop.rs`: decoding the image file (in the format its extension names) to RGBA pixels (through the `image` crate),
    the size check, the crop itself, and PNG encoding of the square;
  - `app.rs`: the state machine of the window (status, image to crop, hover
    flag) and the texts it shows;
  - `text.rs`: decimal rendering and ASCII case-insensitive comparison.
- `app/` is the window: iced widgets, the canvas that draws and drags the
  selection in floating-point screen coordinates, file dialogs and file I/O.
- `tests/` runs the library on concrete images and messages.
