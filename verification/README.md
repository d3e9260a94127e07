# cube_render

A software renderer that draws a spinning cube into an RGBA frame buffer and
shows it on a web page's canvas.

- `src/render.rs`: the frame buffer (`Display`), its colours, and the verified
  operations `new`, `clear` and `set_pixel`, specified over the buffer's bytes.
- `src/laws.rs`: proved properties of painting pixels (a read gives back what
  was painted, other pixels are untouched, the last paint wins, paints of
  different pixels commute, a blank buffer reads as zero).
- `src/frame.rs`: what the animation loop does after a frame is shown.
- `app/lib.rs`: the browser side (canvas, animation callback) and the
  floating-point geometry (projection, lines, triangles).
