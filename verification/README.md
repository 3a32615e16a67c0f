# solar_flythrough

A ray-traced tour of a toy solar system, rendered frame by frame to PNG and
stitched into `out.mp4` with ffmpeg.

- `src/` is the verified library (Verus): decimal formatting, the frame file
  names and progress lines, the per-frame skip/render/report decisions that
  make a run resumable, the outcome lines of the encoder and converter, the ffmpeg arguments, the scanline order and the
  row-major assembly of the frame buffer, the colour and material tables of
  the nine bodies, the choice of shading path for a
  hit sphere, and the plain-text PPM encoding of the single-image renderer.
  Each public function has an exact contract; the proof functions state the
  laws that tie them together (distinct frame files, a re-run that skips every written frame, frame files that match
  the encoder's input pattern, byte layout of the frame buffer, upright
  scanline placement).
- `app/` is the program: file and process I/O, the rayon thread pool, the
  noise textures and all floating-point geometry and shading.
- `tests/` exercises the library on concrete values.
