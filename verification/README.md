# vivi

The verified core of Vivi, the Vivid Protocol image viewer and media player. Verus proves the
library under `src/` against its contracts; `app/` is the program around it (command line,
FFmpeg bindings, the Vivid session, terminal queries and the CPAL audio worker).

## Layout

- `src/terminal_geometry.rs`: terminal cell geometry, the driver window size and the parser
  for the terminal's reply to the cell-size query.
- `src/routing.rs`: which player a file goes to, and how sound is routed between the presenter
  and the local device.
- `src/config.rs`: the command-line configuration checks.
- `src/extradata.rs`, `src/bytes.rs`: codec private data normalization (Opus, Vorbis, FLAC,
  avcC/hvcC to Annex B) and length-prefixed access units to Annex B.
- `src/colorimetry.rs`, `src/timing.rs`: colour metadata mapping, timestamp arithmetic,
  packet trims and audio/video alignment.
- `src/stream_info.rs`: stream descriptions, packet routing and the inspection pass.
- `src/playback.rs`, `src/audio_stream.rs`: the schedulers that decide what is sent to the
  presenter and when playback starts.
- `src/image_plan.rs`: encoded versus raster image submission.
- `src/audio_output.rs`: local output sizes and sample alignment.
- `tests/`: tests of the library.
