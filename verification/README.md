# shiguredo_dav1d

An AV1 decoder binding to [dav1d](https://code.videolan.org/videolan/dav1d),
split into a library proved with Verus and a thin layer that calls the C
library.

## Layout

- `src/` — the library, verified with Verus:
  - `raw.rs`: the numeric codes of the dav1d API;
  - `color.rs`: pixel layout, colour description and frame type enums and
    their decoding from dav1d codes (each decoding is the inverse of a code
    table, with a fallback variant for undefined codes);
  - `flags.rs`: `InloopFilterType` and `EventFlags` bit sets (with the
    algebra of `|` and `contains`) and `DecodeFrameType`;
  - `config.rs`: `DecoderConfig`, its defaults and the `Dav1dSettings`
    values it stands for;
  - `error.rs`: `Error`, `EAGAIN` detection and the error message;
  - `header.rs`: the sequence header conversion and the HDR / error
    metadata types;
  - `frame.rs`: `DecodedFrame` — plane extents, chroma subsampling, high
    bit depth samples and metadata accessors — and the `next_frame`
    outcome of a `dav1d_get_picture` return code;
  - `codec_info.rs`: the codec capability table.
- `app/` — the calls into the dav1d C library (`Decoder`,
  `parse_sequence_header`, `version`, frame delay), which copy dav1d's
  results into the library's plain types.
- `tests/` — tests of the library.

The high bit depth accessors read samples least significant byte first,
the byte order of every platform the binding runs on.  `EAGAIN` differs
between platforms, so `Error::is_eagain`, `Error::message` and
`next_frame_status` take the platform's value, which `app/` supplies.
