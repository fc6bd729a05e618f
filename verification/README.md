# kicad-ipc-rs

Typed models and conversions for KiCad's IPC API, written in Verus. The
library's functions are verified against their contracts, except for a few
small trusted wrappers around std (`String::push`, `Duration::from_millis`,
and the `Debug` rendering of a decoded item), whose contracts are assumed.

## Layout

- `src/proto.rs`, `src/proto_enums.rs` — the API's protobuf messages as plain
  data, with enumerations kept as their wire values and their names.
- `src/model/` — the library's models: boards, items, text specifications,
  documents, the editable item wrappers (`model/editable`), and the board
  layer names written out, which the layer-name law rests on (`model/layer_names`).
- `src/client/` — the conversions between messages and models
  (`mappers`, `board_mappers`, `item_mappers`, `text_mappers`), payload
  decoding (`decode`), item buckets and catalogs (`items`), the requests item
  commands send and what is read from their responses (`requests`), document
  and project selection (`documents`), connection settings (`config`), and
  the round-trip laws (`round_trips`).
- `src/cli.rs`, `src/cli_args.rs`, `src/cli_commands.rs` — the command-line
  tool's own logic: option values, item ids, hex payloads, polygon summaries,
  and the reading of the whole command line into settings and a command;
  `src/cli_report.rs` — the board read report: which pads and layers to ask
  about, and the markdown it writes, with its row and length caps.
- `src/decimal.rs` — decimal integers read as `str::parse` reads them.
- `src/order.rs`, `src/text.rs` — ordering of strings and text helpers.
- `app/main.rs` — the command-line front end: the process's arguments and
  environment, socket discovery, and the millimetre values of
  `create-board-text`, which are floating point.
- `tests/` — the tests, run against the compiled library.
