# parceltracker

A parcel tracker for the command line, a full-screen terminal view and a
status bar. Carriers are detected from tracking-number patterns; Amazon
Logistics parcels are tracked through Amazon's public tracker and every
other carrier through the 17track aggregator.

The library under `src/` is written in Verus and its contracts are proved:

- `models`: carriers and their detection, tracking information, parcel states.
- `api`: what to ask the aggregator and how its replies read.
- `carriers`: the first-party provider and the reading of its replies.
- `storage`, `dirstore`: finding, adding, removing and renaming parcels.
- `bar`: which parcel leads the bar, selecting it, its delivery label.
- `order`: checkpoints newest first.
- `jsonout`: the machine-readable status document.
- `cli`, `setup`: the decisions behind the commands and the setup wizard.
- `tui`: the full-screen list as a state machine, and what it shows.
- `text`, `time`, `json`, `pattern`: strings, instants, JSON and regular
  expressions, with the calls into std, chrono, serde_json and regex.
- `laws`: properties that span several operations.

`app/` holds the program around it: argument parsing, files, network,
terminal drawing. `tests/` exercises the library on concrete values.
