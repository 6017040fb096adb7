# time_copy_icon

The logic of a tray-resident utility that copies the current time to the
clipboard and converts between unix time and date/time text, written in
Verus and proved against its contracts.

- `src/datetime.rs`: zones (the machine's local zone or a fixed offset), the
  current time as text, unix time input rendered as `yyyy/MM/dd HH:mm:ss`,
  date/time text in several shapes read as unix time, the ISO 8601 sample.
- `src/commands.rs`: the results of the two conversion forms and the
  messages that the actions show.
- `src/announce.rs`: the "AnnounceP" rewrite of clipboard text.
- `src/tray.rs`: what the tray menu items and mouse gestures ask for.
- `src/decimal.rs`, `src/text.rs`: decimal integers and trimming.
- `src/chrono_bridge.rs`: the trusted calls into `chrono`.
- `src/laws.rs`: properties of the library as a whole.
- `app/`: the Tauri application (tray, clipboard, notifications) around the
  library.
