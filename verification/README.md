# matrix-dapnet-bot

A Matrix bot that lets licensed radio amateurs send pages and rubric news over
DAPNET. The decisions the bot makes are a Verus-verified library under `src/`;
`app/` is the program around it (Matrix client, DAPNET client, command-line
parsing, configuration file, metrics).

- `src/callsign.rs`: callsigns, held in lowercase and shown in uppercase.
- `src/config.rs`: users and configuration; finding the user for a Matrix ID
  and checking who may transmit with which callsign.
- `src/permission.rs`: which callsign a sender transmits with, and who may
  publish to a rubric.
- `src/send.rs`: building pages and news items and the replies once sent.
- `src/status.rs`: the operator list and the "may I transmit?" answer.
- `src/lookup.rs`: replies to lookups of DAPNET resources and statistics.
- `src/dispatch.rs`: which room messages are commands, and metric labels.
- `src/error.rs`: error messages and reply types.
- `src/text.rs`: joining, splitting, case mapping and decimal rendering.
