# bungie_pgcr_analyzer

Analysis of Destiny 2 post-game carnage reports from the Bungie API, written in Verus.

- `src/` is the verified library: the data of reports and analyses (`models`), the JSON answers
  of the API as plain values (`json`), the analysis of a report for one player (`analyzer`:
  equipment, kill attribution, activity summary), the API client's configuration, request URLs
  and the reading of its answers (`api_client`), the command line's parsing and output text
  (`cli`), decimal text and number parsing (`text`), and the errors (`error`).
- `app/` is the command-line program around it: argument parsing, the HTTP requests, the serde
  decoding of a carnage report into its typed form, the floating-point performance score and K/D
  ratio, and printing.
- `tests/` runs the library on concrete reports and answers.

Set `BUNGIE_API_KEY` and run `bungie-analyzer search --name <name>`,
`bungie-analyzer analyze --user-id <id> [--activity-type crucible] [--count 10] [--format table]`
or `bungie-analyzer activity --activity-id <id> --user-id <id>`.
