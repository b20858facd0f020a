# notioncli

A command-line client for the Notion API. What the program decides and computes is a library whose
behaviour is stated in contracts and proved with Verus; the program around it does the input and
output.

- `src/` is the library. `text`, `names` and `json` are the values that everything else is made of;
  `parse` reads JSON; `ids`, `objects` and `slug` read what users and the API write; `paths` and
  `config` keep profiles and choose the session of a command; `request` and `client` make requests;
  `search`, `parents` and `flow` lead a command from one exchange with the API to the next;
  `transport` decides what a response means; `commands` and `auth` start the commands; `inputs` and
  `output` stand at the ends; `errors` and `reports` say how failures are shown.
- `tests/` runs the library.
- `app/` is the program: the command line, files, and HTTP.
