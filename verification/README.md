# cloud_scraper

Gets your cloud data on your terms: sources produce entities, sinks consume them, and a
small site configures the Google sources.

- `src/` is the library, verified with Verus: configuration and its sanity check, URLs
  (through the `url` crate), the clock and dates (through `std` and `chrono`), entities and
  identifiers, the stub source, the OAuth2 client's decisions, the Google configuration page
  data and note conversion, the lifecycle events, the dependency start-up steps and the
  program's main decisions.
- `tests/` runs the library against the real outside crates.
- `app/` is the program around it: the command line, the configuration file, the async
  runtime and the channels between nodes.

What the program does not do yet:

- It runs the stub source and the log sink only. The Google and Google Keep sources, the
  OAuth2 client and the web site with its configuration page are not driven: their calls to
  Google's services, the web server and the page templates are not part of it. Their
  decisions are in `src/` (`google`, `oauth2`) and tested there.
- `root-password` refuses to save the password: it must be stored hashed, and the password
  hashing is not part of this program.
