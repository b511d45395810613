# feroxbuster banner

The start-up banner of a content-discovery scanner, as a verified library.

- `src/banner.rs`: `Banner::new` makes one entry per setting of a
  `Configuration`; `Banner::print_to` lays the banner out (header, the
  entries that the settings call for, footer); the latest release is
  recorded from the releases API's JSON reply.
- `src/entry.rs`: a banner entry and its terminal line.
- `src/style.rs`: colours of status codes, and the calls into `console`.
- `src/text.rs`: decimal and boolean texts, joining.
- `src/update.rs`: the release tag, read with `serde_json`, and its
  comparison with this version.
- `src/laws.rs`: properties of the layout and of the version check.
- `app/`: writing the banner to a writer, and the HTTP request for the
  latest release.
