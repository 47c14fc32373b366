# gqa_l9

Fetches the "ebuild cleanup candidates" report of the Gentoo QA site through an
HTTP cache on disk, and cuts it into rows and cells.

- `src/` is the verified library:
  - `url_build`: the builder of the report's URL;
  - `ua`: parsing of the URL to fetch, over the URL parser of `reqwest`;
  - `err`: the error type;
  - `report`: cutting a report into lines and `|`-separated cells;
  - `blocks`: 1 KiB blocks of 64-bit lane pairs and their exclusive or;
  - `item`: options and query of a keychain search, and the reading of result types.
- `app/` holds what does input and output: the caching HTTP agent, the calls
  into the Security framework, and the lock-free queue with its stress programs.
- `tests/` runs the library on concrete values.
