# circleci-tui-rs

A keyboard-driven terminal interface for CircleCI pipelines, workflows and
jobs, whose decision logic is a library verified with Verus.

## Layout

- `src/` — the verified library.
  - `application.rs` — which screen and popups are shown, how a key is routed
    among them, and what each result of background work does.
  - `screens/` — the pipeline list (filters, search, branch list), the
    pipeline detail screen (workflows, jobs, paging, copying log lines), the
    workflow screen, and the line-range syntax for copying.
  - `widgets/` — text input, faceted filter bar, log popup, log viewer,
    modals, spinner, status bar.
  - `cache/` — validity and expiry of cached job logs, the file names and
    contents written, and which logs to fetch ahead.
  - `api/` — the data model, API errors, the sample pipelines, and the
    client: request addresses and what an answer's status and body mean.
  - `preferences.rs`, `config.rs`, `git.rs`, `report.rs`, `theme.rs`,
    `text.rs`, `keys.rs`, `clock.rs` — saved preferences, configuration
    checks, the branch CircleCI sees, the failed-jobs report, status icons
    and colours, string helpers, key events, and clock readings.
- `tests/` — tests of the library on concrete values.
- `app/` — the program: terminal, event loop, drawing, clipboard, files,
  environment, git access and HTTP requests for the pipeline list. It hands
  keys, answers and results to the library and carries out the copying,
  caching and loading the library asks for. Workflows, jobs and logs are
  not fetched over HTTP, and the failed-jobs report the library can build
  is not written by the program.

Contracts are stated over `Seq`, `Map` and spec functions; laws that relate
several operations (saved filters restore, a stored log reads back, typing
then Backspace, scrolling there and back, and others) are public proof
functions next to the code they are about.
