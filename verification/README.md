# forge

Forge plans work in cycles: a cycle holds objectives, an objective holds key
results (measured by check-ins) and projects, a project holds tasks, and each
day has a page of the tasks that are due, overdue, under way or finished.

`src/` is the verified library. Every function states its behaviour in
`requires`/`ensures` over mathematical models (Julian days, nanosecond
instants, 128-bit identifiers, maps from identifier to entity view), and
Verus proves the code against it.

- `calendar`, `ids`, `title`, `text`, `status`, `progress`, `util`: the value
  types and their rules.
- `cycle`, `objective`, `key_result`, `check_in`, `project`, `task`,
  `daily_execution`, `review`: the entities and their state machines.
- `repos`: the storage each use case needs, as traits with contracts over a
  map model. The use cases' guarantees hold for any store that meets these
  contracts; the SQLite stores in `app/` are plain Rust and are not checked
  against them.
- `services`, `parent_progression`: the use cases; a refused request leaves
  every store as it was.
- `api`, `convert`, `logging`: how requests are read and errors answered.
- `desktop`: version comparison, installer selection, the file names of the
  desktop shell, and the steps by which it brings its server up.

`app/` is the HTTP server around the library: configuration, SQLite storage,
routes, JSON bodies, and the floating-point progress of key results.
