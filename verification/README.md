# phira (home and ranked pages)

`src/` is a Verus-verified library that holds the decisions of Phira's home page
and ranked page; `app/` holds the pages themselves (widgets, drawing, network
tasks, saved data) and calls the library for every decision.

- `text`: substring search, decimal rendering, white-space trimming.
- `page`: page-stack requests and the ranked page's state.
- `touch`: the step-by-step routing of a touch through the home page's controls,
  with its laws (termination, route, no page opened over the character screen).
- `session`: when the page may ask the server, and failed session restores.
- `updates`: client flavor, update offer (semver), bold font answers.
- `board`: choosing the next illustration for the board without repeats.
- `home`: the home page's decision state.
