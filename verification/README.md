# CPU frequency applet

A panel applet for the COSMIC desktop that shows the CPU's frequency and usage and sets
turbo boost, governor, energy preference and frequency limits.

- `src/` is the library: the decisions, verified with Verus, but for those on floating
  point, which stand in `app/`.
  - `text`: trimming, lines, words and numbers.
  - `label`: display labels for the kernel's names.
  - `config`: the settings.
  - `cpu`: what the kernel's files tell of the CPU and the machine.
  - `usage`: CPU and memory usage; `stat_laws`: the counters read are those written.
  - `helper`: the commands of the privileged helper and its installation.
  - `state`, `applet`: the state, and how messages and replies change it.
  - `page`: the parts of the popup, and the messages they send; `view`: what the panel and
    the popup show.
  - `laws`: what holds over several steps.
- `app/` is the program around it: files, processes, floating point (averaging, rounding and
  formatting frequencies and shares), widgets.
- `tests/` runs the library on concrete values.

Frequencies are values of a type parameter. The library carries and orders them by core; it
does not compute on them.
