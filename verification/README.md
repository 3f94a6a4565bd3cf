# clap_validator

Rules for validating audio plugins that follow the CLAP interface, verified with Verus.

- A host that keeps track of plugin instances and checks on which threads plugins call it. The
  first violation is kept until somebody asks for it.
- The parameters of a plugin: asking for values, converting them from and to text, and checking that
  everything a plugin says about its parameters is consistent.

## Layout

- `src/`: the verified library. `host`, `callbacks` and `instance` hold the host; `plugin`,
  `params` and `messages` hold the parameters; `text` and `double` hold strings at a C interface and
  double precision numbers by their bit patterns; `clap` ties the constants of the interface to
  `clap_sys`. What holds of the host and of the parameters as a whole is proved in `host_laws` and
  `param_laws`.
- `app/`: the C side. Function tables, raw pointers, locks, and the calls into a plugin.
- `tests/`: tests of the library.

## What is trusted

The values of the constants in `clap_sys`, that `String::from_utf8` decodes UTF-8, and what the
atomic cells of `crossbeam` are made with. Nothing is claimed of what such a cell holds later on,
since other threads may change it at any time. Functions that read cells say which cells they read
and what follows from what was read; beside them stand functions that take what was read.
