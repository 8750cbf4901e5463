# deno_desktop

The decisions behind `deno desktop`, verified with Verus.

A desktop build mixes decisions with a good deal of outside work: detecting a
framework, compiling, packaging, running a backend under an inspector. The
library holds the decisions. `pipeline` and `launch` are state machines that
name the next action and go on by what came of it; the other modules hold what
they decide by:

- `config`, `flags`: how the configuration fills in the flags, and the builds
  that a run consists of
- `installer`, `requests`, `packaging`: the installers that an output asks for
- `deep_links`: the URL schemes that an app may register
- `dev`, `paths`, `path_rules`, `framework`, `compile`: names, directories and
  compiler flags
- `report`, `error`: what is shown in the end
- `platform`, `text`: target systems and strings

`app` does the outside work, with the services of the surrounding command-line
program.

What the contracts rest on without proof is little: a few string and path
functions of the standard library, SHA-256 and hexadecimal encoding, and the
conversion of paths to URLs. Each stands behind a function or a specification
whose comment says what is claimed of it.
