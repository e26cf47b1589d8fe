# iris_dev_core

The verified core of `iris-dev`, an MCP server and command-line tool that lets
AI assistants compile, test, read, write and debug ObjectScript on a live
InterSystems IRIS instance over the Atelier REST API.

- `src/` is the library, verified with Verus: Atelier URL building, the
  discovery cascade's decisions and container ranking, the reading of VS Code
  and `.iris-dev.toml` settings, the temporary executor class and the cleanup
  of `iris session` output, the ObjectScript and SQL each tool sends and the
  reading of IRIS replies, source-control dialogs, manifest resolution and the
  lock file, and the checks made on generated classes.
- `tests/` runs the library on concrete inputs.
- `app/` is the `iris-dev` binary: argument parsing, HTTP and `docker exec`
  calls, file reading, and the MCP server, all built on the library.
