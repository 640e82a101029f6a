# dns-filter

A DNS filtering daemon whose decisions are verified with [Verus](https://github.com/verus-lang/verus).

The library in `src/` holds what the daemon decides and computes: which configuration is
valid, which request is admitted, what is sent to an upstream server and what is made of
its answer, when a certificate is renewed, which statement is sent to the database. Each
function states in its contract what it returns, and each property that spans several
functions stands beside them as a proof function whose name begins with `law_`.

The program in `app/` does what is left: it opens sockets and files, parses arguments and
the configuration file, waits for signals, and runs the tasks. It hands plain values to the
library and acts on what comes back.

## Layout of the library

| module           | what it holds                                                          |
| ---------------- | ---------------------------------------------------------------------- |
| `acme`           | obtaining and renewing certificates, DNS-01 records, DER dates          |
| `config`         | the settings and their defaults, validation, merging of YAML documents  |
| `control`        | the commands of the control socket                                      |
| `daemon`         | the command line, the order of the start, the end                       |
| `database`       | the statements of the repositories, their records, SQLite URLs          |
| `entities`       | query log, plugins, resolution strategies                               |
| `listeners`      | DoT, DoH, the REST API, the admin pages, MCP, metrics, authentication   |
| `logging`        | log levels and outputs, the syslog formats and transports               |
| `metrics`        | the counters and what is read from them                                 |
| `net`, `text`    | addresses and texts                                                     |
| `pem`, `tls`     | key material, self-signed certificates, TLS settings                    |
| `plugin_runtime` | the plugins that are loaded                                             |
| `privileges`     | giving up the privileges of the superuser                               |
| `upstream`       | plain DNS, DoT, DoH, DoQ and recursive resolution, routing of sockets   |

## What is trusted

Functions marked `external_body`, and the declarations that begin with
`assume_specification`, call other crates or the standard library. The comment above each
of them says what is claimed of the call. Where a result is too long to state, a spec
function without a body names it, and a function beside the call takes the result as an
argument, so that what follows the call is stated for every result.

## Tests

`tests/` runs the library on concrete values: the scenarios of each module, an example of
each law, and the statements of the repositories against an SQLite database in memory.
