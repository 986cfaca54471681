# neuronprompter

The verified core of NeuronPrompter, a prompt and script manager with a
REST API, multi-user sessions, a clipboard history, JSON/Markdown
import and export, script file synchronization and a local Ollama
integration.

`src/` is checked by Verus. Each public function states what it returns in
`ensures`, over spec functions and views; the public `lemma_*` proof
functions state the laws that relate several functions.

| module         | what it decides                                                        |
|----------------|------------------------------------------------------------------------|
| `errors`       | domain, service and API errors; status codes and client messages      |
| `access`       | session extraction, ownership and user checks, shutdown token         |
| `session`      | the bounded session store, its lifetime and eviction, session cookies |
| `token`        | hexadecimal session tokens                                             |
| `clipboard`    | per-user clipboard history, newest first, bounded                     |
| `requests`     | request bodies: toggles, bulk updates, version choice, settings keys, search overrides, chain variables, session answers |
| `settings`     | partial settings updates and the `extra` JSON field                   |
| `associations` | association sync plans, taxonomy ownership, bulk update checks        |
| `changes`      | whether an update changes anything, chain step references, imported version numbers |
| `copy`         | cross-user copy: titles, step planning and remapping, the steps of a copy run, copy summary |
| `export`       | export envelope, front-matter, import summary                         |
| `markdown`     | Markdown bundle files: front-matter split, file names, limits         |
| `files`        | file names and languages, source file checks, sync bookkeeping        |
| `metadata`     | combining the replies of the metadata questions                       |
| `ollama`       | Ollama endpoints, requests, instructions, streamed lines              |
| `server`       | bind address exposure and the cross-origin policy                     |
| `text`         | string helpers (decimal rendering, trimming, integer parsing)        |

`app/` is plain Rust around the library: the axum server plumbing, the
reqwest client for Ollama, file access, the rate limiter (floating point)
and the serde forms of the exchange types.

`tests/` runs the library on concrete values.
