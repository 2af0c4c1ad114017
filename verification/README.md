# koharu-server

A standalone HTTP service that translates comic pages. `src/` is its core, written in Verus: what
it decides and how it answers is stated in contracts and proved. `app/` is the program around it:
sockets, files, the command line of the process, and the page pipeline.

## Endpoints

| Endpoint | Request | Answer |
|---|---|---|
| `POST /translate` | multipart form with an `image` field | the translated page as PNG |
| `POST /translate-path` | `{"input_path": "...", "output_path": "..."}` | `{"status":"ok"}`, with the PNG written to `output_path` |
| `GET /health` | | the selected device and its memory |

Errors are answered as `{"error": message}`: 400 for an unusable request or image, 422 for a file
that cannot be read or written, 503 once `--max-queued` requests wait or run, 500 for anything else.

## Layout

- `exchange`, `handlers`: one request to a translate route as a state machine.
- `runs`: what holds of every request, whatever happens to it.
- `translate`, `page`: one page on its way through the pipeline; image files.
- `state`: the queue gate and the counters.
- `error`, `reply`, `health`, `json`, `text`: what is answered, to the last character.
- `cli`, `config`: the command line and the start of the service.

The contracts rest on those of a few functions of `clap`, `image`, `serde_json` and `tokio`. Each
stands behind a declaration whose comment says what is taken for granted.
