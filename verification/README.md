# stasis

The decision core of a headless web shell that runs documents in virtual time, and the process around
it.

The shell speaks a line protocol: one JSON object per line in, one per line out. A session loads a
page in an engine, drives it turn by turn, settles it, acts on it, navigates it and reads it back. The
core decides what each request, each response of the engine and each wake leads to. It holds no engine,
no thread, no clock and no descriptor of its own: it is told what happened and says what to do next.

## Layout

- `src/` is the core, written in Verus. Every function states what it returns or changes, and Verus
  proves it.
  - `frame`, `request`, `members`, `writer`: frames in and out, their numbering, and the names that an
    object repeats.
  - `inbox`, `owner`: the lanes between the reader and the owner loop, and the order of a cycle.
  - `session`, `opening`, `closing`: what becomes of a request, from its admission to its end.
  - `shell`, `shell_poll`: the one active request, its waits and its deadlines.
  - `control_step`, `navigation_step`, `settle`: the steps of the operations.
  - `authority`: which documents a session holds, and when one has replaced another.
  - `engine`, `preference_names`, `operation`, `control`, `network`, `profile`, `params`: the engine's
    side as plain values.
  - `error`, `failure`, `json`, `js_value`, `text`: what is told to the peer.
  - `laws`, `shell_laws`: properties that span several functions. Others stand beside their functions.
- `tests/` runs the core on concrete values.
- `app/` is the process: the reader thread, the owner loop, and the adapter to Servo.

## Questions and answers

Some decisions need a service of the engine: the settlement coordinator, the public projection, the
comparison of documents. A step that needs such an answer returns the question and leaves everything as
it was. The host gets the answer and repeats the call. `laws` proves that a question changes nothing
and that nothing is asked twice.

## What is believed without proof

Calls into `serde_json`, `url` and the standard library stand behind small functions marked
`external_body`. The comment above each names the call and says what is claimed of it.
