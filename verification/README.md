# amity-service

The household hub's HTTP service: inbox, tasks, events, calendars, meals,
groceries, the pantry and members, with the Today and Week views and two
background jobs.

- `src/` is the library. It holds the rules of every endpoint and job as
  functions from plain values to plain values, each with a contract that Verus
  proves. An endpoint is a chain of such functions: the first takes the request,
  the next ones take what storage answered.
  - `text`, `dates`, `ids`: trimming and tags, the calendar and RFC 3339 times,
    UUIDs.
  - `model`: what the household stores.
  - `reply`, `routes`: status codes, refusals, and the method and path of each
    endpoint.
  - `api`: the endpoints.
  - `feeds`, `horizon`, `jobs`: the download rules for feeds, the window that
    recurring things are laid out over, and the jobs as chains of stages.
- `app/` is the program around it: configuration, the router, JSON, the feed
  download, the job loops, and the backend over the `amity_storage` and
  `amity_core` crates.
- `tests/` drives the library's functions against stores held in memory.

What the library takes on trust is marked `external_body`: the calls into the
`time` and `uuid` crates and into the standard library, each with a comment that
says what is claimed of it.
