# mayara

The core of a server for marine radars. It finds Navico, Furuno, Raymarine and Garmin radars by their
beacons, reads their reports and lines of sight, turns requests of clients into commands, and decides
what clients are told.

- `src/` is the library. It holds everything that decides or computes, with contracts that Verus
  proves:
  - `control_id`, `definition`, `control`, `controls`: what can be controlled, and the values of it;
  - `request`, `control_value`, `units`, `number`, `value`: requests of clients and values for them;
  - `subscription`, `metadata`, `stream`, `web`: who is told what, and when;
  - `radar`, `range`, `config`, `network`, `brand`, `legend`, `spoke`, `cartesian`: radars, what is remembered
    of them, and how they are shown;
  - `navico`, `raymarine`, `furuno`, `garmin`: the languages of the radars.
- `tests/` runs the library.
- `app/` is the server around it: the command line, sockets, files, the web server, JSON, and
  floating point arithmetic.

Numbers that clients see are doubles. The library does no arithmetic on them: it gets them as
`Number`, which holds what comparisons need, and decides what is done with them.

Where an outside crate does part of the work, a wrapper in `src/` states what it is trusted for:
`wildmatch` (patterns in subscriptions), `itoa` (ids of controls), `http` (the host in a header) and
`ndarray` (the table of points).
