# smtc2web-dev

A command line preview server for smtc2web themes. It serves a theme's files, or puts itself in
front of the dev server of the theme's web framework, and it tells the page which song is being
played on this machine under `/api/now`. To each page of a theme it adds a script that opens a stream
of events, and it sends an event on that stream when the theme's files change. The event has no name,
and the script reloads the page at an event named `reload`.

## Layout

- `src/` is the library: everything the program decides, verified with Verus.
  - `server`, `page`, `watch`: where a request goes and what it is answered, the script that is added
    to a page, and when an event is sent.
  - `proxy`: the headers of requests and answers that are passed on.
  - `framework`, `port`, `ready`: which dev server a theme has, how it is started, on which port it
    answers, and how long it is waited for.
  - `media`: which player is followed, what is told of its song, and the cache of album art.
  - `config`, `document`, `encode`, `song`, `text`: settings, documents, data URIs, the song record
    and text primitives.
- `app/` is the program around it: command line, files, processes, sockets, D-Bus and Windows media
  sessions.
- `tests/` runs the library on concrete values.

## What is proved

Each function states in its contract what it returns or changes for every input that it takes. What
holds across functions is stated by public proof functions at the end of each module: that a request
for the song is answered whether or not there is a dev server, that nothing outside the theme's
directory is served, that a page keeps its bytes when the script is added, that a burst of changes
is told once, that a session is subscribed to in full or not at all, and so on.

Calls into other crates and into parts of std stand behind small functions marked
`external_body`, or `assume_specification` items. Their doc comments say what is taken for granted of
each.

The percentage of a song that has been played is computed in `app/`, in floating point, from the
whole seconds that the library provides.
