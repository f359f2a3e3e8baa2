# browser_capture

Recording and live view of a browser page, with the decisions verified by Verus.

The library in `src/` never waits and never talks to anything. Each of its loops is a state
machine: it takes what happened and says what is wanted next. Its contracts say exactly what that
is, and its laws say what holds over many steps.

- `text`, `encoding`, `json`, `cdp`: texts, bytes as text, JSON documents, and the commands and
  events of the browser.
- `recording`: whether a recording runs (`state`), the switches that steer it (`control`), the
  settings (`settings`), the encoder's command line (`ffmpeg`), the images (`frames`), the video
  that is made of them (`writer`), opening sessions (`targets`, `attach`), following a screencast
  (`capture`) or taking screenshots (`screenshots`), and a recording from start to end (`task`).
- `stream`: the messages for viewers (`messages`) and how they are told apart (`classify`), the
  live view that runs while somebody watches (`preview`), sending it elsewhere (`sink`), and the
  switch that ends both (`shutdown`).

`app/` runs these machines on tokio: it performs the requests, measures time, and converts times
in seconds, which are floating-point numbers, to the slots of the video. `tests/` runs the library
on concrete values.
