# Diorama

The decisions of an image viewer and editor window, written in Rust and proved
with Verus.

A window is a value: what it knows of its image, its active tool, what the
pointer has hold of, the numbers under which background work runs, and the
places of its files. Everything that happens (a key, a click, a finished
render, a report on a folder) is a method of `ViewerWindow`. The method changes
the value and queues `Effect`s, which the surroundings carry out in order and
answer with further events. Each method is proved to do what a specification
function of the same name on `WindowView` says.

## Layout

- `src/` is the verified library.
  - `window`, `effect`: the state of a window and what it asks for.
  - `opening`, `load`, `navigation`, `directory`, `animation`: the image and
    the files around it.
  - `tool`, `active_tool`, `keys`, `key_input`, `keyboard`, `pointer`,
    `actions`, `menu`: tools and how they are used.
  - `pencil`, `annotation`, `selection`, `region`, `mesh`: what is drawn and
    marked.
  - `zoom`, `scaling`, `scale`, `canvas_resize`, `fullscreen_preview`: sizes.
  - `compare`, `export`, `print`, `document`, `preferences`: comparing, saving,
    printing and undoing.
  - `file_state`, `presentation`, `description`, `color`, `text`: files, texts
    and colours as values.
  - `pixels`, `preview_cache`: pixels of the `image` crate, and the pictures
    that an `lru` cache keeps.
  - `invariants`, `event_laws`, `tool_laws`, `load_laws`: what holds of every
    window.
- `tests/` runs the library on concrete values.
- `app/` puts a window on the screen with GTK 4 and libadwaita. It draws,
  measures in floating point, and reads and writes files; `extras/window.ui`
  and the other files there describe its widgets.

Two things are taken on trust: what `pixels` says of `image::RgbaImage` and
`image::imageops`, and what `preview_cache` says of `lru::LruCache`. The doc
comments there say which functions are meant and what is claimed of each.
