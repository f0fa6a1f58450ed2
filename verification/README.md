# bunny_manager

A plugin manager for Monster Hunter Frontier Z, with its decisions verified
by Verus.

- `src/` is the verified library: the game's addresses per edition, plugin
  file recognition, the load states of a plugin and the steps of loading it,
  the refresh of the plugin list, shared texture loading, fonts, frame and
  plugin timings, folder paths, the autosave and cursor rules, and the first
  generation of the manager (`classic`).
- `app/` is the library injected into the game: the Windows entry point,
  hooks on the game and on Direct3D 9, egui drawing, the configuration file,
  and the file and plugin library work. It calls `src/` for every decision.
- `tests/` runs the library on concrete values.

Time is handed to the library as nanoseconds of a monotonic clock; frame
rates and running averages, which are floating point, stay in `app/`.
