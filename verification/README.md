# mud_saver

A savegame manager for MudRunner and SnowRunner: it archives the games'
savegames under names the user chooses and restores them on request,
through a small web interface.

- `src/` is the library, verified with Verus: the error model and how each
  error is answered, the settings and their defaults, the bookkeeping of
  archived MudRunner savegames and SnowRunner backups, and the decisions
  taken around the work on the file system.
- `app/` is the program around it: the web server and its pages, the file
  system, JSON storage and zip archives.
- `tests/` exercises the library on concrete values.

The pages are served to the user's browser. There is no build with a window
of its own (web-view): that front end, and the Windows calls it needs, are
not part of this project. No page restores a MudRunner savegame yet; the
library says where such a restore writes (`MudrunnerSave::restore_target`),
and the program has the copy ready for when a page asks for it.
