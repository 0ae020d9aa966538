# Chrono Forge

A personal time tracker: projects, tasks, time entries, a running timer, a
daily report, CSV export and import, and a command line.

- `src/` is the verified library. The domain lives in stores held in memory
  (`in_memory_*_repository`), the services that work on them
  (`project_service`, `task_service`, `time_entry_service`,
  `user_settings_service`, `report_service`), unique naming
  (`naming_service`), the overview and the requests of the terminal
  interface (`app_view_context`), the command line (`cli`), the rows of the
  database and of the CSV files (`db_rows`, `csv_rows`, `csv_serializer`), and
  the configuration (`config`). `laws` states what the operations keep.
  Calls into chrono, uuid, directories and dirs stand behind small trusted
  functions in `clock`, `ids`, `config` and `csv_serializer`.
- `app/` is the program: clap parses the command line, the SQLite database is
  read into the library's stores before a command and written back after it,
  and the configuration file and the CSV files are read and written there.
- `tests/` holds the tests of the library.
