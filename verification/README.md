# iron_shell

The logic of Iron Shell, a small graphical command shell, as a verified
library, with the window, the file system and the processes around it in
`app/`.

- `src/parser.rs`: command lines to pipelines (words, quotes, escapes, `|`,
  `<`, `>`), specified as a character-by-character tokeniser;
  `src/parser_laws.rs` proves that no parse yields an empty word, that a
  line without quotes, escapes or operators splits on spaces and tabs, and
  how quotes, escapes, pipes and redirections read.
- `src/executor.rs`: how a pipeline runs (a lone built-in in the shell,
  otherwise chained processes) and what the shell shows afterwards.
- `src/builtins.rs`: the arguments, usage answers and failure messages of
  `cd`, `exit`, `create`, `delete`, `list`, `read`, `copy`, `move`,
  `rename` and `hi`.
- `src/session.rs`: the history shown in the window, the prompt's folder and
  the handling of a submitted line.
- `src/startup.rs`: the welcome screen.
- `src/text.rs`: trimming, prefixes and decimal numbers.
- `app/`: the egui window, the file system calls, process spawning and the
  system facts read through sysinfo.
