# yt_downloader

A front end for yt-dlp. The library (`src/`, verified with Verus) holds:

- `options`: download options, the audio quality presets, and the yt-dlp
  command line built from them;
- `monitor`: reading yt-dlp's progress lines and the events of a download;
- `progress`: the progress bar of the terminal program, driven by regular
  expressions over yt-dlp's output;
- `terminal`, `cli`, `args`: the command lines and menus of the two terminal
  programs;
- `gui_state`: the state and activity log of the desktop window;
- `digits`, `text`, `pattern`, `clock`: decimal and clock text, and the
  standard, path, regex and clock operations the rest relies on.

`app/` runs the processes, the prompts and the progress bar.

The desktop window is not built: its toolkit crates (eframe, egui, rfd) are
not available to this build. Its state and decisions are in `gui_state`; the
drawing is not written.
