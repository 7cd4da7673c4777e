# neumusic

A desktop audio downloader and converter: it downloads a track or a playlist with
yt-dlp, or takes a local file, and converts it with ffmpeg to MP3 (at most 192 kbps)
or OGG (at most 208 kbps), optionally with leading silence and a re-encode at a
fixed bitrate.

## Layout

- `src/` is the library, verified with Verus. It holds what the program decides:
  the processing run as a state machine (`pipeline`) and the laws it keeps
  (`pipeline_laws`), the download steps (`download`), the ffmpeg and ffprobe
  command lines (`ffmpeg`), the choice of files in the output directory and of
  leftovers to remove (`selection`), file names and paths (`path`), text handling
  (`text`), the texts of the window in seven languages (`lang`, `messages`),
  update checks (`updates`), start-up details and the clipboard programs (`setup`),
  decoding the window icon and spectrogram pictures (`icon`)
  and the state of the window (`app`).
- `app/` is the program around it: the egui window, threads, processes, files and
  network, each performing what the library asks for.
- `tests/` runs the library on concrete inputs.
