# clippa

The verified core of Clippa, a desktop YouTube clipper: it recognises video
URLs, decides what metadata and thumbnail a video gets, names the clip files,
builds the yt-dlp command lines, and builds the records and answers that the
app hands to its front end.

Layout:

- `src/video_id.rs`: the URL grammars and `extract_video_id`, with the laws of
  the grammars (leftmost match, standard forms before shorts, round trips of
  the canonical URL forms).
- `src/thumbnail.rs`: thumbnail URLs, decimal parsing of `content-length`, and
  the choice between the maxres and hq thumbnails.
- `src/metadata.rs`: `MetadataFetch`, the decisions of a metadata fetch as a
  state machine; the caller runs yt-dlp and the thumbnail probe.
- `src/clip.rs`: safe titles, file names, download arguments, clip records.
- `src/download.rs`: `ClipDownload`, the order of a clip download's steps as a
  state machine, and the unit in which a file size is shown.
- `src/transcription.rs`, `src/paths.rs`: the transcription service's endpoints
  and answers; the downloads directory.
- `src/outside.rs`: the trusted wrappers around serde_json, uuid, chrono and
  std, each with the contract that it is believed to meet.
- `app/lib.rs`: the commands with their process, file, network and SQLite
  work, and the serde copies of the library's types.
