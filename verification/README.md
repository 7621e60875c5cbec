# imgconvert

Converts an image (a file, base64 text given on the command line, or bytes on
standard input) into WebP and AVIF files at several resolutions, or prints each
encoding as a JSON record.

- `src/` is the verified library: the command-line rules (`cli`, `options`,
  `trim`, `number`, `path_name`), base64 (`b64`), the image operations (`picture`,
  `encode`) and the plan of each conversion (`convert`), which is a list of
  actions (print, write a file, print a record, stop, panic).
- `app/main.rs` reads the arguments, standard input and image files, computes the
  planned sizes (in floating point), and performs the actions.
