# media_manager_client

Worker client for the MediaManager server: it polls the server for jobs,
downloads each job's input, transcodes it with ffmpeg, uploads the output
and reports the outcome.

- `src/` is the verified library (Verus): the job payload model, the
  configuration, its endpoint and job claim URLs, the job file paths, the
  ffmpeg command lines and encoder
  search, the poll-loop sleep schedule and the per-job step sequence.
- `app/` is the program around it: environment, HTTP, files, ffmpeg
  processes, worker threads and logging.
- `tests/` runs the library on concrete values.
