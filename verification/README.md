# aadk

The logic of an Android development kit's workflow service and of its graphical interface, written
and proved in Verus.

- `src/` is the verified library.
  - `pipeline` plans a multi-step run, carries it from request to answer, and says what is published
    and recorded on the way.
  - `worker` turns each command of the interface into requests and each answer into what is shown.
  - `routing` says what an event changes and shows; `forms` make commands of what is typed;
    `screen`, `ui_state`, `ui_events`, `config` and `context` hold what the pages show and keep.
  - `job_events`, `project`, `model`, `util` and `text` are what the others stand on.
- `tests/` run the library on concrete values.
- `app/` is the program around it: windows, services reached over the network, and files. Its first
  argument `workflow` starts the workflow service; without it the interface starts.

Services are reached at `127.0.0.1:50051` to `127.0.0.1:50057`; `AADK_JOB_ADDR` and its sisters set
other addresses. Data is kept under `~/.local/share/aadk`.
