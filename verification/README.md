# job_engine

A job engine: stateful jobs are built, queued behind one another, run step by
step, paused, shut down and picked up again later.

The library under `src/` holds every decision of a run and is verified with
Verus. It waits for nothing and sends nothing: a caller spawns tasks, reads
channels, encodes states and stores reports, tells the library what happened,
and carries out what the library answers. `app/` is such a caller, on top of
tokio.

| Module     | What it holds                                                    |
|------------|------------------------------------------------------------------|
| `stateful` | what a kind of job says of itself; a job whose kind is forgotten |
| `job`      | a job: built, queued behind another, brought back from a report  |
| `engine`   | a run as a whole, one turn at a time                             |
| `run`      | what a run works with between its steps and in them              |
| `phase`    | one part of a run, while its task runs and the worker speaks     |
| `children` | the queue of a job: its reports stored, its jobs paused, canceled |
| `output`   | what the parts of a job hand back                                |
| `metadata` | what a job learns and leaves behind                              |
| `report`   | the record of a job and its progress                             |
| `worker`   | the worker's commands, and how a job identifies itself           |
| `error`    | how a job can end other than well                                |
| `text`     | the few texts that the engine writes                             |
| `outside`  | types and calls that are taken on trust                          |
| `laws`     | what holds of the engine as a whole                              |
