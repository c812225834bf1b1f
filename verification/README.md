# zerofs

Start-up, supervision and shutdown of a ZeroFS server, verified with Verus.

A ZeroFS server opens a database in an object store, read-only or for writing,
brings up a file system on it, serves that over NFS, 9P and NBD, and keeps a few
tasks running beside the servers. What it decides on the way is in `src/`:

| module | what it holds |
| --- | --- |
| `machine` | state machines that turn events into actions, and their traces |
| `config` | the configuration as plain values |
| `servers` | the servers that a configuration asks for |
| `provider_options` | the options that are handed to the object store |
| `object_path` | paths in the object store |
| `text` | paths and lower case |
| `database` | settings of the database, and the steps that open it |
| `checkpoint_refresh` | the task that keeps a read-only server up to date |
| `filesystem` | the steps from the settings to a file system |
| `nbd_directory` | the steps that provide the directory of NBD devices |
| `background` | garbage collection and statistics |
| `composition` | laws that join the database, its refresh, the start-up and the process |
| `server` | the life of the process: start-up, service, shutdown |

Each sequence of steps is a `Machine`. It says what to do next when it is told how
the last thing went, so that what it does is known for every outcome of every
step. The laws of a machine are proof functions over its traces: for instance that
a read-only server never flushes, that the database is opened only after the
password was accepted, and that a server that can write is flushed before it is
closed.

`app/` performs the actions with tokio and SlateDB. It reaches the file system,
its protocols and the configuration file through the traits in `app/host.rs`.
