# Transaction log files

A verified library for the files of a transaction log: appending records to a log and its dense
index, checking and repairing both, and recovering a stream at startup.

The library performs no I/O. Each operation is a small machine that names the next request (read,
write, flush, synchronize, set a length, decode records) and takes its outcome. Verus proves what
the machine requests, in which order, and what the files hold afterwards.

| Module | What it holds |
| --- | --- |
| `location` | File numbers, byte positions, record starts and ends, and how they follow from record identities. |
| `record`, `index_entry`, `text` | Record identities and lengths, the encoding of index entries, text of messages. |
| `file`, `output` | Requests to a file with a model of its contents, and a byte batch that is sent exactly once. |
| `index_writer`, `indexed_log_writer` | Buffered, ordered output to an index, and to a log together with its index. |
| `validation` | Recovery of one log, one index, and a log with its index. |
| `indexed_log_validator` | Validation that changes nothing, followed by repairs on demand. |
| `stream_initializer` | Startup of one stream: checkpoint, recovery, cleanup, active pair. |
| `reopening` | Recovery finds what was written. |

`tests/` runs the machines against files in memory. `app/` performs the requests asynchronously on
real files, and holds storage, metadata and error types that need other crates.
