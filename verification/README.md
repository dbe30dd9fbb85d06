# tism

Shared memory between processes: one publisher creates and writes an allocation, any number of
consumers open and read it, and a process-shared read/write lock keeps them apart.

- `src/` is the verified library. It takes every decision of the protocol: the header a new
  allocation starts with and the checks a consumer applies to it (`header`), the order of the
  operating system calls for creating and opening an allocation and what each result means
  (`create`, `open`), the lock results (`lock`), change tracking and staleness (`tracker`,
  `time`), object names (`name`), byte transfer for allocations of run-time size (`dynamic`), and
  the lazily allocating publisher handle (`lazy`). Laws that span several calls are proved as
  public proof functions beside the code they speak of.
- `app/` is the public interface built on it: it makes the `libc` calls, holds the raw mappings
  and the lock guards, and hands each result back to the library.
- `tests/` runs the library on concrete values.
