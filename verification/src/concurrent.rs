use vstd::prelude::*;

verus! {

// Concurrency in this crate lives in the worker pool at the crate root,
// whose coordination is specified and checked there; the notes below record
// the two marker concepts the pool's design rests on.

/// `Send` marks what may move between threads and `Sync` what may be shared
/// among them; both are automatic for types built from such parts, and the
/// pool's jobs and handles are. Nothing is computed here.
pub fn sync_send_demo() {
}

/// Asynchronous tasks suspend at await points instead of blocking a thread;
/// the worker pool at the crate root
/// coordinates threads, not tasks, so nothing is computed here.
pub fn async_await() {
}

} // verus!
