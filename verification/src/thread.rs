//! Threads inside an SGX enclave: what the enclave decides on its own, apart
//! from the calls that leave it.
use vstd::prelude::*;
use crate::thread::wait_notify::{Notifier, Waiter};

pub mod wait_notify;

verus! {

/// The kinds of I/O error that the enclave's thread operations meet.
#[derive(Clone, Copy, PartialEq, Eq, Structural)]
pub enum ErrorKind {
    /// The platform does not offer the operation.
    Unsupported,
    /// The operation would have blocked.
    WouldBlock,
    /// Any other kind.
    Other,
}

/// The smallest stack that a new thread gets, in bytes.
pub const DEFAULT_MIN_STACK_SIZE: usize = 4096;

/// Sends the signal when the task has finished: it holds the notifier until
/// then.
pub struct JoinNotifier(pub Option<Notifier>);

/// A thread of the enclave: the waiting side of the signal that its task
/// sends when it finishes.
pub struct Thread(pub Waiter);

/// A task waiting for a thread to run it: the job (named by a number) and
/// the notifier that signals its end.
pub struct Task {
    pub job: u64,
    pub done: JoinNotifier,
}

impl Task {
    /// A task for `job`, with a new signal on the parker `parker`: the task
    /// holds the sending side, the waiting side is returned as the handle to
    /// join it.
    pub fn new(job: u64, parker: u64) -> (r: (Task, Waiter))
        ensures
            r.0.job == job,
            r.0.done.0 matches Some(n) && n.parker == parker,
            r.1.parker == parker,
    {
        let (notifier, waiter) = wait_notify::new(parker);
        (Task { job, done: JoinNotifier(Some(notifier)) }, waiter)
    }

    /// Runs the task: the job to run, and the notifier to signal once the
    /// thread is done with it.
    pub fn run(self) -> (r: (u64, JoinNotifier))
        ensures
            r.0 == self.job,
            r.1 == self.done,
    {
        (self.job, self.done)
    }
}

/// The tasks waiting for a thread, the latest last.
pub struct TaskQueue {
    pub tasks: Vec<Task>,
}

impl Thread {
    /// Starts a thread for `job`: the task goes onto the queue once the
    /// enclave's host has launched a thread (`launched`); its error is
    /// passed on, and then nothing is queued.
    pub fn new(queue: &mut TaskQueue, job: u64, parker: u64, launched: Result<(), ErrorKind>) -> (r: Result<
        Thread,
        ErrorKind,
    >)
        ensures
            match launched {
                Err(e) => r == Err::<Thread, ErrorKind>(e) && final(queue).tasks@ == old(queue).tasks@,
                Ok(()) => {
                    &&& r matches Ok(t) && t.0.parker == parker
                    &&& final(queue).tasks@.len() == old(queue).tasks@.len() + 1
                    &&& final(queue).tasks@.drop_last() == old(queue).tasks@
                    &&& final(queue).tasks@.last().job == job
                    &&& final(queue).tasks@.last().done.0 matches Some(n) && n.parker == parker
                },
            },
    {
        match launched {
            Err(e) => Err(e),
            Ok(()) => {
                let (task, handle) = Task::new(job, parker);
                queue.tasks.push(task);
                assert(queue.tasks@.drop_last() =~= old(queue).tasks@);
                Ok(Thread(handle))
            },
        }
    }

    /// The start of a new thread: it takes the latest task of the queue.
    /// A thread started without a task is a fault of the runtime, on which
    /// the enclave aborts.
    pub fn entry(queue: &mut TaskQueue) -> (r: Task)
        requires
            old(queue).tasks@.len() > 0,
        ensures
            r == old(queue).tasks@.last(),
            final(queue).tasks@ == old(queue).tasks@.drop_last(),
    {
        queue.tasks.pop().unwrap()
    }
}

impl Thread {
    /// Names the current thread. The enclave keeps no thread names, so this
    /// changes nothing.
    pub fn set_name(name: &[u8]) {
    }

    /// Whether the answer to the non-blocking wait that yields the processor
    /// is the expected one: an error of kind `WouldBlock`. Any other answer
    /// is a fault of the runtime, on which the enclave aborts.
    pub fn yield_answer_ok(answer: Result<u64, ErrorKind>) -> (r: bool)
        ensures
            r == (answer == Err::<u64, ErrorKind>(ErrorKind::WouldBlock)),
    {
        match answer {
            Ok(_) => false,
            Err(kind) => kind == ErrorKind::WouldBlock,
        }
    }
}

/// The number of threads that can usefully run at once: the enclave cannot
/// tell, so the answer is always an `Unsupported` error.
pub fn available_parallelism() -> (r: Result<usize, ErrorKind>)
    ensures
        r == Err::<usize, ErrorKind>(ErrorKind::Unsupported),
{
    Err(ErrorKind::Unsupported)
}

} // verus!
