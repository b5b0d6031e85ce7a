//! Model of the two worker pools that carry a resource load: a small disk
//! pool for reads and a compute pool for decoding, plus the future type that
//! bridges them. The pools' threads live outside this crate; what is verified
//! here is the discipline they must follow: work is queued in submission
//! order, a task's result is delivered exactly once, and the disk-to-compute
//! chain only dispatches the second stage once the first has succeeded.

use vstd::prelude::*;

verus! {

/// Number of workers in the disk pool: a small constant, since parallel
/// reads mostly contend on the same device.
pub const DISK_POOL_WORKERS: usize = 2;

/// Relies on num_cpus::get: the number of logical cores, documented to be
/// at least 1.
#[verifier::external_body]
fn logical_cpu_count() -> (n: usize)
    ensures
        1 <= n,
{
    num_cpus::get()
}

/// Size of the compute pool for a machine with `cores` logical cores: all of
/// them but one, which is reserved for the thread that polls, and never less
/// than one worker.
pub open spec fn compute_pool_size_spec(cores: int) -> int {
    if cores > 1 {
        cores - 1
    } else {
        1
    }
}

pub fn compute_pool_size(cores: usize) -> (n: usize)
    ensures
        n == compute_pool_size_spec(cores as int),
        1 <= n,
{
    if cores > 1 {
        cores - 1
    } else {
        1
    }
}

/// Compute-pool size for the machine this process runs on.
pub fn default_compute_pool_size() -> (n: usize)
    ensures
        1 <= n,
{
    compute_pool_size(logical_cpu_count())
}

/// The work queue of one pool: tasks leave it in the order they entered, so
/// a worker executes its tasks in submission order.
pub struct WorkQueue<T> {
    items: Vec<T>,
}

impl<T> View for WorkQueue<T> {
    type V = Seq<T>;

    closed spec fn view(&self) -> Seq<T> {
        self.items@
    }
}

impl<T> WorkQueue<T> {
    pub fn new() -> (q: Self)
        ensures
            q@ == Seq::<T>::empty(),
    {
        WorkQueue { items: Vec::new() }
    }

    pub fn len(&self) -> (n: usize)
        ensures
            n == self@.len(),
    {
        self.items.len()
    }

    /// Appends a task behind every task submitted earlier.
    pub fn enqueue(&mut self, task: T)
        ensures
            final(self)@ == old(self)@.push(task),
    {
        self.items.push(task);
    }

    /// Removes and returns the earliest submitted task still queued.
    pub fn dequeue(&mut self) -> (task: Option<T>)
        ensures
            old(self)@.len() == 0 ==> task is None && final(self)@ == old(self)@,
            old(self)@.len() > 0 ==> task == Some(old(self)@[0]) && final(self)@ == old(
                self,
            )@.drop_first(),
    {
        if self.items.len() == 0 {
            None
        } else {
            let t = self.items.remove(0);
            proof {
                assert(old(self)@.remove(0) =~= old(self)@.drop_first());
            }
            Some(t)
        }
    }
}

/// Where a dispatched task's result waits for its caller. A slot starts
/// empty, is filled once by the worker, and is emptied at most once by the
/// caller: after a successful take it is spent, and a spent slot can neither
/// be filled again (filling needs an empty slot) nor yield a second value.
pub enum ResultSlot<T> {
    Empty,
    Filled(T),
    Taken,
}

/// What taking from a slot does: a filled slot yields its value and becomes
/// spent; any other slot yields nothing and stays as it is.
pub open spec fn take_spec<T>(slot: ResultSlot<T>) -> (ResultSlot<T>, Option<T>) {
    match slot {
        ResultSlot::Filled(v) => (ResultSlot::Taken, Some(v)),
        _ => (slot, None),
    }
}

impl<T> ResultSlot<T> {
    pub fn new() -> (slot: Self)
        ensures
            slot is Empty,
    {
        ResultSlot::Empty
    }

    /// Delivery of the task's result, once, into the empty slot.
    pub fn fill(&mut self, value: T)
        requires
            *old(self) is Empty,
        ensures
            *final(self) == ResultSlot::Filled(value),
    {
        *self = ResultSlot::Filled(value);
    }

    pub fn take(&mut self) -> (r: Option<T>)
        ensures
            (*final(self), r) == take_spec(*old(self)),
    {
        match self {
            ResultSlot::Filled(_) => {
                let mut spent = ResultSlot::Taken;
                core::mem::swap(self, &mut spent);
                match spent {
                    ResultSlot::Filled(v) => Some(v),
                    ResultSlot::Empty => {
                        *self = ResultSlot::Empty;
                        None
                    },
                    ResultSlot::Taken => None,
                }
            },
            _ => None,
        }
    }
}

/// Law: a slot delivers a value at most once. A take that yields a value
/// leaves the slot spent, and taking from the slot it left behind yields
/// nothing; a spent slot is never empty, so it can never be filled again.
pub proof fn lemma_slot_delivers_once<T>(slot: ResultSlot<T>)
    ensures
        take_spec(slot).1 is Some ==> take_spec(slot).0 is Taken,
        take_spec(take_spec(slot).0).1 is None,
        !(take_spec(slot).0 is Empty) || slot is Empty,
{
}

/// How a disk-then-compute load can end: each stage keeps its own error
/// type, so a caller can tell a failed read from a failed decode.
pub enum DiskCpuError<ED, EC> {
    Disk(ED),
    Cpu(EC),
}

/// A future for work dispatched onto the disk pool whose output is then
/// dispatched onto the compute pool. The two levels are presented flattened:
/// the caller polls one future and sees only pending, the final value, or
/// one stage's error. `LoadingDisk` means the read is still out;
/// `LoadingCpu` means the read succeeded and the compute stage now runs.
pub enum DiskCpuFuture<T, ED, EC> {
    LoadingDisk,
    LoadingCpu,
    Ready(T),
    Failed(DiskCpuError<ED, EC>),
}

impl<T, ED, EC> DiskCpuFuture<T, ED, EC> {
    pub fn new() -> (f: Self)
        ensures
            f is LoadingDisk,
    {
        DiskCpuFuture::LoadingDisk
    }

    /// Feeds in the outcome of polling the disk-stage task. While the read
    /// is pending nothing changes; a failed read fails the whole future at
    /// once, and the compute stage is never dispatched for it; a successful
    /// read hands its output back, to be dispatched onto the compute pool.
    pub fn on_disk_poll<D>(&mut self, poll: StagePoll<D, ED>) -> (dispatch: Option<D>)
        requires
            *old(self) is LoadingDisk,
        ensures
            poll is Pending ==> *final(self) == *old(self) && dispatch is None,
            poll matches StagePoll::Done(Ok(d)) ==> *final(self) is LoadingCpu && dispatch
                == Some(d),
            poll matches StagePoll::Done(Err(e)) ==> *final(self) == DiskCpuFuture::<T, ED,
                EC>::Failed(DiskCpuError::Disk(e)) && dispatch is None,
    {
        match poll {
            StagePoll::Pending => None,
            StagePoll::Done(Ok(d)) => {
                *self = DiskCpuFuture::LoadingCpu;
                Some(d)
            },
            StagePoll::Done(Err(e)) => {
                *self = DiskCpuFuture::Failed(DiskCpuError::Disk(e));
                None
            },
        }
    }

    /// Feeds in the outcome of polling the compute-stage task dispatched
    /// after the read: its value or error is the future's final result.
    pub fn on_cpu_poll(&mut self, poll: StagePoll<T, EC>)
        requires
            *old(self) is LoadingCpu,
        ensures
            poll is Pending ==> *final(self) == *old(self),
            poll matches StagePoll::Done(Ok(v)) ==> *final(self) == DiskCpuFuture::<T, ED,
                EC>::Ready(v),
            poll matches StagePoll::Done(Err(e)) ==> *final(self) == DiskCpuFuture::<T, ED,
                EC>::Failed(DiskCpuError::Cpu(e)),
    {
        match poll {
            StagePoll::Pending => {},
            StagePoll::Done(Ok(v)) => {
                *self = DiskCpuFuture::Ready(v);
            },
            StagePoll::Done(Err(e)) => {
                *self = DiskCpuFuture::Failed(DiskCpuError::Cpu(e));
            },
        }
    }

    pub fn is_terminal(&self) -> (r: bool)
        ensures
            r == (self is Ready || self is Failed),
    {
        match self {
            DiskCpuFuture::Ready(_) => true,
            DiskCpuFuture::Failed(_) => true,
            _ => false,
        }
    }

    pub fn is_loading_disk(&self) -> (r: bool)
        ensures
            r == (self is LoadingDisk),
    {
        match self {
            DiskCpuFuture::LoadingDisk => true,
            _ => false,
        }
    }

    pub fn is_loading_cpu(&self) -> (r: bool)
        ensures
            r == (self is LoadingCpu),
    {
        match self {
            DiskCpuFuture::LoadingCpu => true,
            _ => false,
        }
    }

    /// The finished future's value or error, with the failing stage intact.
    pub fn into_result(self) -> (r: Result<T, DiskCpuError<ED, EC>>)
        requires
            self is Ready || self is Failed,
        ensures
            self matches DiskCpuFuture::Ready(v) ==> r == Ok::<T, DiskCpuError<ED, EC>>(v),
            self matches DiskCpuFuture::Failed(e) ==> r == Err::<T, DiskCpuError<ED, EC>>(e),
    {
        match self {
            DiskCpuFuture::Ready(v) => Ok(v),
            DiskCpuFuture::Failed(e) => Err(e),
            _ => unreached(),
        }
    }
}

/// One probe of a dispatched task: either it still runs, or it finished
/// with its result.
pub enum StagePoll<T, E> {
    Pending,
    Done(Result<T, E>),
}

} // verus!
