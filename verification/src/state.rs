//! The single-flight slot of the long-running import job.
//!
//! At most one job of this kind is admitted at a time. A caller first asks
//! for the token; with the token it either submits the running job or gives
//! the token back. Whoever polls later takes the job out once it has
//! finished, which frees the slot for the next caller.

use crate::hub::Hub;
use crate::routes::sse::SseEvent;
use tokio::task::JoinHandle;
use vstd::prelude::*;

verus! {

/// The slot of the one job that may run at a time.
#[derive(Debug)]
pub enum JobSlot<J> {
    /// No job is admitted.
    Free,
    /// The token is out and no job was submitted with it yet.
    Admitted,
    /// A job was submitted and its result was not taken yet. `progress` is
    /// what the job last reported: how many items are done, of how many.
    Running { job: J, progress: Option<(usize, usize)> },
}

/// The right to submit the one job. Only `JobSlot::try_acquire_token` makes
/// one, and only while the slot is free. It is used up by submitting a job
/// with `submit_job` or by giving it back with `release`.
///
/// A token that is merely let go frees nothing: the slot stays admitted and
/// no one is admitted after. Whoever holds a token has to call `release` on
/// every way out that does not submit a job, an early return and a failure
/// included.
#[derive(Debug)]
#[must_use]
pub struct SubmitStudentsJobToken {
    admitted: (),
}

impl<J> JobSlot<J> {
    /// A free slot.
    pub fn new() -> (slot: Self)
        ensures
            slot is Free,
    {
        JobSlot::Free
    }

    /// Whether a token is out or a job is in the slot.
    pub open spec fn admitted(self) -> bool {
        !(self is Free)
    }

    /// Whether a caller who asks for the token now gets it.
    pub open spec fn grants(self) -> bool {
        self is Free
    }

    /// The slot after a caller has asked for the token.
    pub open spec fn after_acquire(self) -> Self {
        if self is Free {
            JobSlot::Admitted
        } else {
            self
        }
    }

    /// Whether the slot takes a job that is submitted now.
    pub open spec fn accepts(self) -> bool {
        self is Admitted
    }

    /// The slot after `job` has been submitted.
    pub open spec fn after_submit(self, job: J) -> Self {
        if self is Admitted {
            JobSlot::Running { job, progress: None }
        } else {
            self
        }
    }

    /// The slot after a token has been given back without a job.
    pub open spec fn after_release(self) -> Self {
        if self is Admitted {
            JobSlot::Free
        } else {
            self
        }
    }

    /// What a poll hands out: the job, if one is in the slot and `finished`
    /// says that it has finished.
    pub open spec fn polled(self, finished: bool) -> Option<J> {
        match self {
            JobSlot::Running { job, .. } if finished => Some(job),
            _ => None,
        }
    }

    /// The slot after a poll.
    pub open spec fn after_poll(self, finished: bool) -> Self {
        match self {
            JobSlot::Running { .. } if finished => JobSlot::Free,
            _ => self,
        }
    }

    /// What the running job last reported.
    pub open spec fn progress(self) -> Option<(usize, usize)> {
        match self {
            JobSlot::Running { progress, .. } => progress,
            _ => None,
        }
    }

    /// The slot after the running job has reported `done` of `total`.
    pub open spec fn after_report(self, done: usize, total: usize) -> Self {
        match self {
            JobSlot::Running { job, .. } => JobSlot::Running { job, progress: Some((done, total)) },
            _ => self,
        }
    }

    /// Admits the caller if the slot is free, and no one else until the slot
    /// is free again.
    pub fn try_acquire_token(&mut self) -> (token: Option<SubmitStudentsJobToken>)
        ensures
            token is Some <==> old(self).grants(),
            *final(self) == old(self).after_acquire(),
    {
        match self {
            JobSlot::Free => {
                *self = JobSlot::Admitted;
                Some(SubmitStudentsJobToken { admitted: () })
            },
            _ => None,
        }
    }

    /// Whether a token is out or a job is in the slot.
    pub fn is_admitted(&self) -> (b: bool)
        ensures
            b == self.admitted(),
    {
        match self {
            JobSlot::Free => false,
            _ => true,
        }
    }

    /// The job in the slot, if one was submitted and not taken yet.
    pub fn running_job(&self) -> (job: Option<&J>)
        ensures
            match *self {
                JobSlot::Running { job: j, .. } => job == Some(&j),
                _ => job is None,
            },
    {
        match self {
            JobSlot::Running { job, .. } => Some(job),
            _ => None,
        }
    }

    /// Takes the job out of the slot if `finished` says that it has
    /// finished, and frees the slot; otherwise leaves the slot as it is.
    pub fn poll_and_take_if_finished(&mut self, finished: bool) -> (taken: Option<J>)
        ensures
            taken == old(self).polled(finished),
            *final(self) == old(self).after_poll(finished),
    {
        if !finished {
            return None;
        }
        let mut current = JobSlot::Free;
        core::mem::swap(self, &mut current);
        match current {
            JobSlot::Running { job, .. } => Some(job),
            JobSlot::Admitted => {
                *self = JobSlot::Admitted;
                None
            },
            JobSlot::Free => None,
        }
    }

    /// What the running job last reported, if a job is running and has
    /// reported anything.
    pub fn progress_snapshot(&self) -> (progress: Option<(usize, usize)>)
        ensures
            progress == self.progress(),
    {
        match self {
            JobSlot::Running { progress, .. } => *progress,
            _ => None,
        }
    }

    /// Records that the running job has done `done` of `total` items. Without
    /// a running job nothing is recorded.
    pub fn report_progress(&mut self, done: usize, total: usize)
        ensures
            *final(self) == old(self).after_report(done, total),
    {
        match self {
            JobSlot::Running { progress, .. } => {
                *progress = Some((done, total));
            },
            _ => {},
        }
    }
}

impl SubmitStudentsJobToken {
    /// Puts the running job into the slot, which uses the token up. Where the
    /// slot is not waiting for a job, the slot stays as it is and the job
    /// comes back.
    pub fn submit_job<J>(self, slot: &mut JobSlot<J>, job: J) -> (refused: Option<J>)
        ensures
            refused == (if old(slot).accepts() {
                None
            } else {
                Some(job)
            }),
            *final(slot) == old(slot).after_submit(job),
    {
        match slot {
            JobSlot::Admitted => {
                *slot = JobSlot::Running { job, progress: None };
                None
            },
            _ => Some(job),
        }
    }

    /// Gives the token back without a job: a slot that was waiting for the
    /// job is free again. A slot that holds a job, or is free, stays as it
    /// is.
    pub fn release<J>(self, slot: &mut JobSlot<J>)
        ensures
            *final(slot) == old(slot).after_release(),
    {
        match slot {
            JobSlot::Admitted => {
                *slot = JobSlot::Free;
            },
            _ => {},
        }
    }
}

/// The handle of a task that `tokio` runs. Nothing of what it holds is
/// visible here.
#[verifier::external_type_specification]
#[verifier::external_body]
#[verifier::reject_recursive_types(T)]
pub struct ExJoinHandle<T>(JoinHandle<T>);

/// What `tokio` reports when a task did not run to its end. Nothing of what
/// it holds is visible here.
#[verifier::external_type_specification]
#[verifier::external_body]
pub struct ExJoinError(tokio::task::JoinError);

/// `tokio::task::JoinHandle::is_finished`: whether the task has run to its
/// end by now. Trusted, and nothing is promised of the answer: it depends on
/// how far the task has come.
#[verifier::external_body]
fn job_is_finished<T>(job: &JoinHandle<T>) -> (finished: bool) {
    job.is_finished()
}

/// How many events can wait for one subscriber of the live-update feed.
pub const SSE_FEED_CAPACITY: usize = 1;

/// What all requests share: the hub of the live-update feed and the slot of
/// the import job, whose result is of type `T`.
#[verifier::reject_recursive_types(T)]
pub struct DenimState<T> {
    pub sse_events: Hub,
    pub import_students_job: JobSlot<JoinHandle<T>>,
}

impl<T> DenimState<T> {
    /// A state without subscribers and with a free slot.
    pub fn new() -> (state: Self)
        ensures
            state.import_students_job is Free,
            state.sse_events@.capacity == SSE_FEED_CAPACITY,
            state.sse_events@.subscribers == Seq::<Option<Seq<SseEvent>>>::empty(),
    {
        DenimState { sse_events: Hub::new(SSE_FEED_CAPACITY), import_students_job: JobSlot::new() }
    }

    /// Admits the caller to submit the import job, if no one is admitted.
    pub fn get_submit_students_job_token(&mut self) -> (token: Option<SubmitStudentsJobToken>)
        ensures
            token is Some <==> old(self).import_students_job.grants(),
            final(self).import_students_job == old(self).import_students_job.after_acquire(),
            final(self).sse_events == old(self).sse_events,
    {
        self.import_students_job.try_acquire_token()
    }

    /// Whether a caller is admitted or a job is in the slot.
    pub fn student_job_exists(&self) -> (exists: bool)
        ensures
            exists == self.import_students_job.admitted(),
    {
        self.import_students_job.is_admitted()
    }

    /// What taking the result may do to the slot: hand out a running job and
    /// free the slot, or hand out nothing and leave the slot as it was; and
    /// the latter only, where no job is in the slot.
    pub open spec fn took(
        before: JobSlot<JoinHandle<T>>,
        after: JobSlot<JoinHandle<T>>,
        taken: Option<JoinHandle<T>>,
    ) -> bool {
        ||| (before is Running && taken == before.polled(true) && after == before.after_poll(true))
        ||| (taken is None && after == before)
    }

    /// Takes the import job out of the slot if it has finished, which frees
    /// the slot; while it runs, and without a job, the slot stays as it is
    /// and nothing is handed out. Whether the job has finished is asked of
    /// the job itself.
    pub fn take_import_students_job_result(&mut self) -> (taken: Option<JoinHandle<T>>)
        ensures
            final(self).sse_events == old(self).sse_events,
            Self::took(old(self).import_students_job, final(self).import_students_job, taken),
    {
        let finished = match self.import_students_job.running_job() {
            Some(job) => job_is_finished(job),
            None => false,
        };
        self.import_students_job.poll_and_take_if_finished(finished)
    }

    /// What the import job last reported: how many students are done, of how
    /// many.
    pub fn check_students_job_progress(&self) -> (progress: Option<(usize, usize)>)
        ensures
            progress == self.import_students_job.progress(),
    {
        self.import_students_job.progress_snapshot()
    }

    /// Takes a place on the live-update feed and returns it. The new
    /// subscriber sees only what is sent from now on.
    pub fn subscribe_to_sse_feed(&mut self) -> (id: usize)
        ensures
            id == old(self).sse_events@.first_vacant(),
            final(self).sse_events@ == old(self).sse_events@.after_subscribe(),
            final(self).sse_events@.pending(id as int) == Seq::<SseEvent>::empty(),
            final(self).import_students_job == old(self).import_students_job,
    {
        self.sse_events.subscribe()
    }

    /// Sends `event` to every subscriber of the live-update feed. Without
    /// subscribers it is dropped.
    pub fn send_sse_event(&mut self, event: SseEvent)
        ensures
            final(self).sse_events@ == old(self).sse_events@.after_publish(event),
            final(self).import_students_job == old(self).import_students_job,
    {
        let _ = self.sse_events.publish(event);
    }
}

/// Of two callers who ask a free slot for the token, whichever asks first
/// gets it and the other gets none; and whatever the slot held, no caller is
/// admitted right after another has asked.
pub proof fn only_one_caller_is_admitted<J>(slot: JobSlot<J>)
    ensures
        slot is Free ==> slot.grants() && !slot.after_acquire().grants(),
        !slot.after_acquire().grants(),
        slot.after_acquire().admitted(),
{
}

/// A token that is given back without a job leaves the slot free: the next
/// caller is admitted.
pub proof fn released_token_frees_the_slot<J>(slot: JobSlot<J>)
    requires
        slot is Free,
    ensures
        slot.after_acquire().after_release() is Free,
        slot.after_acquire().after_release().grants(),
{
}

/// A submitted job stays in the slot while it runs and is handed out by the
/// first poll after it has finished, and by no later poll; the slot is free
/// from then on, so the next caller is admitted.
pub proof fn finished_job_is_taken_once<J>(slot: JobSlot<J>, job: J, later: bool)
    requires
        slot is Free,
    ensures
        ({
            let running = slot.after_acquire().after_submit(job);
            let taken = running.after_poll(true);
            &&& !running.grants()
            &&& running.polled(false) is None
            &&& running.after_poll(false) == running
            &&& running.polled(true) == Some(job)
            &&& taken is Free
            &&& taken.polled(later) is None
            &&& taken.after_poll(later) == taken
            &&& taken.grants()
        }),
{
}

/// A job is in the slot only after a token was used to submit it: a free
/// slot takes no job, and a job is never put into the slot without the
/// token being out.
pub proof fn job_needs_a_token<J>(slot: JobSlot<J>, job: J)
    ensures
        slot is Free ==> slot.after_submit(job) is Free,
        slot.after_submit(job) is Running ==> slot.admitted(),
{
}

} // verus!
