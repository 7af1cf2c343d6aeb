use denim::routes::sse::SseEvent;
use denim::state::{DenimState, JobSlot};

#[test]
fn only_one_of_two_callers_is_admitted() {
    let mut slot: JobSlot<u32> = JobSlot::new();
    let first = slot.try_acquire_token();
    let second = slot.try_acquire_token();
    assert!(first.is_some());
    assert!(second.is_none());
    assert!(slot.is_admitted());
}

#[test]
fn contended_acquire_admits_exactly_one() {
    let runtime = tokio::runtime::Builder::new_multi_thread().worker_threads(4).build().unwrap();
    runtime.block_on(async {
        for _ in 0..50 {
            let slot = std::sync::Arc::new(std::sync::Mutex::new(JobSlot::<u32>::new()));
            let mut callers = Vec::new();
            for _ in 0..16 {
                let slot = slot.clone();
                callers.push(tokio::spawn(async move {
                    slot.lock().unwrap().try_acquire_token().is_some()
                }));
            }
            let mut granted = 0;
            for caller in callers {
                if caller.await.unwrap() {
                    granted += 1;
                }
            }
            assert_eq!(granted, 1);
            assert!(slot.lock().unwrap().is_admitted());
        }
    });
}

#[test]
fn discarded_token_frees_the_slot() {
    let mut slot: JobSlot<u32> = JobSlot::new();
    let token = slot.try_acquire_token().expect("the slot is free");
    token.release(&mut slot);
    assert!(!slot.is_admitted());
    assert!(slot.try_acquire_token().is_some());
}

#[test]
fn finished_job_is_taken_exactly_once() {
    let mut slot: JobSlot<&'static str> = JobSlot::new();
    let token = slot.try_acquire_token().expect("the slot is free");
    assert!(slot.running_job().is_none());
    assert!(token.submit_job(&mut slot, "job").is_none());
    assert_eq!(slot.running_job(), Some(&"job"));
    assert!(slot.try_acquire_token().is_none());
    assert_eq!(slot.poll_and_take_if_finished(false), None);
    assert_eq!(slot.poll_and_take_if_finished(false), None);
    assert!(slot.is_admitted());
    assert_eq!(slot.poll_and_take_if_finished(true), Some("job"));
    assert_eq!(slot.poll_and_take_if_finished(true), None);
    assert!(!slot.is_admitted());
    assert!(slot.try_acquire_token().is_some());
}

#[test]
fn poll_without_a_job_changes_nothing() {
    let mut slot: JobSlot<u8> = JobSlot::new();
    assert_eq!(slot.poll_and_take_if_finished(true), None);
    assert!(!slot.is_admitted());
    let _token = slot.try_acquire_token().unwrap();
    assert_eq!(slot.poll_and_take_if_finished(true), None);
    assert!(slot.is_admitted());
}

#[test]
fn progress_is_what_the_job_last_reported() {
    let mut slot: JobSlot<u8> = JobSlot::new();
    slot.report_progress(1, 2);
    assert_eq!(slot.progress_snapshot(), None);
    let token = slot.try_acquire_token().unwrap();
    slot.report_progress(1, 2);
    assert_eq!(slot.progress_snapshot(), None);
    token.submit_job(&mut slot, 9);
    assert_eq!(slot.progress_snapshot(), None);
    slot.report_progress(3, 10);
    assert_eq!(slot.progress_snapshot(), Some((3, 10)));
    slot.report_progress(4, 10);
    assert_eq!(slot.progress_snapshot(), Some((4, 10)));
    assert_eq!(slot.poll_and_take_if_finished(true), Some(9));
    assert_eq!(slot.progress_snapshot(), None);
}

#[test]
fn a_job_cannot_be_submitted_twice_or_released_while_running() {
    let mut slot: JobSlot<u8> = JobSlot::new();
    let token = slot.try_acquire_token().unwrap();
    assert_eq!(token.submit_job(&mut slot, 1), None);
    let mut other: JobSlot<u8> = JobSlot::new();
    let stray = other.try_acquire_token().unwrap();
    assert_eq!(stray.submit_job(&mut slot, 2), Some(2));
    assert_eq!(slot.running_job(), Some(&1));
    let stray = {
        let mut third: JobSlot<u8> = JobSlot::new();
        third.try_acquire_token().unwrap()
    };
    stray.release(&mut slot);
    assert_eq!(slot.running_job(), Some(&1));
}

#[test]
fn state_takes_the_result_of_a_real_task() {
    let runtime = tokio::runtime::Builder::new_current_thread().enable_all().build().unwrap();
    runtime.block_on(async {
        let mut state: DenimState<u32> = DenimState::new();
        assert!(!state.student_job_exists());
        assert!(state.take_import_students_job_result().is_none());
        let token = state.get_submit_students_job_token().expect("the slot is free");
        assert!(state.get_submit_students_job_token().is_none());
        assert!(state.student_job_exists());
        let (release, wait) = tokio::sync::oneshot::channel::<()>();
        let job = tokio::spawn(async move {
            wait.await.unwrap();
            17u32
        });
        assert!(token.submit_job(&mut state.import_students_job, job).is_none());
        tokio::task::yield_now().await;
        assert!(state.take_import_students_job_result().is_none());
        assert!(state.student_job_exists());
        state.import_students_job.report_progress(1, 4);
        assert_eq!(state.check_students_job_progress(), Some((1, 4)));
        release.send(()).unwrap();
        let mut taken = None;
        for _ in 0..1000 {
            tokio::task::yield_now().await;
            taken = state.take_import_students_job_result();
            if taken.is_some() {
                break;
            }
        }
        let handle = taken.expect("the task has finished");
        assert_eq!(handle.await.unwrap(), 17);
        assert!(state.take_import_students_job_result().is_none());
        assert!(!state.student_job_exists());
        assert!(state.get_submit_students_job_token().is_some());
    });
}

#[test]
fn state_feeds_its_subscribers() {
    let mut state: DenimState<()> = DenimState::new();
    state.send_sse_event(SseEvent::CrudEvent);
    let id = state.subscribe_to_sse_feed();
    assert_eq!(state.sse_events.receive(id), None);
    state.send_sse_event(SseEvent::CrudPerson);
    assert_eq!(state.sse_events.receive(id), Some(SseEvent::CrudPerson));
    assert_eq!(state.sse_events.capacity(), 1);
}
