use vector_service::poll::{PollStatus, PollStep, Poller};
use vector_service::state::ServiceState;

/// Runs a poller against a service whose state never changes.
fn run_pinned(p: &mut Poller, state: ServiceState) -> (PollStatus, u32, u64) {
    let mut queries = 0;
    let mut slept = 0;
    loop {
        queries += 1;
        match p.observe(state) {
            PollStep::Finished(s) => return (s, queries, slept),
            PollStep::Sleep(ms) => slept += ms,
            PollStep::Query => panic!("a query answers with a sleep or the end"),
        }
        match p.wake() {
            PollStep::Finished(s) => return (s, queries, slept),
            PollStep::Query => {}
            PollStep::Sleep(_) => panic!("a wake answers with a query or the end"),
        }
    }
}

#[test]
fn pinned_state_times_out_after_three_cycles() {
    let mut p = Poller::new(ServiceState::Stopped, 3000, 1000);
    let (status, queries, slept) = run_pinned(&mut p, ServiceState::Running);
    assert_eq!(status, PollStatus::Timeout(ServiceState::Running));
    assert_eq!(queries, 3);
    assert_eq!(slept, 3000);
}

#[test]
fn target_seen_in_time_ends_without_sleep() {
    let mut p = Poller::new(ServiceState::Stopped, 10000, 1000);
    assert_eq!(p.observe(ServiceState::StopPending), PollStep::Sleep(1000));
    assert_eq!(p.wake(), PollStep::Query);
    assert_eq!(p.observe(ServiceState::Stopped), PollStep::Finished(PollStatus::NoTimeout));
    assert_eq!(p.queries, 2);
    assert_eq!(p.waited, 1000);
}

#[test]
fn target_on_first_query() {
    let mut p = Poller::new(ServiceState::Running, 5000, 1000);
    assert_eq!(p.observe(ServiceState::Running), PollStep::Finished(PollStatus::NoTimeout));
    assert_eq!(p.waited, 0);
}

#[test]
fn timeout_below_interval_makes_one_cycle() {
    let mut p = Poller::new(ServiceState::Stopped, 500, 1000);
    assert_eq!(p.observe(ServiceState::Paused), PollStep::Sleep(1000));
    assert_eq!(p.wake(), PollStep::Finished(PollStatus::Timeout(ServiceState::Paused)));
}

#[test]
fn zero_timeout_still_queries_once() {
    let mut p = Poller::new(ServiceState::Stopped, 0, 1000);
    let (status, queries, slept) = run_pinned(&mut p, ServiceState::Running);
    assert_eq!(status, PollStatus::Timeout(ServiceState::Running));
    assert_eq!((queries, slept), (1, 1000));
}

#[test]
fn uneven_timeout_rounds_the_query_count_up() {
    // ceil(2500 / 1000) = 3 queries, each followed by a sleep.
    let mut p = Poller::new(ServiceState::Stopped, 2500, 1000);
    let (status, queries, slept) = run_pinned(&mut p, ServiceState::StopPending);
    assert_eq!(status, PollStatus::Timeout(ServiceState::StopPending));
    assert_eq!((queries, slept), (3, 3000));
}

#[test]
fn huge_interval_does_not_overflow() {
    let mut p = Poller::new(ServiceState::Stopped, u64::MAX, u64::MAX - 1);
    assert_eq!(p.observe(ServiceState::Running), PollStep::Sleep(u64::MAX - 1));
    assert_eq!(p.wake(), PollStep::Query);
    assert_eq!(p.observe(ServiceState::Running), PollStep::Sleep(u64::MAX - 1));
    assert_eq!(p.wake(), PollStep::Finished(PollStatus::Timeout(ServiceState::Running)));
}
