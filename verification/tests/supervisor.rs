use soldag::RESTART_BUDGET;
use soldag::ServiceTask;
use soldag::Supervisor;

#[test]
fn the_budget_grants_exactly_three_restarts() {
    let mut supervisor = Supervisor::new(RESTART_BUDGET);
    assert!(supervisor.on_task_exit());
    assert!(supervisor.on_task_exit());
    assert!(supervisor.on_task_exit());
    // The budget is spent: no further restart, however often a task fails.
    assert!(!supervisor.on_task_exit());
    assert!(!supervisor.on_task_exit());
    assert_eq!(supervisor.restarts_remaining, 0);
}

#[test]
fn the_budget_is_shared_between_the_tasks() {
    // Whichever task exits draws from the same budget.
    let failing_order =
        [ServiceTask::Ingestion, ServiceTask::ApiServer, ServiceTask::Ingestion, ServiceTask::ApiServer];
    let mut supervisor = Supervisor::new(RESTART_BUDGET);
    let restarted: Vec<bool> = failing_order.iter().map(|_| supervisor.on_task_exit()).collect();
    assert_eq!(restarted, vec![true, true, true, false]);
}

#[test]
fn an_exhausted_supervisor_stays_exhausted() {
    let mut supervisor = Supervisor::new(0);
    assert!(!supervisor.on_task_exit());
    assert_eq!(supervisor.restarts_remaining, 0);
}
