use soldag::Block;
use soldag::FetchFailure;
use soldag::RetryState;
use soldag::fetch_with_retries;

fn empty_block(parent: u64) -> Block {
    Block { parent, block_time: None, transactions: None }
}

fn failure(text: &str) -> FetchFailure {
    FetchFailure { message: text.to_string() }
}

#[test]
fn an_always_failing_node_is_asked_retries_plus_one_times() {
    // A stub that fails every attempt; budget of 2 retries.
    let outcomes: Vec<Result<Block, FetchFailure>> = vec![
        Err(failure("timeout 1")),
        Err(failure("timeout 2")),
        Err(failure("timeout 3")),
        Err(failure("never reached")),
    ];
    let (result, attempts) = fetch_with_retries(outcomes, 2);
    assert_eq!(attempts, 3);
    // The last error observed is the one delivered.
    assert_eq!(result.unwrap_err().message, "timeout 3");
}

#[test]
fn the_first_success_is_delivered_without_further_attempts() {
    let outcomes: Vec<Result<Block, FetchFailure>> = vec![
        Err(failure("flaky")),
        Ok(empty_block(41)),
        Ok(empty_block(99)),
    ];
    let (result, attempts) = fetch_with_retries(outcomes, 2);
    assert_eq!(attempts, 2);
    assert_eq!(result.unwrap().parent, 41);
}

#[test]
fn an_immediate_success_takes_one_attempt() {
    let outcomes: Vec<Result<Block, FetchFailure>> = vec![Ok(empty_block(7)), Ok(empty_block(8))];
    let (result, attempts) = fetch_with_retries(outcomes, 1);
    assert_eq!(attempts, 1);
    assert_eq!(result.unwrap().parent, 7);
}

#[test]
fn a_success_on_the_last_admitted_attempt_is_still_delivered() {
    let outcomes: Vec<Result<Block, FetchFailure>> = vec![
        Err(failure("one")),
        Err(failure("two")),
        Ok(empty_block(5)),
    ];
    let (result, attempts) = fetch_with_retries(outcomes, 2);
    assert_eq!(attempts, 3);
    assert!(result.is_ok());
}

#[test]
fn the_retry_counter_admits_exactly_the_budget() {
    let mut state = RetryState::new(1);
    assert!(state.may_attempt());
    state.record_attempt();
    assert!(state.may_attempt());
    state.record_attempt();
    assert!(!state.may_attempt());
    assert_eq!(state.attempts, 2);
}
