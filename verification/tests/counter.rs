use my_errors::response::StatusCode;
use my_errors::state::{app1, AppState};
use std::sync::{Arc, Mutex};

#[test]
fn a_new_state_has_served_nothing() {
    let state = AppState::new("hello-actix".to_string());
    assert_eq!(state, AppState { app_name: "hello-actix".to_string(), counter: 0 });
}

#[test]
fn the_first_request_is_number_one() {
    let mut state = AppState::new("hello-actix".to_string());
    let r = app1(&mut state);
    assert_eq!(r.status, StatusCode::Success);
    assert_eq!(r.content_type, None);
    assert_eq!(r.body, "Hello to hello-actix and Request number is 1");
    assert_eq!(state.counter, 1);
    assert_eq!(state.app_name, "hello-actix");
}

#[test]
fn requests_are_numbered_in_turn() {
    let mut state = AppState::new("app".to_string());
    for n in 1..=12 {
        let r = app1(&mut state);
        assert_eq!(r.body, format!("Hello to app and Request number is {}", n));
        assert_eq!(state.counter, n);
    }
}

#[test]
fn counting_goes_on_from_any_count() {
    let mut state = AppState { app_name: String::new(), counter: 99 };
    assert_eq!(app1(&mut state).body, "Hello to  and Request number is 100");
    let mut state = AppState { app_name: "x".to_string(), counter: -1 };
    assert_eq!(app1(&mut state).body, "Hello to x and Request number is 0");
    let mut state = AppState { app_name: "x".to_string(), counter: -11 };
    assert_eq!(app1(&mut state).body, "Hello to x and Request number is -10");
    let mut state = AppState { app_name: "x".to_string(), counter: i32::MAX - 1 };
    assert_eq!(app1(&mut state).body, "Hello to x and Request number is 2147483647");
    assert_eq!(state.counter, i32::MAX);
}

#[test]
fn n_increments_count_to_n() {
    let n = 1000;
    let mut state = AppState::new("hello-actix".to_string());
    for _ in 0..n {
        let _ = app1(&mut state);
    }
    assert_eq!(state.counter, n);
}

#[test]
fn handles_that_take_turns_lose_no_update() {
    let workers = 8;
    let each = 250;
    let shared = Arc::new(Mutex::new(AppState::new("hello-actix".to_string())));
    let handles: Vec<Arc<Mutex<AppState>>> = (0..workers).map(|_| Arc::clone(&shared)).collect();
    let mut seen = Vec::new();
    for round in 0..each {
        for k in 0..handles.len() {
            let handle = &handles[(k * 3 + round) % handles.len()];
            let mut state = handle.lock().unwrap();
            let r = app1(&mut state);
            seen.push((state.counter, r.body));
        }
    }
    assert_eq!(shared.lock().unwrap().counter, (workers * each) as i32);
    for (k, (count, body)) in seen.iter().enumerate() {
        assert_eq!(*count, k as i32 + 1);
        assert_eq!(*body, format!("Hello to hello-actix and Request number is {}", count));
    }
}
