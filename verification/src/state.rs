//! The state that the handlers of one scope share: the application's name
//! and the number of requests served so far.

use crate::decimal::{decimal, lemma_decimal_injective, push_decimal};
use crate::response::{Response, ResponseView};
use vstd::prelude::*;

verus! {

/// The shared state. Whoever serves a request holds it exclusively for the
/// length of `app1`, so counting and answering are one step.
#[derive(Clone, Debug, PartialEq, Eq)]
pub struct AppState {
    pub app_name: String,
    /// How many requests have been served.
    pub counter: i32,
}

/// An `AppState` with its name as text and an unbounded count.
pub struct AppStateView {
    pub app_name: Seq<char>,
    pub counter: int,
}

impl View for AppState {
    type V = AppStateView;

    open spec fn view(&self) -> AppStateView {
        AppStateView { app_name: self.app_name@, counter: self.counter as int }
    }
}

impl AppStateView {
    /// The state after one more request.
    pub open spec fn served(self) -> AppStateView {
        AppStateView { app_name: self.app_name, counter: self.counter + 1 }
    }

    /// The state after `n` more requests, one after another.
    pub open spec fn served_n(self, n: nat) -> AppStateView
        decreases n,
    {
        if n == 0 {
            self
        } else {
            self.served_n((n - 1) as nat).served()
        }
    }

    /// The body that reports the name and the current count.
    pub open spec fn greeting(self) -> Seq<char> {
        "Hello to "@ + self.app_name + " and Request number is "@ + decimal(self.counter)
    }
}

impl AppState {
    /// A state with the given name that has served no request yet.
    pub fn new(app_name: String) -> (state: AppState)
        ensures
            state@ == (AppStateView { app_name: app_name@, counter: 0 }),
    {
        AppState { app_name, counter: 0 }
    }
}

/// Counts the request and answers with the name and the new count.
pub fn app1(data: &mut AppState) -> (r: Response)
    requires
        old(data).counter < i32::MAX,
    ensures
        final(data)@ == old(data)@.served(),
        r@ == ResponseView::ok(final(data)@.greeting()),
{
    data.counter = data.counter + 1;
    let mut body = String::from_str("Hello to ");
    body.append(data.app_name.as_str());
    body.append(" and Request number is ");
    push_decimal(&mut body, data.counter);
    Response::ok(body)
}

/// No request is lost and none is counted twice: after `n` requests served
/// one after another the count has grown by exactly `n`, and the name is
/// unchanged. From a fresh state the count is `n`.
pub proof fn lemma_served_n_counts(state: AppStateView, n: nat)
    ensures
        state.served_n(n).counter == state.counter + n,
        state.served_n(n).app_name == state.app_name,
        state.counter == 0 ==> state.served_n(n).counter == n,
    decreases n,
{
    if n > 0 {
        lemma_served_n_counts(state, (n - 1) as nat);
    }
}

/// No count is reported twice: the bodies that answer two different requests
/// of a run differ.
pub proof fn lemma_no_count_is_reported_twice(state: AppStateView, j: nat, k: nat)
    requires
        j != k,
    ensures
        state.served_n(j).greeting() != state.served_n(k).greeting(),
{
    let a = state.served_n(j);
    let b = state.served_n(k);
    lemma_served_n_counts(state, j);
    lemma_served_n_counts(state, k);
    if a.greeting() == b.greeting() {
        let intro = "Hello to "@ + state.app_name + " and Request number is "@;
        let start = intro.len() as int;
        assert(a.greeting().subrange(start, a.greeting().len() as int) =~= decimal(a.counter));
        assert(b.greeting().subrange(start, b.greeting().len() as int) =~= decimal(b.counter));
        lemma_decimal_injective(a.counter, b.counter);
    }
}

} // verus!
