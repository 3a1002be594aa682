use vstd::prelude::*;

use crate::store::StateStore;

verus! {

/// An HTTP reply of the control plane: a status code and a plain-text
/// body.
pub struct HttpResponse {
    pub status: u16,
    pub body: String,
}

/// The decimal digit `d` as a character.
pub open spec fn digit_char(d: nat) -> char {
    if d == 0 {
        '0'
    } else if d == 1 {
        '1'
    } else if d == 2 {
        '2'
    } else if d == 3 {
        '3'
    } else if d == 4 {
        '4'
    } else if d == 5 {
        '5'
    } else if d == 6 {
        '6'
    } else if d == 7 {
        '7'
    } else if d == 8 {
        '8'
    } else {
        '9'
    }
}

/// The decimal rendering of `n`, most significant digit first, no
/// leading zeroes (a single `0` for zero).
pub open spec fn dec_digits(n: nat) -> Seq<char>
    decreases n,
{
    if n < 10 {
        seq![digit_char(n)]
    } else {
        dec_digits(n / 10).push(digit_char(n % 10))
    }
}

fn digit_str(d: u64) -> (r: &'static str)
    requires
        d < 10,
    ensures
        r@ == seq![digit_char(d as nat)],
{
    let r = if d == 0 {
        "0"
    } else if d == 1 {
        "1"
    } else if d == 2 {
        "2"
    } else if d == 3 {
        "3"
    } else if d == 4 {
        "4"
    } else if d == 5 {
        "5"
    } else if d == 6 {
        "6"
    } else if d == 7 {
        "7"
    } else if d == 8 {
        "8"
    } else {
        "9"
    };
    proof {
        reveal_strlit("0");
        reveal_strlit("1");
        reveal_strlit("2");
        reveal_strlit("3");
        reveal_strlit("4");
        reveal_strlit("5");
        reveal_strlit("6");
        reveal_strlit("7");
        reveal_strlit("8");
        reveal_strlit("9");
        assert(r@ =~= seq![digit_char(d as nat)]);
    }
    r
}

/// Render `n` in decimal.
pub fn u64_to_string(n: u64) -> (s: String)
    ensures
        s@ == dec_digits(n as nat),
    decreases n,
{
    let d = n % 10;
    if n < 10 {
        String::from_str(digit_str(d))
    } else {
        let mut s = u64_to_string(n / 10);
        s.append(digit_str(d));
        proof {
            assert(s@ =~= dec_digits(n as nat));
        }
        s
    }
}

/// The text of a boolean, as the stats body prints it.
pub open spec fn bool_text(b: bool) -> Seq<char> {
    if b {
        "true"@
    } else {
        "false"@
    }
}

/// The health verdict for a worker lookup: 404 when the name is unknown,
/// 500 when the worker crashed, 200 when it is alive, 503 otherwise.
pub open spec fn health_response_spec(found: bool, on_crash: bool, alive: bool) -> (u16, Seq<
    char,
>) {
    if !found {
        (404u16, "Service not found"@)
    } else if on_crash {
        (500u16, "Health service is not available"@)
    } else if alive {
        (200u16, "OK"@)
    } else {
        (503u16, "Service is not available"@)
    }
}

/// What `GET /health/{name}` answers, given the store.
pub open spec fn worker_health_spec(store: StateStore, name: Seq<char>) -> (u16, Seq<char>) {
    let m = store.worker_states@;
    health_response_spec(
        m.contains_key(name),
        m.contains_key(name) && m[name].on_crash,
        m.contains_key(name) && m[name].alive,
    )
}

/// What `GET /health/lib/{name}` answers, given the store.
pub open spec fn native_worker_health_spec(store: StateStore, name: Seq<char>) -> (u16, Seq<
    char,
>) {
    let m = store.native_worker_states@;
    health_response_spec(
        m.contains_key(name),
        m.contains_key(name) && m[name].on_crash,
        m.contains_key(name) && m[name].alive,
    )
}

/// Bytecode-worker health endpoint: read the worker's state and answer
/// per `health_response_spec`.
pub fn get_health(store: &StateStore, service_name: &str) -> (r: HttpResponse)
    ensures
        r.status == worker_health_spec(*store, service_name@).0,
        r.body@ == worker_health_spec(*store, service_name@).1,
{
    match store.worker_states.get(service_name) {
        None => HttpResponse { status: 404, body: String::from_str("Service not found") },
        Some(state) => {
            if state.on_crash {
                HttpResponse {
                    status: 500,
                    body: String::from_str("Health service is not available"),
                }
            } else if state.alive {
                HttpResponse { status: 200, body: String::from_str("OK") }
            } else {
                HttpResponse { status: 503, body: String::from_str("Service is not available") }
            }
        },
    }
}

/// Native-worker health endpoint; same verdicts as `get_health`.
pub fn get_lib_health(store: &StateStore, service_name: &str) -> (r: HttpResponse)
    ensures
        r.status == native_worker_health_spec(*store, service_name@).0,
        r.body@ == native_worker_health_spec(*store, service_name@).1,
{
    match store.native_worker_states.get(service_name) {
        None => HttpResponse { status: 404, body: String::from_str("Service not found") },
        Some(state) => {
            if state.on_crash {
                HttpResponse {
                    status: 500,
                    body: String::from_str("Health service is not available"),
                }
            } else if state.alive {
                HttpResponse { status: 200, body: String::from_str("OK") }
            } else {
                HttpResponse { status: 503, body: String::from_str("Service is not available") }
            }
        },
    }
}

/// Reply for a trigger endpoint: 404 for an unknown runner, 200 after a
/// successful send into its queue, 500 when the send failed because the
/// supervisor's receiver is gone.
pub open spec fn thunder_response_spec(found: bool, send_ok: bool) -> (u16, Seq<char>) {
    if !found {
        (404u16, "Service not found"@)
    } else if send_ok {
        (200u16, "Service is running"@)
    } else {
        (500u16, "Error sending trigger to service"@)
    }
}

/// Build the reply of a trigger endpoint from the lookup and send
/// outcomes.
pub fn thunder_response(found: bool, send_ok: bool) -> (r: HttpResponse)
    ensures
        r.status == thunder_response_spec(found, send_ok).0,
        r.body@ == thunder_response_spec(found, send_ok).1,
{
    if !found {
        HttpResponse { status: 404, body: String::from_str("Service not found") }
    } else if send_ok {
        HttpResponse { status: 200, body: String::from_str("Service is running") }
    } else {
        HttpResponse { status: 500, body: String::from_str("Error sending trigger to service") }
    }
}

/// Whether a bytecode runner of this name exists, the lookup a
/// `POST /thunder/{name}` makes before sending the trigger.
pub fn has_runner(store: &StateStore, name: &str) -> (b: bool)
    ensures
        b == store.runner_states@.contains_key(name@),
{
    store.runner_states.contains_key(name)
}

/// Whether a native runner of this name exists, the lookup a
/// `POST /thunder/lib/{name}` makes before sending the trigger.
pub fn has_native_runner(store: &StateStore, name: &str) -> (b: bool)
    ensures
        b == store.native_states@.contains_key(name@),
{
    store.native_states.contains_key(name)
}

/// The stats body: service name, last run stamp and last outcome, one
/// per line.
pub open spec fn stats_body_spec(name: Seq<char>, last_run: u64, success: bool) -> Seq<char> {
    "Service: "@ + name + "\nLast run: "@ + dec_digits(last_run as nat) + "\nLast run success: "@
        + bool_text(success) + "\n"@
}

/// What `GET /thunder/stats/{name}` answers, given the store.
pub open spec fn stats_response_spec(store: StateStore, name: Seq<char>) -> (u16, Seq<char>) {
    let m = store.runner_states@;
    if m.contains_key(name) {
        (200u16, stats_body_spec(m[name].module_name@, m[name].last_run, m[name].last_run_success))
    } else {
        (404u16, "Service not found"@)
    }
}

/// Runner statistics endpoint: 200 with the stats body, or 404 for an
/// unknown name.
pub fn get_service_stats(store: &StateStore, service_name: &str) -> (r: HttpResponse)
    ensures
        r.status == stats_response_spec(*store, service_name@).0,
        r.body@ == stats_response_spec(*store, service_name@).1,
{
    match store.runner_states.get(service_name) {
        None => HttpResponse { status: 404, body: String::from_str("Service not found") },
        Some(state) => {
            let mut body = String::from_str("Service: ");
            body.append(state.module_name.as_str());
            body.append("\nLast run: ");
            let stamp = u64_to_string(state.last_run);
            body.append(stamp.as_str());
            body.append("\nLast run success: ");
            if state.last_run_success {
                body.append("true");
            } else {
                body.append("false");
            }
            body.append("\n");
            proof {
                assert(body@ =~= stats_body_spec(
                    state.module_name@,
                    state.last_run,
                    state.last_run_success,
                ));
            }
            HttpResponse { status: 200, body }
        },
    }
}

/// The reply every handler gives when a lock cannot be acquired.
pub fn lock_error_response() -> (r: HttpResponse)
    ensures
        r.status == 500,
        r.body@ == "Error getting lock"@,
{
    HttpResponse { status: 500, body: String::from_str("Error getting lock") }
}

} // verus!

