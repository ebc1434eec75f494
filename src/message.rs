//! Text for the library's errors.
use vstd::prelude::*;
use crate::state::ServiceState;
use crate::control::Error;

verus! {

/// The character of a decimal digit.
pub open spec fn digit_char(d: nat) -> char {
    if d == 0 { '0' } else if d == 1 { '1' } else if d == 2 { '2' } else if d == 3 { '3' }
    else if d == 4 { '4' } else if d == 5 { '5' } else if d == 6 { '6' } else if d == 7 { '7' }
    else if d == 8 { '8' } else { '9' }
}

/// `n` in decimal, without leading zeros.
pub open spec fn decimal_text(n: nat) -> Seq<char>
    decreases n,
{
    if n < 10 {
        seq![digit_char(n)]
    } else {
        decimal_text(n / 10) + seq![digit_char(n % 10)]
    }
}

/// The fraction `f / 1000` (0 < f < 1000) as three digits without trailing
/// zeros.
pub open spec fn millis_fraction_text(f: nat) -> Seq<char> {
    let all = seq![digit_char(f / 100), digit_char((f / 10) % 10), digit_char(f % 10)];
    if f % 100 == 0 {
        all.take(1)
    } else if f % 10 == 0 {
        all.take(2)
    } else {
        all
    }
}

/// A span of `ms` milliseconds written as a duration is written for a
/// reader: `0ns`, `250ms`, `10s`, `1.5s`.
pub open spec fn duration_text(ms: nat) -> Seq<char> {
    if ms == 0 {
        "0ns"@
    } else if ms < 1000 {
        decimal_text(ms) + "ms"@
    } else if ms % 1000 == 0 {
        decimal_text(ms / 1000) + "s"@
    } else {
        decimal_text(ms / 1000) + "."@ + millis_fraction_text(ms % 1000) + "s"@
    }
}

/// The name of a service state.
pub open spec fn state_text(s: ServiceState) -> Seq<char> {
    match s {
        ServiceState::Stopped => "Stopped"@,
        ServiceState::StartPending => "StartPending"@,
        ServiceState::StopPending => "StopPending"@,
        ServiceState::Running => "Running"@,
        ServiceState::ContinuePending => "ContinuePending"@,
        ServiceState::PausePending => "PausePending"@,
        ServiceState::Paused => "Paused"@,
    }
}

/// The message of a wait for `expected` that ran out after `timeout_ms` on
/// `state`.
pub open spec fn timeout_text(state: ServiceState, expected: ServiceState, timeout_ms: nat) -> Seq<char> {
    "Timeout occured after "@ + duration_text(timeout_ms) + " while waiting for state to become "@
        + state_text(expected) + ", but was "@ + state_text(state)
}

fn digit(d: u64) -> (r: &'static str)
    requires
        d < 10,
    ensures
        r@ == seq![digit_char(d as nat)],
{
    proof {
        reveal_strlit("0"); reveal_strlit("1"); reveal_strlit("2"); reveal_strlit("3");
        reveal_strlit("4"); reveal_strlit("5"); reveal_strlit("6"); reveal_strlit("7");
        reveal_strlit("8"); reveal_strlit("9");
    }
    if d == 0 { "0" } else if d == 1 { "1" } else if d == 2 { "2" } else if d == 3 { "3" }
    else if d == 4 { "4" } else if d == 5 { "5" } else if d == 6 { "6" } else if d == 7 { "7" }
    else if d == 8 { "8" } else { "9" }
}

/// Appends `n` in decimal to `out`.
fn push_decimal(out: &mut String, n: u64)
    ensures
        final(out)@ == old(out)@ + decimal_text(n as nat),
    decreases n,
{
    if n < 10 {
        out.append(digit(n));
    } else {
        push_decimal(out, n / 10);
        out.append(digit(n % 10));
        assert(final(out)@ =~= old(out)@ + decimal_text(n as nat));
    }
}

/// Appends the name of `s` to `out`.
fn push_state(out: &mut String, s: ServiceState)
    ensures
        final(out)@ == old(out)@ + state_text(s),
{
    proof {
        reveal_strlit("Stopped"); reveal_strlit("StartPending"); reveal_strlit("StopPending");
        reveal_strlit("Running"); reveal_strlit("ContinuePending"); reveal_strlit("PausePending");
        reveal_strlit("Paused");
    }
    let name = match s {
        ServiceState::Stopped => "Stopped",
        ServiceState::StartPending => "StartPending",
        ServiceState::StopPending => "StopPending",
        ServiceState::Running => "Running",
        ServiceState::ContinuePending => "ContinuePending",
        ServiceState::PausePending => "PausePending",
        ServiceState::Paused => "Paused",
    };
    out.append(name);
}

/// Appends a span of `ms` milliseconds to `out`, as a reader would write it.
fn push_duration(out: &mut String, ms: u64)
    ensures
        final(out)@ == old(out)@ + duration_text(ms as nat),
{
    proof {
        reveal_strlit("0ns"); reveal_strlit("ms"); reveal_strlit("s"); reveal_strlit(".");
    }
    let ghost start = out@;
    if ms == 0 {
        out.append("0ns");
    } else if ms < 1000 {
        push_decimal(out, ms);
        out.append("ms");
    } else if ms % 1000 == 0 {
        push_decimal(out, ms / 1000);
        out.append("s");
    } else {
        push_decimal(out, ms / 1000);
        out.append(".");
        let f = ms % 1000;
        let ghost before = out@;
        out.append(digit(f / 100));
        if f % 100 != 0 {
            out.append(digit((f / 10) % 10));
            if f % 10 != 0 {
                out.append(digit(f % 10));
            }
        }
        let ghost all = seq![digit_char(f as nat / 100), digit_char((f as nat / 10) % 10), digit_char(f as nat % 10)];
        assert(out@ =~= before + millis_fraction_text(f as nat)) by {
            if f % 100 == 0 {
                assert(all.take(1) =~= seq![all[0]]);
            } else if f % 10 == 0 {
                assert(all.take(2) =~= seq![all[0], all[1]]);
            }
        }
        out.append("s");
    }
    assert(out@ =~= start + duration_text(ms as nat));
}

/// The text of an error: the service manager's own text for a failed call.
pub open spec fn error_text(e: Error) -> Seq<char> {
    match e {
        Error::Service(p) => p.message@,
        Error::PollTimeout { state, expected_state, timeout_ms } => timeout_text(
            state,
            expected_state,
            timeout_ms as nat,
        ),
    }
}

impl Error {
    /// The error as a message for a reader.
    pub fn message(&self) -> (r: String)
        ensures
            r@ == error_text(*self),
    {
        match self {
            Error::Service(p) => p.message.clone(),
            Error::PollTimeout { state, expected_state, timeout_ms } => {
                proof {
                    reveal_strlit("Timeout occured after ");
                    reveal_strlit(" while waiting for state to become ");
                    reveal_strlit(", but was ");
                }
                let mut out = String::from_str("Timeout occured after ");
                push_duration(&mut out, *timeout_ms);
                out.append(" while waiting for state to become ");
                push_state(&mut out, *expected_state);
                out.append(", but was ");
                push_state(&mut out, *state);
                assert(out@ =~= timeout_text(*state, *expected_state, *timeout_ms as nat));
                out
            },
        }
    }
}

} // verus!
