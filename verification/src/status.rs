//! The lifecycle status machine: which reported status is a legal reply
//! to which request kind, given the previously known status.

use crate::common::{Error, Kind};
use vstd::prelude::*;

verus! {

/// Lifecycle phase reported by the peer.
#[derive(Debug, Default, Clone, Copy, PartialEq, Eq, Hash, Structural)]
pub enum Status {
    /// No successful exchange has happened yet.
    #[default]
    Unset,
    Launched,
    InitGame,
    InGame,
    InReplay,
    Ended,
    Quit,
}

/// The stable numeric code of a status, as it appears on the wire.
pub open spec fn spec_status_code(s: Status) -> u64 {
    match s {
        Status::Unset => 0,
        Status::Launched => 1,
        Status::InitGame => 2,
        Status::InGame => 3,
        Status::InReplay => 4,
        Status::Ended => 5,
        Status::Quit => 6,
    }
}

/// The status a wire code stands for, where the code is known.
pub open spec fn spec_status_from_code(c: u64) -> Option<Status> {
    if c == 0 {
        Some(Status::Unset)
    } else if c == 1 {
        Some(Status::Launched)
    } else if c == 2 {
        Some(Status::InitGame)
    } else if c == 3 {
        Some(Status::InGame)
    } else if c == 4 {
        Some(Status::InReplay)
    } else if c == 5 {
        Some(Status::Ended)
    } else if c == 6 {
        Some(Status::Quit)
    } else {
        None
    }
}

#[verifier::when_used_as_spec(spec_status_code)]
pub fn status_code(s: Status) -> (c: u64)
    ensures
        c == spec_status_code(s),
{
    match s {
        Status::Unset => 0,
        Status::Launched => 1,
        Status::InitGame => 2,
        Status::InGame => 3,
        Status::InReplay => 4,
        Status::Ended => 5,
        Status::Quit => 6,
    }
}

#[verifier::when_used_as_spec(spec_status_from_code)]
pub fn status_from_code(c: u64) -> (s: Option<Status>)
    ensures
        s == spec_status_from_code(c),
{
    if c == 0 {
        Some(Status::Unset)
    } else if c == 1 {
        Some(Status::Launched)
    } else if c == 2 {
        Some(Status::InitGame)
    } else if c == 3 {
        Some(Status::InGame)
    } else if c == 4 {
        Some(Status::InReplay)
    } else if c == 5 {
        Some(Status::Ended)
    } else if c == 6 {
        Some(Status::Quit)
    } else {
        None
    }
}

/// Every status code round-trips through its enum.
pub proof fn lemma_status_code_round_trip(s: Status)
    ensures
        spec_status_from_code(spec_status_code(s)) == Some(s),
{
}

/// The statuses a successful exchange of the given kind is expected to
/// report, once a baseline exists. `Debug` has no constraint and is not
/// covered here; kinds without a transition of their own must leave the
/// status unchanged. After `Quit` this library expects the peer to
/// report `Quit` (not a reset to `Unset`).
pub open spec fn expected_statuses(kind: Kind, before: Status) -> Seq<Status> {
    match kind {
        Kind::CreateGame => seq![Status::InitGame],
        Kind::JoinGame => seq![Status::InGame],
        Kind::RestartGame => seq![Status::InGame],
        Kind::StartReplay => seq![Status::InReplay],
        Kind::LeaveGame => seq![Status::Launched],
        Kind::Quit => seq![Status::Quit],
        Kind::Step => seq![Status::InGame, Status::InReplay, Status::Ended],
        Kind::Observation => seq![Status::InGame, Status::InReplay, Status::Ended],
        _ => seq![before],
    }
}

/// Whether the status machine accepts `now` as the reported status of an
/// exchange of kind `kind` when the previous status was `before`: the very
/// first validation (no baseline) and `Debug` always pass, every other
/// kind must hit its expected set.
pub open spec fn status_accepted(kind: Kind, now: Status, before: Status) -> bool {
    ||| before == Status::Unset
    ||| kind == Kind::Debug
    ||| expected_statuses(kind, before).contains(now)
}

/// The expected set as a vector, for error reports.
fn expected_vec(kind: Kind, before: Status) -> (v: Vec<Status>)
    ensures
        v@ == expected_statuses(kind, before),
{
    let mut v: Vec<Status> = Vec::new();
    match kind {
        Kind::CreateGame => v.push(Status::InitGame),
        Kind::JoinGame => v.push(Status::InGame),
        Kind::RestartGame => v.push(Status::InGame),
        Kind::StartReplay => v.push(Status::InReplay),
        Kind::LeaveGame => v.push(Status::Launched),
        Kind::Quit => v.push(Status::Quit),
        Kind::Step | Kind::Observation => {
            v.push(Status::InGame);
            v.push(Status::InReplay);
            v.push(Status::Ended);
        },
        _ => v.push(before),
    }
    proof {
        assert(v@ =~= expected_statuses(kind, before));
    }
    v
}

/// Validate the status transition of one exchange. On acceptance the
/// caller may adopt `now` as the session's status; on rejection it must
/// keep `before` and surface the expected set.
pub fn check_status(kind: Kind, now: Status, before: Status) -> (r: Result<(), Error>)
    ensures
        r is Ok <==> status_accepted(kind, now, before),
        r matches Err(e) ==> e matches Error::BadStatus(got, expect) && got == now && expect@
            == expected_statuses(kind, before),
{
    if before == Status::Unset {
        return Ok(());
    }
    let accepted = match kind {
        Kind::CreateGame => now == Status::InitGame,
        Kind::JoinGame => now == Status::InGame,
        Kind::RestartGame => now == Status::InGame,
        Kind::StartReplay => now == Status::InReplay,
        Kind::LeaveGame => now == Status::Launched,
        Kind::Quit => now == Status::Quit,
        Kind::Step | Kind::Observation => now == Status::InGame || now == Status::InReplay || now
            == Status::Ended,
        Kind::Debug => true,
        _ => now == before,
    };
    if accepted {
        proof {
            let es = expected_statuses(kind, before);
            if kind != Kind::Debug {
                if now == es[0] {
                    assert(es.contains(now));
                } else if es.len() > 1 && now == es[1] {
                    assert(es.contains(now));
                } else if es.len() > 2 && now == es[2] {
                    assert(es.contains(now));
                }
            }
        }
        Ok(())
    } else {
        proof {
            assert(!expected_statuses(kind, before).contains(now)) by {
                let es = expected_statuses(kind, before);
                assert forall|i: int| 0 <= i < es.len() implies es[i] != now by {}
            }
        }
        Err(Error::BadStatus(now, expected_vec(kind, before)))
    }
}

/// Statuses in the expected set are accepted: for every kind and every
/// status in the table's set, validation passes whatever the baseline.
pub proof fn lemma_expected_status_accepted(kind: Kind, now: Status, before: Status)
    requires
        expected_statuses(kind, before).contains(now),
    ensures
        status_accepted(kind, now, before),
{
}

/// Statuses outside the expected set are rejected whenever a baseline
/// exists and the kind is constrained at all.
pub proof fn lemma_unexpected_status_rejected(kind: Kind, now: Status, before: Status)
    requires
        before != Status::Unset,
        kind != Kind::Debug,
        !expected_statuses(kind, before).contains(now),
    ensures
        !status_accepted(kind, now, before),
{
}

} // verus!
