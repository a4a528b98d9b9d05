//! The kind taxonomy and the uniform error model shared by every exchange.

use crate::status::Status;
use vstd::prelude::*;

verus! {

/// Discriminant identifying which request/response variant a message
/// carries. `Unset` stands for "no variant present", which can legitimately
/// happen for a malformed response.
#[derive(Debug, Clone, Copy, PartialEq, Eq, Hash, Structural)]
pub enum Kind {
    Unset,
    CreateGame,
    JoinGame,
    RestartGame,
    StartReplay,
    LeaveGame,
    QuickSave,
    QuickLoad,
    Quit,
    GameInfo,
    Observation,
    Action,
    ObsAction,
    Step,
    Data,
    Query,
    SaveReplay,
    ReplayInfo,
    AvailableMaps,
    SaveMap,
    MapCommand,
    Ping,
    Debug,
}

/// The stable numeric code of a kind, as it appears on the wire.
pub open spec fn spec_kind_code(k: Kind) -> u64 {
    match k {
        Kind::Unset => 0,
        Kind::CreateGame => 1,
        Kind::JoinGame => 2,
        Kind::RestartGame => 3,
        Kind::StartReplay => 4,
        Kind::LeaveGame => 5,
        Kind::QuickSave => 6,
        Kind::QuickLoad => 7,
        Kind::Quit => 8,
        Kind::GameInfo => 9,
        Kind::Observation => 10,
        Kind::Action => 11,
        Kind::Step => 12,
        Kind::Data => 13,
        Kind::Query => 14,
        Kind::SaveReplay => 15,
        Kind::AvailableMaps => 16,
        Kind::SaveMap => 17,
        Kind::MapCommand => 18,
        Kind::Ping => 19,
        Kind::Debug => 20,
        Kind::ObsAction => 21,
        Kind::ReplayInfo => 22,
    }
}

/// The kind a wire code stands for; unknown codes map to `Kind::Unset`.
pub open spec fn spec_kind_from_code(c: u64) -> Kind {
    if c == 1 {
        Kind::CreateGame
    } else if c == 2 {
        Kind::JoinGame
    } else if c == 3 {
        Kind::RestartGame
    } else if c == 4 {
        Kind::StartReplay
    } else if c == 5 {
        Kind::LeaveGame
    } else if c == 6 {
        Kind::QuickSave
    } else if c == 7 {
        Kind::QuickLoad
    } else if c == 8 {
        Kind::Quit
    } else if c == 9 {
        Kind::GameInfo
    } else if c == 10 {
        Kind::Observation
    } else if c == 11 {
        Kind::Action
    } else if c == 12 {
        Kind::Step
    } else if c == 13 {
        Kind::Data
    } else if c == 14 {
        Kind::Query
    } else if c == 15 {
        Kind::SaveReplay
    } else if c == 16 {
        Kind::AvailableMaps
    } else if c == 17 {
        Kind::SaveMap
    } else if c == 18 {
        Kind::MapCommand
    } else if c == 19 {
        Kind::Ping
    } else if c == 20 {
        Kind::Debug
    } else if c == 21 {
        Kind::ObsAction
    } else if c == 22 {
        Kind::ReplayInfo
    } else {
        Kind::Unset
    }
}

#[verifier::when_used_as_spec(spec_kind_code)]
pub fn kind_code(k: Kind) -> (c: u64)
    ensures
        c == spec_kind_code(k),
{
    match k {
        Kind::Unset => 0,
        Kind::CreateGame => 1,
        Kind::JoinGame => 2,
        Kind::RestartGame => 3,
        Kind::StartReplay => 4,
        Kind::LeaveGame => 5,
        Kind::QuickSave => 6,
        Kind::QuickLoad => 7,
        Kind::Quit => 8,
        Kind::GameInfo => 9,
        Kind::Observation => 10,
        Kind::Action => 11,
        Kind::Step => 12,
        Kind::Data => 13,
        Kind::Query => 14,
        Kind::SaveReplay => 15,
        Kind::AvailableMaps => 16,
        Kind::SaveMap => 17,
        Kind::MapCommand => 18,
        Kind::Ping => 19,
        Kind::Debug => 20,
        Kind::ObsAction => 21,
        Kind::ReplayInfo => 22,
    }
}

#[verifier::when_used_as_spec(spec_kind_from_code)]
pub fn kind_from_code(c: u64) -> (k: Kind)
    ensures
        k == spec_kind_from_code(c),
{
    if c == 1 {
        Kind::CreateGame
    } else if c == 2 {
        Kind::JoinGame
    } else if c == 3 {
        Kind::RestartGame
    } else if c == 4 {
        Kind::StartReplay
    } else if c == 5 {
        Kind::LeaveGame
    } else if c == 6 {
        Kind::QuickSave
    } else if c == 7 {
        Kind::QuickLoad
    } else if c == 8 {
        Kind::Quit
    } else if c == 9 {
        Kind::GameInfo
    } else if c == 10 {
        Kind::Observation
    } else if c == 11 {
        Kind::Action
    } else if c == 12 {
        Kind::Step
    } else if c == 13 {
        Kind::Data
    } else if c == 14 {
        Kind::Query
    } else if c == 15 {
        Kind::SaveReplay
    } else if c == 16 {
        Kind::AvailableMaps
    } else if c == 17 {
        Kind::SaveMap
    } else if c == 18 {
        Kind::MapCommand
    } else if c == 19 {
        Kind::Ping
    } else if c == 20 {
        Kind::Debug
    } else if c == 21 {
        Kind::ObsAction
    } else if c == 22 {
        Kind::ReplayInfo
    } else {
        Kind::Unset
    }
}

/// Every code of a real kind round-trips through the taxonomy.
pub proof fn lemma_kind_code_round_trip(k: Kind)
    ensures
        k != Kind::Unset ==> spec_kind_from_code(spec_kind_code(k)) == k,
        spec_kind_code(spec_kind_from_code(spec_kind_code(k))) == spec_kind_code(k),
{
}

/// Extension trait to quickly get the kind of a request or response.
pub trait KindOf {
    /// The kind this value carries, as seen by contracts.
    spec fn spec_kind(&self) -> Kind;

    /// The kind this value carries.
    fn kind(&self) -> (k: Kind)
        ensures
            k == self.spec_kind(),
    ;
}

/// Identifier of one participant in a game.
#[derive(Debug, Default, Clone, Copy, PartialEq, Eq, Hash, Structural)]
pub struct PlayerId(pub u32);

impl PlayerId {
    /// The id of the neutral player.
    pub fn neutral() -> (r: PlayerId)
        ensures
            r.0 == 0,
    {
        PlayerId(0)
    }
}

/// An application-level error embedded in an otherwise well-formed
/// response, or a response whose variant slot was empty.
#[derive(Debug, Clone, PartialEq, Eq, Hash)]
pub struct Sc2Error {
    /// Which variant carried the error (`Kind::Unset` for an empty response).
    pub kind: Kind,
    /// The numeric error code from the payload (0 for an empty response).
    pub code: u32,
    /// The stringified error code.
    pub err: String,
    /// Human-readable detail, where the variant carries one.
    pub desc: String,
}

/// Every way an exchange can fail, flat so the caller can branch.
#[derive(Debug)]
pub enum Error {
    /// The connection-upgrade handshake failed.
    Handshake(String),
    /// The transport failed (connection refused, reset or closed).
    WebSocket(String),
    /// The frame's bytes were not a well-formed serialized message.
    Decode(String),
    /// The response kind did not match the request kind: `(got, expected)`.
    BadRes(Kind, Kind),
    /// The reported status was outside the expected set: `(got, expected)`.
    BadStatus(Status, Vec<Status>),
    /// The response carried an embedded application error.
    Sc2(Sc2Error),
}

} // verus!
