//! The typed messages of the protocol: the request and response unions,
//! their envelopes, and the mathematical views the codec contracts use.
//!
//! Payload semantics live with the peer: a request variant carries its
//! serialized payload opaquely. Response variants that embed an
//! application error code carry that code (and detail, where the variant
//! has one) as structured data, so the classifier can be verified; every
//! other response variant is opaque as well.

use crate::common::{Kind, KindOf};
use crate::status::Status;
use vstd::prelude::*;

verus! {

/// A request union: one operation variant, each carrying its serialized
/// payload bytes.
#[derive(Debug, Clone, PartialEq, Eq, Hash)]
pub enum Req {
    CreateGame(Vec<u8>),
    JoinGame(Vec<u8>),
    RestartGame(Vec<u8>),
    StartReplay(Vec<u8>),
    LeaveGame(Vec<u8>),
    QuickSave(Vec<u8>),
    QuickLoad(Vec<u8>),
    Quit(Vec<u8>),
    GameInfo(Vec<u8>),
    Observation(Vec<u8>),
    Action(Vec<u8>),
    ObsAction(Vec<u8>),
    Step(Vec<u8>),
    Data(Vec<u8>),
    Query(Vec<u8>),
    SaveReplay(Vec<u8>),
    ReplayInfo(Vec<u8>),
    AvailableMaps(Vec<u8>),
    SaveMap(Vec<u8>),
    MapCommand(Vec<u8>),
    Ping(Vec<u8>),
    Debug(Vec<u8>),
}

impl Req {
    /// The payload bytes this variant carries.
    pub open spec fn spec_payload(&self) -> Seq<u8> {
        match self {
            Req::CreateGame(p) => p@,
            Req::JoinGame(p) => p@,
            Req::RestartGame(p) => p@,
            Req::StartReplay(p) => p@,
            Req::LeaveGame(p) => p@,
            Req::QuickSave(p) => p@,
            Req::QuickLoad(p) => p@,
            Req::Quit(p) => p@,
            Req::GameInfo(p) => p@,
            Req::Observation(p) => p@,
            Req::Action(p) => p@,
            Req::ObsAction(p) => p@,
            Req::Step(p) => p@,
            Req::Data(p) => p@,
            Req::Query(p) => p@,
            Req::SaveReplay(p) => p@,
            Req::ReplayInfo(p) => p@,
            Req::AvailableMaps(p) => p@,
            Req::SaveMap(p) => p@,
            Req::MapCommand(p) => p@,
            Req::Ping(p) => p@,
            Req::Debug(p) => p@,
        }
    }

    /// Borrow the payload bytes this variant carries.
    pub fn payload(&self) -> (p: &Vec<u8>)
        ensures
            p@ == self.spec_payload(),
    {
        match self {
            Req::CreateGame(p) => p,
            Req::JoinGame(p) => p,
            Req::RestartGame(p) => p,
            Req::StartReplay(p) => p,
            Req::LeaveGame(p) => p,
            Req::QuickSave(p) => p,
            Req::QuickLoad(p) => p,
            Req::Quit(p) => p,
            Req::GameInfo(p) => p,
            Req::Observation(p) => p,
            Req::Action(p) => p,
            Req::ObsAction(p) => p,
            Req::Step(p) => p,
            Req::Data(p) => p,
            Req::Query(p) => p,
            Req::SaveReplay(p) => p,
            Req::ReplayInfo(p) => p,
            Req::AvailableMaps(p) => p,
            Req::SaveMap(p) => p,
            Req::MapCommand(p) => p,
            Req::Ping(p) => p,
            Req::Debug(p) => p,
        }
    }

    /// Build the variant of the given kind around payload bytes.
    pub fn from_kind(kind: Kind, payload: Vec<u8>) -> (r: Req)
        requires
            kind != Kind::Unset,
        ensures
            r.spec_kind() == kind,
            r.spec_payload() == payload@,
    {
        match kind {
            Kind::CreateGame => Req::CreateGame(payload),
            Kind::JoinGame => Req::JoinGame(payload),
            Kind::RestartGame => Req::RestartGame(payload),
            Kind::StartReplay => Req::StartReplay(payload),
            Kind::LeaveGame => Req::LeaveGame(payload),
            Kind::QuickSave => Req::QuickSave(payload),
            Kind::QuickLoad => Req::QuickLoad(payload),
            Kind::Quit => Req::Quit(payload),
            Kind::GameInfo => Req::GameInfo(payload),
            Kind::Observation => Req::Observation(payload),
            Kind::Action => Req::Action(payload),
            Kind::ObsAction => Req::ObsAction(payload),
            Kind::Step => Req::Step(payload),
            Kind::Data => Req::Data(payload),
            Kind::Query => Req::Query(payload),
            Kind::SaveReplay => Req::SaveReplay(payload),
            Kind::ReplayInfo => Req::ReplayInfo(payload),
            Kind::AvailableMaps => Req::AvailableMaps(payload),
            Kind::SaveMap => Req::SaveMap(payload),
            Kind::MapCommand => Req::MapCommand(payload),
            Kind::Ping => Req::Ping(payload),
            Kind::Debug => Req::Debug(payload),
            Kind::Unset => Req::Ping(payload),
        }
    }
}

impl KindOf for Req {
    open spec fn spec_kind(&self) -> Kind {
        match self {
            Req::CreateGame(_) => Kind::CreateGame,
            Req::JoinGame(_) => Kind::JoinGame,
            Req::RestartGame(_) => Kind::RestartGame,
            Req::StartReplay(_) => Kind::StartReplay,
            Req::LeaveGame(_) => Kind::LeaveGame,
            Req::QuickSave(_) => Kind::QuickSave,
            Req::QuickLoad(_) => Kind::QuickLoad,
            Req::Quit(_) => Kind::Quit,
            Req::GameInfo(_) => Kind::GameInfo,
            Req::Observation(_) => Kind::Observation,
            Req::Action(_) => Kind::Action,
            Req::ObsAction(_) => Kind::ObsAction,
            Req::Step(_) => Kind::Step,
            Req::Data(_) => Kind::Data,
            Req::Query(_) => Kind::Query,
            Req::SaveReplay(_) => Kind::SaveReplay,
            Req::ReplayInfo(_) => Kind::ReplayInfo,
            Req::AvailableMaps(_) => Kind::AvailableMaps,
            Req::SaveMap(_) => Kind::SaveMap,
            Req::MapCommand(_) => Kind::MapCommand,
            Req::Ping(_) => Kind::Ping,
            Req::Debug(_) => Kind::Debug,
        }
    }

    fn kind(&self) -> (k: Kind) {
        match self {
            Req::CreateGame(_) => Kind::CreateGame,
            Req::JoinGame(_) => Kind::JoinGame,
            Req::RestartGame(_) => Kind::RestartGame,
            Req::StartReplay(_) => Kind::StartReplay,
            Req::LeaveGame(_) => Kind::LeaveGame,
            Req::QuickSave(_) => Kind::QuickSave,
            Req::QuickLoad(_) => Kind::QuickLoad,
            Req::Quit(_) => Kind::Quit,
            Req::GameInfo(_) => Kind::GameInfo,
            Req::Observation(_) => Kind::Observation,
            Req::Action(_) => Kind::Action,
            Req::ObsAction(_) => Kind::ObsAction,
            Req::Step(_) => Kind::Step,
            Req::Data(_) => Kind::Data,
            Req::Query(_) => Kind::Query,
            Req::SaveReplay(_) => Kind::SaveReplay,
            Req::ReplayInfo(_) => Kind::ReplayInfo,
            Req::AvailableMaps(_) => Kind::AvailableMaps,
            Req::SaveMap(_) => Kind::SaveMap,
            Req::MapCommand(_) => Kind::MapCommand,
            Req::Ping(_) => Kind::Ping,
            Req::Debug(_) => Kind::Debug,
        }
    }
}

/// The embedded error sub-fields of a response variant that carries them:
/// a numeric code (0 means "no error") and a human-readable detail.
#[derive(Debug, Clone, PartialEq, Eq, Hash)]
pub struct ErrorInfo {
    pub error: u32,
    pub error_details: String,
}

/// A response union mirroring [`Req`] variant for variant. The variants
/// known to carry an embedded error code carry it as [`ErrorInfo`]
/// (`SaveMap` carries the bare code: it has no detail field); the rest
/// carry their payload bytes opaquely.
#[derive(Debug, Clone, PartialEq, Eq, Hash)]
pub enum ResVar {
    CreateGame(ErrorInfo),
    JoinGame(ErrorInfo),
    RestartGame(ErrorInfo),
    StartReplay(ErrorInfo),
    LeaveGame(Vec<u8>),
    QuickSave(Vec<u8>),
    QuickLoad(Vec<u8>),
    Quit(Vec<u8>),
    GameInfo(Vec<u8>),
    Observation(Vec<u8>),
    Action(Vec<u8>),
    ObsAction(Vec<u8>),
    Step(Vec<u8>),
    Data(Vec<u8>),
    Query(Vec<u8>),
    SaveReplay(Vec<u8>),
    ReplayInfo(ErrorInfo),
    AvailableMaps(Vec<u8>),
    SaveMap(u32),
    MapCommand(ErrorInfo),
    Ping(Vec<u8>),
    Debug(Vec<u8>),
}

impl KindOf for ResVar {
    open spec fn spec_kind(&self) -> Kind {
        match self {
            ResVar::CreateGame(_) => Kind::CreateGame,
            ResVar::JoinGame(_) => Kind::JoinGame,
            ResVar::RestartGame(_) => Kind::RestartGame,
            ResVar::StartReplay(_) => Kind::StartReplay,
            ResVar::LeaveGame(_) => Kind::LeaveGame,
            ResVar::QuickSave(_) => Kind::QuickSave,
            ResVar::QuickLoad(_) => Kind::QuickLoad,
            ResVar::Quit(_) => Kind::Quit,
            ResVar::GameInfo(_) => Kind::GameInfo,
            ResVar::Observation(_) => Kind::Observation,
            ResVar::Action(_) => Kind::Action,
            ResVar::ObsAction(_) => Kind::ObsAction,
            ResVar::Step(_) => Kind::Step,
            ResVar::Data(_) => Kind::Data,
            ResVar::Query(_) => Kind::Query,
            ResVar::SaveReplay(_) => Kind::SaveReplay,
            ResVar::ReplayInfo(_) => Kind::ReplayInfo,
            ResVar::AvailableMaps(_) => Kind::AvailableMaps,
            ResVar::SaveMap(_) => Kind::SaveMap,
            ResVar::MapCommand(_) => Kind::MapCommand,
            ResVar::Ping(_) => Kind::Ping,
            ResVar::Debug(_) => Kind::Debug,
        }
    }

    fn kind(&self) -> (k: Kind) {
        match self {
            ResVar::CreateGame(_) => Kind::CreateGame,
            ResVar::JoinGame(_) => Kind::JoinGame,
            ResVar::RestartGame(_) => Kind::RestartGame,
            ResVar::StartReplay(_) => Kind::StartReplay,
            ResVar::LeaveGame(_) => Kind::LeaveGame,
            ResVar::QuickSave(_) => Kind::QuickSave,
            ResVar::QuickLoad(_) => Kind::QuickLoad,
            ResVar::Quit(_) => Kind::Quit,
            ResVar::GameInfo(_) => Kind::GameInfo,
            ResVar::Observation(_) => Kind::Observation,
            ResVar::Action(_) => Kind::Action,
            ResVar::ObsAction(_) => Kind::ObsAction,
            ResVar::Step(_) => Kind::Step,
            ResVar::Data(_) => Kind::Data,
            ResVar::Query(_) => Kind::Query,
            ResVar::SaveReplay(_) => Kind::SaveReplay,
            ResVar::ReplayInfo(_) => Kind::ReplayInfo,
            ResVar::AvailableMaps(_) => Kind::AvailableMaps,
            ResVar::SaveMap(_) => Kind::SaveMap,
            ResVar::MapCommand(_) => Kind::MapCommand,
            ResVar::Ping(_) => Kind::Ping,
            ResVar::Debug(_) => Kind::Debug,
        }
    }
}

/// The shape of a response variant as contracts see it.
pub enum ResVarV {
    /// A variant with an embedded error code and a detail string.
    Coded(Kind, u32, Seq<char>),
    /// The `SaveMap` variant: an embedded error code and no detail.
    CodeOnly(u32),
    /// Any other variant: opaque payload bytes.
    Opaque(Kind, Seq<u8>),
}

impl ResVarV {
    /// The kind of the variant this view describes.
    pub open spec fn kind(self) -> Kind {
        match self {
            ResVarV::Coded(k, _, _) => k,
            ResVarV::CodeOnly(_) => Kind::SaveMap,
            ResVarV::Opaque(k, _) => k,
        }
    }

    /// Whether this view describes a variant that the union can hold.
    pub open spec fn wf(self) -> bool {
        match self {
            ResVarV::Coded(k, _, _) => k == Kind::CreateGame || k == Kind::JoinGame || k
                == Kind::RestartGame || k == Kind::StartReplay || k == Kind::ReplayInfo || k
                == Kind::MapCommand,
            ResVarV::CodeOnly(_) => true,
            ResVarV::Opaque(k, _) => !(k == Kind::Unset || k == Kind::CreateGame || k
                == Kind::JoinGame || k == Kind::RestartGame || k == Kind::StartReplay || k
                == Kind::ReplayInfo || k == Kind::MapCommand || k == Kind::SaveMap),
        }
    }
}

impl View for ResVar {
    type V = ResVarV;

    open spec fn view(&self) -> ResVarV {
        match self {
            ResVar::CreateGame(e) => ResVarV::Coded(Kind::CreateGame, e.error, e.error_details@),
            ResVar::JoinGame(e) => ResVarV::Coded(Kind::JoinGame, e.error, e.error_details@),
            ResVar::RestartGame(e) => ResVarV::Coded(Kind::RestartGame, e.error, e.error_details@),
            ResVar::StartReplay(e) => ResVarV::Coded(Kind::StartReplay, e.error, e.error_details@),
            ResVar::LeaveGame(p) => ResVarV::Opaque(Kind::LeaveGame, p@),
            ResVar::QuickSave(p) => ResVarV::Opaque(Kind::QuickSave, p@),
            ResVar::QuickLoad(p) => ResVarV::Opaque(Kind::QuickLoad, p@),
            ResVar::Quit(p) => ResVarV::Opaque(Kind::Quit, p@),
            ResVar::GameInfo(p) => ResVarV::Opaque(Kind::GameInfo, p@),
            ResVar::Observation(p) => ResVarV::Opaque(Kind::Observation, p@),
            ResVar::Action(p) => ResVarV::Opaque(Kind::Action, p@),
            ResVar::ObsAction(p) => ResVarV::Opaque(Kind::ObsAction, p@),
            ResVar::Step(p) => ResVarV::Opaque(Kind::Step, p@),
            ResVar::Data(p) => ResVarV::Opaque(Kind::Data, p@),
            ResVar::Query(p) => ResVarV::Opaque(Kind::Query, p@),
            ResVar::SaveReplay(p) => ResVarV::Opaque(Kind::SaveReplay, p@),
            ResVar::ReplayInfo(e) => ResVarV::Coded(Kind::ReplayInfo, e.error, e.error_details@),
            ResVar::AvailableMaps(p) => ResVarV::Opaque(Kind::AvailableMaps, p@),
            ResVar::SaveMap(code) => ResVarV::CodeOnly(*code),
            ResVar::MapCommand(e) => ResVarV::Coded(Kind::MapCommand, e.error, e.error_details@),
            ResVar::Ping(p) => ResVarV::Opaque(Kind::Ping, p@),
            ResVar::Debug(p) => ResVarV::Opaque(Kind::Debug, p@),
        }
    }
}

/// The variant's view has the variant's kind.
pub proof fn lemma_res_var_view_kind(v: ResVar)
    ensures
        v@.kind() == v.spec_kind(),
        v@.wf(),
{
}

/// A request envelope as it crosses the wire: an optional correlation id
/// (0 where the caller set none) and at most one variant.
#[derive(Debug, Clone, PartialEq, Eq, Hash)]
pub struct Request {
    pub id: u32,
    pub request: Option<Req>,
}

/// The request envelope as contracts see it: id, kind and payload, with
/// `Kind::Unset` and an empty payload standing for an absent variant.
pub struct RequestV {
    pub id: u32,
    pub kind: Kind,
    pub payload: Seq<u8>,
}

impl RequestV {
    /// Whether this view describes an envelope the types can hold.
    pub open spec fn wf(self) -> bool {
        self.kind == Kind::Unset ==> self.payload.len() == 0
    }
}

impl View for Request {
    type V = RequestV;

    open spec fn view(&self) -> RequestV {
        match self.request {
            Some(r) => RequestV { id: self.id, kind: r.spec_kind(), payload: r.spec_payload() },
            None => RequestV { id: self.id, kind: Kind::Unset, payload: Seq::empty() },
        }
    }
}

impl Request {
    /// Wrap a request union in an envelope with the default correlation id.
    pub fn wrap(req: Req) -> (r: Request)
        ensures
            r@.id == 0,
            r@.kind == req.spec_kind(),
            r@.payload == req.spec_payload(),
    {
        Request { id: 0, request: Some(req) }
    }
}

impl KindOf for Request {
    open spec fn spec_kind(&self) -> Kind {
        self@.kind
    }

    fn kind(&self) -> (k: Kind) {
        match &self.request {
            Some(r) => r.kind(),
            None => Kind::Unset,
        }
    }
}

/// A response envelope as it crosses the wire: the echoed correlation id,
/// the peer's reported lifecycle status, warning/error strings, and at
/// most one variant.
#[derive(Debug, Clone, PartialEq, Eq, Hash)]
pub struct Response {
    pub id: u32,
    pub status: Status,
    pub error: Vec<String>,
    pub response: Option<ResVar>,
}

/// The character sequences of a sequence of strings.
pub open spec fn strs_view(v: Seq<String>) -> Seq<Seq<char>> {
    Seq::new(v.len(), |i: int| v[i]@)
}

/// The response envelope as contracts see it.
pub struct ResponseV {
    pub id: u32,
    pub status: Status,
    pub warns: Seq<Seq<char>>,
    pub var: Option<ResVarV>,
}

impl ResponseV {
    /// Whether this view describes an envelope the types can hold.
    pub open spec fn wf(self) -> bool {
        match self.var {
            Some(v) => v.wf(),
            None => true,
        }
    }
}

impl View for Response {
    type V = ResponseV;

    open spec fn view(&self) -> ResponseV {
        ResponseV {
            id: self.id,
            status: self.status,
            warns: strs_view(self.error@),
            var: match self.response {
                Some(v) => Some(v@),
                None => None,
            },
        }
    }
}

impl KindOf for Response {
    open spec fn spec_kind(&self) -> Kind {
        match self.response {
            Some(v) => v.spec_kind(),
            None => Kind::Unset,
        }
    }

    fn kind(&self) -> (k: Kind) {
        match &self.response {
            Some(v) => v.kind(),
            None => Kind::Unset,
        }
    }
}

} // verus!
