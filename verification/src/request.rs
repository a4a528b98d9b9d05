//! Convenience builders for individual requests: small configuration
//! types that serialize themselves into the payload of the matching
//! request variant, and per-request narrowing of the response union.

use crate::common::{Error, Kind, KindOf};
use crate::msg::{Req, Request, ResVar};
use crate::wire::{append_bytes, enc_bytes, enc_str, vint_enc, write_lenb, write_str, write_vint};
use vstd::prelude::*;

verus! {

/// A map or replay handle: either a path on the peer's machine or the
/// raw file bytes.
#[derive(Debug, Clone, PartialEq, Eq, Hash)]
pub enum Load {
    Path(String),
    Data(Vec<u8>),
}

impl Default for Load {
    /// An empty path.
    fn default() -> (r: Load)
        ensures
            r matches Load::Path(p) && p@ == Seq::<char>::empty(),
    {
        Load::Path(String::new())
    }
}

/// One byte tagging the handle's variant, then its contents.
pub open spec fn spec_enc_load(l: Load) -> Seq<u8> {
    match l {
        Load::Path(p) => seq![0u8] + enc_str(p@),
        Load::Data(d) => seq![1u8] + enc_bytes(d@),
    }
}

/// Append the encoding of a handle.
fn write_load(out: &mut Vec<u8>, l: &Load)
    ensures
        final(out)@ == old(out)@ + spec_enc_load(*l),
{
    match l {
        Load::Path(p) => {
            out.push(0);
            write_str(out, p);
        },
        Load::Data(d) => {
            out.push(1);
            write_lenb(out, d);
        },
    }
    proof {
        assert(out@ =~= old(out)@ + spec_enc_load(*l));
    }
}

/// One boolean as one byte.
pub open spec fn spec_enc_bool(b: bool) -> Seq<u8> {
    if b {
        seq![1u8]
    } else {
        seq![0u8]
    }
}

/// Append the encoding of a boolean.
fn write_bool(out: &mut Vec<u8>, b: bool)
    ensures
        final(out)@ == old(out)@ + spec_enc_bool(b),
{
    if b {
        out.push(1);
    } else {
        out.push(0);
    }
    proof {
        assert(out@ =~= old(out)@ + spec_enc_bool(b));
    }
}

/// A computer-controlled participant: race, difficulty, name and AI
/// build, each as the protocol's numeric code.
#[derive(Debug, Default, Clone, PartialEq, Eq, Hash)]
pub struct Computer {
    pub race: u32,
    pub difficulty: u32,
    pub name: String,
    pub ai_build: u32,
}

/// One participant of a game to create.
#[derive(Debug, Clone, PartialEq, Eq, Hash)]
pub enum Participant {
    Player,
    Computer(Computer),
    Observer,
}

/// One byte tagging the participant type, then a computer's fields.
pub open spec fn spec_enc_participant(p: Participant) -> Seq<u8> {
    match p {
        Participant::Player => seq![0u8],
        Participant::Computer(c) => seq![1u8] + vint_enc(c.race as u64) + vint_enc(
            c.difficulty as u64,
        ) + enc_str(c.name@) + vint_enc(c.ai_build as u64),
        Participant::Observer => seq![2u8],
    }
}

/// The participants in order, each tagged.
pub open spec fn spec_enc_participants(ps: Seq<Participant>) -> Seq<u8>
    decreases ps.len(),
{
    if ps.len() == 0 {
        Seq::empty()
    } else {
        spec_enc_participant(ps[0]) + spec_enc_participants(ps.skip(1))
    }
}

/// Append the encoding of one participant.
fn write_participant(out: &mut Vec<u8>, p: &Participant)
    ensures
        final(out)@ == old(out)@ + spec_enc_participant(*p),
{
    match p {
        Participant::Player => {
            out.push(0);
        },
        Participant::Computer(c) => {
            out.push(1);
            write_vint(out, c.race as u64);
            write_vint(out, c.difficulty as u64);
            write_str(out, &c.name);
            write_vint(out, c.ai_build as u64);
        },
        Participant::Observer => {
            out.push(2);
        },
    }
    proof {
        assert(out@ =~= old(out)@ + spec_enc_participant(*p));
    }
}

/// Appending one more participant extends the encoded list by its block.
proof fn lemma_enc_participants_take(ps: Seq<Participant>, i: int)
    requires
        0 <= i < ps.len(),
    ensures
        spec_enc_participants(ps.take(i + 1)) == spec_enc_participants(ps.take(i))
            + spec_enc_participant(ps[i]),
    decreases i,
{
    if i == 0 {
        let t1 = ps.take(1);
        assert(t1.len() == 1);
        assert(t1[0] == ps[0]);
        assert(t1.skip(1) =~= Seq::<Participant>::empty());
        assert(spec_enc_participants(t1.skip(1)) == Seq::<u8>::empty());
        assert(ps.take(0) =~= Seq::<Participant>::empty());
        assert(spec_enc_participant(ps[0]) + Seq::<u8>::empty() =~= spec_enc_participant(ps[0]));
        assert(Seq::<u8>::empty() + spec_enc_participant(ps[0]) =~= spec_enc_participant(ps[0]));
    } else {
        lemma_enc_participants_take(ps.skip(1), i - 1);
        assert(ps.take(i + 1)[0] == ps[0]);
        assert(ps.take(i + 1).skip(1) =~= ps.skip(1).take(i));
        assert(ps.take(i)[0] == ps[0]);
        assert(ps.take(i).skip(1) =~= ps.skip(1).take(i - 1));
        assert(ps.skip(1)[i - 1] == ps[i]);
        assert(spec_enc_participant(ps[0]) + (spec_enc_participants(ps.skip(1).take(i - 1))
            + spec_enc_participant(ps[i])) =~= (spec_enc_participant(ps[0])
            + spec_enc_participants(ps.skip(1).take(i - 1))) + spec_enc_participant(ps[i]));
    }
}

/// Append the encoding of all participants, count first.
#[verifier::loop_isolation(false)]
fn write_participants(out: &mut Vec<u8>, ps: &Vec<Participant>)
    ensures
        final(out)@ == old(out)@ + vint_enc(ps@.len() as u64) + spec_enc_participants(ps@),
{
    write_vint(out, ps.len() as u64);
    let ghost head = out@;
    let mut i: usize = 0;
    while i < ps.len()
        invariant
            i <= ps.len(),
            out@ == head + spec_enc_participants(ps@.take(i as int)),
        decreases ps.len() - i,
    {
        proof {
            lemma_enc_participants_take(ps@, i as int);
        }
        write_participant(out, &ps[i]);
        i = i + 1;
        proof {
            assert(out@ =~= head + spec_enc_participants(ps@.take(i as int)));
        }
    }
    proof {
        assert(ps@.take(ps@.len() as int) =~= ps@);
    }
}

/// Game configuration for a `CreateGame` request.
#[derive(Debug, Clone, PartialEq, Eq, Hash)]
pub struct GameCfg {
    /// Map for the game, as a path or as data bytes.
    pub map: Load,
    /// Game participants.
    pub participants: Vec<Participant>,
    /// Disable fog of war for all players.
    pub disable_fog: bool,
    /// Reproduces the game's randomness when set.
    pub random_seed: u32,
    /// Run in realtime mode rather than step mode.
    pub realtime: bool,
}

impl Default for GameCfg {
    /// An empty map path, no participants, every switch off.
    fn default() -> (r: GameCfg)
        ensures
            r.map matches Load::Path(p) && p@ == Seq::<char>::empty(),
            r.participants@.len() == 0,
            !r.disable_fog,
            r.random_seed == 0,
            !r.realtime,
    {
        GameCfg {
            map: Load::Path(String::new()),
            participants: Vec::new(),
            disable_fog: false,
            random_seed: 0,
            realtime: false,
        }
    }
}

/// The payload a game configuration serializes to.
pub open spec fn spec_enc_game_cfg(cfg: GameCfg) -> Seq<u8> {
    spec_enc_load(cfg.map) + vint_enc(cfg.participants@.len() as u64) + spec_enc_participants(
        cfg.participants@,
    ) + spec_enc_bool(cfg.disable_fog) + vint_enc(cfg.random_seed as u64) + spec_enc_bool(
        cfg.realtime,
    )
}

impl GameCfg {
    /// The `CreateGame` request this configuration stands for.
    pub fn to_req(&self) -> (r: Req)
        ensures
            r.spec_kind() == Kind::CreateGame,
            r.spec_payload() == spec_enc_game_cfg(*self),
    {
        let mut p: Vec<u8> = Vec::new();
        write_load(&mut p, &self.map);
        write_participants(&mut p, &self.participants);
        write_bool(&mut p, self.disable_fog);
        write_vint(&mut p, self.random_seed as u64);
        write_bool(&mut p, self.realtime);
        proof {
            assert(p@ =~= spec_enc_game_cfg(*self));
        }
        Req::CreateGame(p)
    }
}

/// A game/base port pair used for multiplayer setup.
#[derive(Debug, Default, Clone, Copy, PartialEq, Eq, Hash, Structural)]
pub struct Ports {
    pub game: u16,
    pub base: u16,
}

impl Ports {
    pub fn new(game: u16, base: u16) -> (r: Ports)
        ensures
            r.game == game,
            r.base == base,
    {
        Ports { game, base }
    }
}

/// Replay configuration for a `StartReplay` request.
#[derive(Debug, Clone, PartialEq, Eq, Hash)]
pub struct ReplayCfg {
    /// Replay to watch, as a path or as data bytes.
    pub replay: Load,
    /// Map override data.
    pub map_data: Vec<u8>,
    /// Player to observe.
    pub player: u32,
    /// Disable fog of war.
    pub disable_fog: bool,
    /// Run in realtime mode.
    pub realtime: bool,
    /// Record the watched replay again.
    pub record: bool,
}

/// The payload a replay configuration serializes to.
pub open spec fn spec_enc_replay_cfg(cfg: ReplayCfg) -> Seq<u8> {
    spec_enc_load(cfg.replay) + enc_bytes(cfg.map_data@) + vint_enc(cfg.player as u64)
        + spec_enc_bool(cfg.disable_fog) + spec_enc_bool(cfg.realtime) + spec_enc_bool(cfg.record)
}

impl ReplayCfg {
    /// The `StartReplay` request this configuration stands for.
    pub fn to_req(&self) -> (r: Req)
        ensures
            r.spec_kind() == Kind::StartReplay,
            r.spec_payload() == spec_enc_replay_cfg(*self),
    {
        let mut p: Vec<u8> = Vec::new();
        write_load(&mut p, &self.replay);
        write_lenb(&mut p, &self.map_data);
        write_vint(&mut p, self.player as u64);
        write_bool(&mut p, self.disable_fog);
        write_bool(&mut p, self.realtime);
        write_bool(&mut p, self.record);
        proof {
            assert(p@ =~= spec_enc_replay_cfg(*self));
        }
        Req::StartReplay(p)
    }
}

/// Configuration for a `ReplayInfo` request.
#[derive(Debug, Clone, PartialEq, Eq, Hash)]
pub struct ReplayInfoCfg {
    /// Replay to inspect, as a path or as data bytes.
    pub replay: Load,
    /// Also download the replay's data.
    pub download_data: bool,
}

/// The payload a replay-info configuration serializes to.
pub open spec fn spec_enc_replay_info_cfg(cfg: ReplayInfoCfg) -> Seq<u8> {
    spec_enc_load(cfg.replay) + spec_enc_bool(cfg.download_data)
}

impl ReplayInfoCfg {
    /// The `ReplayInfo` request this configuration stands for.
    pub fn to_req(&self) -> (r: Req)
        ensures
            r.spec_kind() == Kind::ReplayInfo,
            r.spec_payload() == spec_enc_replay_info_cfg(*self),
    {
        let mut p: Vec<u8> = Vec::new();
        write_load(&mut p, &self.replay);
        write_bool(&mut p, self.download_data);
        proof {
            assert(p@ =~= spec_enc_replay_info_cfg(*self));
        }
        Req::ReplayInfo(p)
    }
}

/// Narrow the response union to the payload a request type expects,
/// failing with a kind mismatch on every other variant.
pub trait MapResponse: Sized {
    /// The narrowed payload type.
    type Data;

    /// The response kind this request type expects.
    spec fn spec_expected_kind() -> Kind;

    /// The payload carried by a variant of the expected kind; what it
    /// says of any other variant does not matter, since narrowing such
    /// a variant fails.
    spec fn spec_data(res: ResVar) -> Self::Data;

    /// Narrow one response variant: the matching variant's own payload,
    /// or a kind mismatch.
    fn map_res(res: ResVar) -> (r: Result<Self::Data, Error>)
        ensures
            r is Ok <==> res.spec_kind() == Self::spec_expected_kind(),
            r matches Ok(d) ==> d == Self::spec_data(res),
            r matches Err(e) ==> (e matches Error::BadRes(got, expected) && got == res.spec_kind()
                && expected == Self::spec_expected_kind()),
    ;
}

/// A `GameInfo` request; its payload is empty.
#[derive(Debug, Default, Clone, Copy, PartialEq, Eq, Hash, Structural)]
pub struct GameInfo;

/// A `SaveReplay` request; its payload is empty.
#[derive(Debug, Default, Clone, Copy, PartialEq, Eq, Hash, Structural)]
pub struct SaveReplay;

/// A `RestartGame` request; its payload is empty.
#[derive(Debug, Default, Clone, Copy, PartialEq, Eq, Hash, Structural)]
pub struct RestartGame;

/// A `LeaveGame` request; its payload is empty.
#[derive(Debug, Default, Clone, Copy, PartialEq, Eq, Hash, Structural)]
pub struct LeaveGame;

/// A `QuickSave` request; its payload is empty.
#[derive(Debug, Default, Clone, Copy, PartialEq, Eq, Hash, Structural)]
pub struct QuickSave;

/// A `QuickLoad` request; its payload is empty.
#[derive(Debug, Default, Clone, Copy, PartialEq, Eq, Hash, Structural)]
pub struct QuickLoad;

/// A `Quit` request; its payload is empty.
#[derive(Debug, Default, Clone, Copy, PartialEq, Eq, Hash, Structural)]
pub struct Quit;

impl GameInfo {
    /// The wrapped envelope of this request.
    pub fn to_request(self) -> (r: Request)
        ensures
            r@.id == 0,
            r@.kind == Kind::GameInfo,
            r@.payload == Seq::<u8>::empty(),
    {
        Request::wrap(Req::GameInfo(Vec::new()))
    }
}

impl KindOf for GameInfo {
    open spec fn spec_kind(&self) -> Kind {
        Kind::GameInfo
    }

    fn kind(&self) -> (k: Kind) {
        Kind::GameInfo
    }
}

impl MapResponse for GameInfo {
    type Data = Vec<u8>;

    open spec fn spec_expected_kind() -> Kind {
        Kind::GameInfo
    }

    open spec fn spec_data(res: ResVar) -> Vec<u8> {
        match res {
            ResVar::GameInfo(data) => data,
            _ => arbitrary(),
        }
    }

    fn map_res(res: ResVar) -> (r: Result<Vec<u8>, Error>) {
        let kind = res.kind();
        match res {
            ResVar::GameInfo(data) => Ok(data),
            _ => Err(Error::BadRes(kind, Kind::GameInfo)),
        }
    }
}

impl SaveReplay {
    /// The wrapped envelope of this request.
    pub fn to_request(self) -> (r: Request)
        ensures
            r@.id == 0,
            r@.kind == Kind::SaveReplay,
            r@.payload == Seq::<u8>::empty(),
    {
        Request::wrap(Req::SaveReplay(Vec::new()))
    }
}

impl KindOf for SaveReplay {
    open spec fn spec_kind(&self) -> Kind {
        Kind::SaveReplay
    }

    fn kind(&self) -> (k: Kind) {
        Kind::SaveReplay
    }
}

impl MapResponse for SaveReplay {
    type Data = Vec<u8>;

    open spec fn spec_expected_kind() -> Kind {
        Kind::SaveReplay
    }

    open spec fn spec_data(res: ResVar) -> Vec<u8> {
        match res {
            ResVar::SaveReplay(data) => data,
            _ => arbitrary(),
        }
    }

    fn map_res(res: ResVar) -> (r: Result<Vec<u8>, Error>) {
        let kind = res.kind();
        match res {
            ResVar::SaveReplay(data) => Ok(data),
            _ => Err(Error::BadRes(kind, Kind::SaveReplay)),
        }
    }
}

impl RestartGame {
    /// The wrapped envelope of this request.
    pub fn to_request(self) -> (r: Request)
        ensures
            r@.id == 0,
            r@.kind == Kind::RestartGame,
            r@.payload == Seq::<u8>::empty(),
    {
        Request::wrap(Req::RestartGame(Vec::new()))
    }
}

impl KindOf for RestartGame {
    open spec fn spec_kind(&self) -> Kind {
        Kind::RestartGame
    }

    fn kind(&self) -> (k: Kind) {
        Kind::RestartGame
    }
}

impl LeaveGame {
    /// The wrapped envelope of this request.
    pub fn to_request(self) -> (r: Request)
        ensures
            r@.id == 0,
            r@.kind == Kind::LeaveGame,
            r@.payload == Seq::<u8>::empty(),
    {
        Request::wrap(Req::LeaveGame(Vec::new()))
    }
}

impl KindOf for LeaveGame {
    open spec fn spec_kind(&self) -> Kind {
        Kind::LeaveGame
    }

    fn kind(&self) -> (k: Kind) {
        Kind::LeaveGame
    }
}

impl MapResponse for LeaveGame {
    type Data = ();

    open spec fn spec_expected_kind() -> Kind {
        Kind::LeaveGame
    }

    open spec fn spec_data(res: ResVar) -> () {
        ()
    }

    fn map_res(res: ResVar) -> (r: Result<(), Error>) {
        let kind = res.kind();
        match res {
            ResVar::LeaveGame(_) => Ok(()),
            _ => Err(Error::BadRes(kind, Kind::LeaveGame)),
        }
    }
}

impl QuickSave {
    /// The wrapped envelope of this request.
    pub fn to_request(self) -> (r: Request)
        ensures
            r@.id == 0,
            r@.kind == Kind::QuickSave,
            r@.payload == Seq::<u8>::empty(),
    {
        Request::wrap(Req::QuickSave(Vec::new()))
    }
}

impl KindOf for QuickSave {
    open spec fn spec_kind(&self) -> Kind {
        Kind::QuickSave
    }

    fn kind(&self) -> (k: Kind) {
        Kind::QuickSave
    }
}

impl MapResponse for QuickSave {
    type Data = ();

    open spec fn spec_expected_kind() -> Kind {
        Kind::QuickSave
    }

    open spec fn spec_data(res: ResVar) -> () {
        ()
    }

    fn map_res(res: ResVar) -> (r: Result<(), Error>) {
        let kind = res.kind();
        match res {
            ResVar::QuickSave(_) => Ok(()),
            _ => Err(Error::BadRes(kind, Kind::QuickSave)),
        }
    }
}

impl QuickLoad {
    /// The wrapped envelope of this request.
    pub fn to_request(self) -> (r: Request)
        ensures
            r@.id == 0,
            r@.kind == Kind::QuickLoad,
            r@.payload == Seq::<u8>::empty(),
    {
        Request::wrap(Req::QuickLoad(Vec::new()))
    }
}

impl KindOf for QuickLoad {
    open spec fn spec_kind(&self) -> Kind {
        Kind::QuickLoad
    }

    fn kind(&self) -> (k: Kind) {
        Kind::QuickLoad
    }
}

impl MapResponse for QuickLoad {
    type Data = ();

    open spec fn spec_expected_kind() -> Kind {
        Kind::QuickLoad
    }

    open spec fn spec_data(res: ResVar) -> () {
        ()
    }

    fn map_res(res: ResVar) -> (r: Result<(), Error>) {
        let kind = res.kind();
        match res {
            ResVar::QuickLoad(_) => Ok(()),
            _ => Err(Error::BadRes(kind, Kind::QuickLoad)),
        }
    }
}

impl Quit {
    /// The wrapped envelope of this request.
    pub fn to_request(self) -> (r: Request)
        ensures
            r@.id == 0,
            r@.kind == Kind::Quit,
            r@.payload == Seq::<u8>::empty(),
    {
        Request::wrap(Req::Quit(Vec::new()))
    }
}

impl KindOf for Quit {
    open spec fn spec_kind(&self) -> Kind {
        Kind::Quit
    }

    fn kind(&self) -> (k: Kind) {
        Kind::Quit
    }
}

impl MapResponse for Quit {
    type Data = ();

    open spec fn spec_expected_kind() -> Kind {
        Kind::Quit
    }

    open spec fn spec_data(res: ResVar) -> () {
        ()
    }

    fn map_res(res: ResVar) -> (r: Result<(), Error>) {
        let kind = res.kind();
        match res {
            ResVar::Quit(_) => Ok(()),
            _ => Err(Error::BadRes(kind, Kind::Quit)),
        }
    }
}

impl MapResponse for RestartGame {
    type Data = crate::msg::ErrorInfo;

    open spec fn spec_expected_kind() -> Kind {
        Kind::RestartGame
    }

    open spec fn spec_data(res: ResVar) -> crate::msg::ErrorInfo {
        match res {
            ResVar::RestartGame(data) => data,
            _ => arbitrary(),
        }
    }

    fn map_res(res: ResVar) -> (r: Result<crate::msg::ErrorInfo, Error>) {
        let kind = res.kind();
        match res {
            ResVar::RestartGame(data) => Ok(data),
            _ => Err(Error::BadRes(kind, Kind::RestartGame)),
        }
    }
}

} // verus!
