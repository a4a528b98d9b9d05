//! The client-side session core: the error classifier, the per-exchange
//! validation pipeline, and the session state it guards.
//!
//! The session never touches a connection. The caller (which owns the
//! transport) encodes a request with [`req_into_msg`], sends the frame,
//! reads exactly one frame back, and hands it to [`Session::read`], which
//! decodes it, validates the kind pairing, classifies embedded errors,
//! validates the status transition, and only then advances the status.

use crate::common::{Error, Kind, KindOf, Sc2Error};
use crate::msg::{strs_view, Req, Request, ResVar, ResVarV, Response};
use crate::status::{check_status, status_accepted, Status};
use crate::wire::{decode_response, encode_request, spec_enc_request, spec_parse_response};
use vstd::prelude::*;
use vstd::string::StringExecFns;

verus! {

/// The envelope returned to the caller on success: the narrowed data,
/// the peer's reported status, and its warning strings.
#[derive(Debug, Clone, PartialEq, Eq, Hash)]
pub struct Res<R> {
    pub data: R,
    pub status: Status,
    pub warns: Vec<String>,
}

impl KindOf for Res<ResVar> {
    open spec fn spec_kind(&self) -> Kind {
        self.data.spec_kind()
    }

    fn kind(&self) -> (k: Kind) {
        self.data.kind()
    }
}

/// Forget the payload, keeping status and warnings.
pub fn empty_res<R>(res: Res<R>) -> (r: Res<()>)
    ensures
        r.status == res.status,
        r.warns == res.warns,
{
    Res { data: (), status: res.status, warns: res.warns }
}

// ---- small verified string builders ----

/// The character of one decimal digit.
pub open spec fn digit_char(d: nat) -> char {
    if d == 0 {
        '0'
    } else if d == 1 {
        '1'
    } else if d == 2 {
        '2'
    } else if d == 3 {
        '3'
    } else if d == 4 {
        '4'
    } else if d == 5 {
        '5'
    } else if d == 6 {
        '6'
    } else if d == 7 {
        '7'
    } else if d == 8 {
        '8'
    } else {
        '9'
    }
}

/// The decimal notation of a number, most significant digit first.
pub open spec fn dec_str(n: nat) -> Seq<char>
    decreases n,
{
    if n < 10 {
        seq![digit_char(n)]
    } else {
        dec_str(n / 10) + seq![digit_char(n % 10)]
    }
}

/// Append one decimal digit.
fn push_digit(out: &mut String, d: u32)
    requires
        d < 10,
    ensures
        final(out)@ == old(out)@ + seq![digit_char(d as nat)],
{
    let s: &str = if d == 0 {
        "0"
    } else if d == 1 {
        "1"
    } else if d == 2 {
        "2"
    } else if d == 3 {
        "3"
    } else if d == 4 {
        "4"
    } else if d == 5 {
        "5"
    } else if d == 6 {
        "6"
    } else if d == 7 {
        "7"
    } else if d == 8 {
        "8"
    } else {
        "9"
    };
    proof {
        reveal_strlit("0");
        reveal_strlit("1");
        reveal_strlit("2");
        reveal_strlit("3");
        reveal_strlit("4");
        reveal_strlit("5");
        reveal_strlit("6");
        reveal_strlit("7");
        reveal_strlit("8");
        reveal_strlit("9");
    }
    out.append(s);
    proof {
        assert(out@ =~= old(out)@ + seq![digit_char(d as nat)]);
    }
}

/// Append the decimal notation of `n`.
fn push_dec(out: &mut String, n: u32)
    ensures
        final(out)@ == old(out)@ + dec_str(n as nat),
    decreases n,
{
    if n < 10 {
        push_digit(out, n);
    } else {
        push_dec(out, n / 10);
        push_digit(out, n % 10);
        proof {
            assert(out@ =~= old(out)@ + dec_str(n as nat));
        }
    }
}

/// The decimal notation of `n` as a string.
pub fn u32_dec_string(n: u32) -> (r: String)
    ensures
        r@ == dec_str(n as nat),
{
    let mut r = String::new();
    push_dec(&mut r, n);
    proof {
        assert(Seq::<char>::empty() + dec_str(n as nat) =~= dec_str(n as nat));
    }
    r
}

/// The strings joined with one newline between neighbours.
pub open spec fn spec_join(ws: Seq<Seq<char>>) -> Seq<char>
    decreases ws.len(),
{
    if ws.len() == 0 {
        Seq::empty()
    } else if ws.len() == 1 {
        ws[0]
    } else {
        ws[0] + seq!['\n'] + spec_join(ws.skip(1))
    }
}

/// Joining one more string appends a newline and the string.
proof fn lemma_join_take(ws: Seq<Seq<char>>, i: int)
    requires
        1 <= i < ws.len(),
    ensures
        spec_join(ws.take(i + 1)) == spec_join(ws.take(i)) + seq!['\n'] + ws[i],
    decreases i,
{
    if i == 1 {
        let t2 = ws.take(2);
        assert(t2.len() == 2);
        assert(t2[0] == ws[0]);
        assert(t2.skip(1) =~= seq![ws[1]]);
        assert(spec_join(seq![ws[1]]) == ws[1]);
        let t1 = ws.take(1);
        assert(t1.len() == 1);
        assert(t1[0] == ws[0]);
        assert(spec_join(t1) == ws[0]);
    } else {
        lemma_join_take(ws.skip(1), i - 1);
        let ti1 = ws.take(i + 1);
        assert(ti1.len() == i + 1);
        assert(ti1[0] == ws[0]);
        assert(ti1.skip(1) =~= ws.skip(1).take(i));
        let ti = ws.take(i);
        assert(ti.len() == i);
        assert(ti[0] == ws[0]);
        assert(ti.skip(1) =~= ws.skip(1).take(i - 1));
        assert(ws.skip(1)[i - 1] == ws[i]);
        assert((ws[0] + seq!['\n'] + (spec_join(ws.skip(1).take(i - 1)) + seq!['\n'] + ws[i]))
            =~= ((ws[0] + seq!['\n'] + spec_join(ws.skip(1).take(i - 1))) + seq!['\n'] + ws[i]));
    }
}

/// Join the strings with one newline between neighbours.
#[verifier::loop_isolation(false)]
pub fn join_lines(v: &Vec<String>) -> (r: String)
    ensures
        r@ == spec_join(strs_view(v@)),
{
    let ghost ws = strs_view(v@);
    let mut r = String::new();
    let mut i: usize = 0;
    while i < v.len()
        invariant
            i <= v.len(),
            i == 0 ==> r@ == Seq::<char>::empty(),
            i >= 1 ==> r@ == spec_join(ws.take(i as int)),
        decreases v.len() - i,
    {
        proof {
            reveal_strlit("\n");
        }
        if i > 0 {
            proof {
                lemma_join_take(ws, i as int);
            }
            r.append("\n");
        }
        r.append(v[i].as_str());
        i = i + 1;
        proof {
            if i == 1 {
                assert(ws.take(1).len() == 1);
                assert(ws.take(1)[0] == ws[0]);
                assert(r@ =~= spec_join(ws.take(1)));
            } else {
                assert(r@ =~= spec_join(ws.take(i as int)));
            }
        }
    }
    proof {
        if v.len() == 0 {
            assert(ws.len() == 0);
        } else {
            assert(ws.take(ws.len() as int) =~= ws);
        }
    }
    r
}

// ---- the error classifier ----

/// The embedded application error of a response variant, where the
/// variant carries one and its code is not "unset".
pub open spec fn embedded_error(v: ResVarV) -> Option<(Kind, u32, Seq<char>)> {
    match v {
        ResVarV::Coded(k, code, det) => if code != 0 {
            Some((k, code, det))
        } else {
            None
        },
        ResVarV::CodeOnly(code) => if code != 0 {
            Some((Kind::SaveMap, code, Seq::empty()))
        } else {
            None
        },
        ResVarV::Opaque(_, _) => None,
    }
}

impl Res<ResVar> {
    /// Classify a decoded response envelope: a response whose variant
    /// slot is empty becomes the generic empty-response error, with the
    /// joined warning strings as its detail; everything else succeeds.
    pub fn from_response(res: Response) -> (r: Result<Res<ResVar>, Sc2Error>)
        ensures
            match res@.var {
                None => r matches Err(e) && e.kind == Kind::Unset && e.code == 0 && e.err@
                    == "Empty Response"@ && e.desc@ == spec_join(res@.warns),
                Some(var) => r matches Ok(out) && out.data@ == var && out.status == res@.status
                    && strs_view(out.warns@) == res@.warns,
            },
    {
        let Response { id: _, status, error, response } = res;
        match response {
            None => Err(
                Sc2Error {
                    kind: Kind::Unset,
                    code: 0,
                    err: String::from_str("Empty Response"),
                    desc: join_lines(&error),
                },
            ),
            Some(data) => Ok(Res { data, status, warns: error }),
        }
    }
}

/// Reject a response whose variant embeds an application error code:
/// exactly the error-carrying variants with a non-"unset" code fail, and
/// the surfaced error holds the kind, the code, its decimal notation,
/// and the variant's detail string (empty where the variant has none).
pub fn check_errors(res: &Res<ResVar>) -> (r: Result<(), Error>)
    ensures
        r is Ok <==> embedded_error(res.data@) is None,
        r matches Err(e) ==> e matches Error::Sc2(s) && {
            let ee = embedded_error(res.data@)->0;
            &&& s.kind == ee.0
            &&& s.code == ee.1
            &&& s.err@ == dec_str(ee.1 as nat)
            &&& s.desc@ == ee.2
        },
{
    match &res.data {
        ResVar::CreateGame(e) | ResVar::JoinGame(e) | ResVar::RestartGame(e)
        | ResVar::StartReplay(e) | ResVar::ReplayInfo(e) | ResVar::MapCommand(e) => {
            if e.error != 0 {
                Err(
                    Error::Sc2(
                        Sc2Error {
                            kind: res.data.kind(),
                            code: e.error,
                            err: u32_dec_string(e.error),
                            desc: e.error_details.clone(),
                        },
                    ),
                )
            } else {
                Ok(())
            }
        },
        ResVar::SaveMap(code) => {
            if *code != 0 {
                Err(
                    Error::Sc2(
                        Sc2Error {
                            kind: Kind::SaveMap,
                            code: *code,
                            err: u32_dec_string(*code),
                            desc: String::new(),
                        },
                    ),
                )
            } else {
                Ok(())
            }
        },
        _ => Ok(()),
    }
}

/// What one exchange's validation pipeline must conclude, given the
/// response's view, the request's kind and the previous status: either
/// the error that stops it, or acceptance.
pub open spec fn exchange_outcome_ok(
    res: Res<ResVar>,
    req_kind: Kind,
    before: Status,
) -> bool {
    &&& res.data.spec_kind() == req_kind
    &&& embedded_error(res.data@) is None
    &&& status_accepted(req_kind, res.status, before)
}

/// Validate one decoded response against the issued request: the kinds
/// must match, an embedded error fails the exchange, and the reported
/// status must be legal for the request's kind; only when all three pass
/// does the session's status advance to the reported one.
pub fn check_res(res: Res<ResVar>, req_kind: Kind, old_status: &mut Status) -> (r: Result<
    Res<ResVar>,
    Error,
>)
    ensures
        r is Ok <==> exchange_outcome_ok(res, req_kind, *old(old_status)),
        r matches Ok(out) ==> out == res && *final(old_status) == res.status,
        r is Err ==> *final(old_status) == *old(old_status),
        res.data.spec_kind() != req_kind ==> (r matches Err(e) && e matches Error::BadRes(
            got,
            expected,
        ) && got == res.data.spec_kind() && expected == req_kind),
        res.data.spec_kind() == req_kind && embedded_error(res.data@) is Some ==> (r matches Err(e)
            && e matches Error::Sc2(s) && {
            let ee = embedded_error(res.data@)->0;
            &&& s.kind == ee.0
            &&& s.code == ee.1
            &&& s.err@ == dec_str(ee.1 as nat)
            &&& s.desc@ == ee.2
        }),
        res.data.spec_kind() == req_kind && embedded_error(res.data@) is None && !status_accepted(
            req_kind,
            res.status,
            *old(old_status),
        ) ==> (r matches Err(e) && e matches Error::BadStatus(got, expect) && got == res.status
            && expect@ == crate::status::expected_statuses(req_kind, *old(old_status))),
{
    let kind = res.data.kind();
    if kind != req_kind {
        return Err(Error::BadRes(kind, req_kind));
    }
    match check_errors(&res) {
        Err(e) => {
            return Err(e);
        },
        Ok(()) => {},
    }
    match check_status(kind, res.status, *old_status) {
        Err(e) => {
            return Err(e);
        },
        Ok(()) => {},
    }
    *old_status = res.status;
    Ok(res)
}

// ---- frame-level conveniences ----

/// Wrap a request union in an envelope (correlation id 0) and serialize
/// it into exactly one transport frame.
pub fn req_into_msg(req: Req) -> (frame: Vec<u8>)
    ensures
        frame@ == spec_enc_request(
            crate::msg::RequestV { id: 0, kind: req.spec_kind(), payload: req.spec_payload() },
        ),
{
    encode_request(&Request::wrap(req))
}

/// Decode one inbound frame and classify it. A response whose variant
/// slot is empty surfaces as the generic empty-response error, which
/// carries `Kind::Unset`: no variant was present to attribute it to.
pub fn res_from_msg(frame: &Vec<u8>) -> (r: Result<Res<ResVar>, Error>)
    ensures
        match spec_parse_response(frame@) {
            None => r matches Err(e) && e is Decode,
            Some(v) => match v.var {
                None => r matches Err(e) && e matches Error::Sc2(s) && s.kind == Kind::Unset
                    && s.code == 0 && s.err@ == "Empty Response"@ && s.desc@ == spec_join(v.warns),
                Some(var) => r matches Ok(res) && res.data@ == var && res.status == v.status
                    && strs_view(res.warns@) == v.warns,
            },
        },
{
    let decoded = match decode_response(frame) {
        Err(e) => {
            return Err(e);
        },
        Ok(m) => m,
    };
    match Res::from_response(decoded) {
        Err(e) => Err(Error::Sc2(e)),
        Ok(res) => Ok(res),
    }
}

/// On a session with no baseline (status still `Unset`), any reported
/// status is accepted for any request kind: there is nothing to compare
/// against yet.
pub proof fn lemma_fresh_session_accepts(kind: Kind, reported: Status)
    ensures
        status_accepted(kind, reported, Status::Unset),
{
}

/// A response whose kind differs from the issued request's kind fails
/// the exchange, whatever status or embedded error it carries.
pub proof fn lemma_kind_mismatch_rejected(res: Res<ResVar>, req_kind: Kind, before: Status)
    requires
        res.data.spec_kind() != req_kind,
    ensures
        !exchange_outcome_ok(res, req_kind, before),
{
}

/// A response that embeds a non-"unset" application error code fails the
/// exchange, whatever status it reports.
pub proof fn lemma_embedded_error_rejected(res: Res<ResVar>, req_kind: Kind, before: Status)
    requires
        embedded_error(res.data@) is Some,
    ensures
        !exchange_outcome_ok(res, req_kind, before),
{
}

/// A `SaveMap` response with a non-"unset" error code classifies into an
/// error with that code and an empty detail: the variant carries none.
pub proof fn lemma_save_map_error_no_detail(code: u32)
    requires
        code != 0,
    ensures
        embedded_error(ResVarV::CodeOnly(code)) == Some(
            (Kind::SaveMap, code, Seq::<char>::empty()),
        ),
{
}

// ---- the session ----

/// The state of one client session: the authoritative current lifecycle
/// status of the peer, initially `Unset`, mutated only after a fully
/// validated exchange. The connection itself lives with the caller.
#[derive(Debug, Clone, PartialEq, Eq, Hash, Structural)]
pub struct Session {
    status: Status,
}

impl Session {
    /// The current status, as contracts see it.
    pub closed spec fn spec_status(&self) -> Status {
        self.status
    }

    /// A fresh session: no exchange has happened, the status is `Unset`.
    pub fn new() -> (s: Session)
        ensures
            s.spec_status() == Status::Unset,
    {
        Session { status: Status::Unset }
    }

    /// The current server status. Reading it does not change it: without
    /// a new exchange, every call returns the same value.
    pub fn status(&self) -> (st: Status)
        ensures
            st == self.spec_status(),
    {
        self.status
    }

    /// Process the one inbound frame of an exchange: decode it, classify
    /// it, check that its kind answers the issued request, and validate
    /// the reported status against the current one. The status advances
    /// to the reported value exactly when every check passes.
    pub fn read(&mut self, frame: &Vec<u8>, expect_kind: Kind) -> (r: Result<Res<ResVar>, Error>)
        ensures
            match spec_parse_response(frame@) {
                None => r matches Err(e) && e is Decode,
                Some(v) => match v.var {
                    None => r matches Err(e) && e matches Error::Sc2(s) && s.kind == Kind::Unset
                        && s.code == 0 && s.err@ == "Empty Response"@ && s.desc@ == spec_join(
                        v.warns,
                    ),
                    Some(var) => {
                        if var.kind() == expect_kind && embedded_error(var) is None
                            && status_accepted(expect_kind, v.status, old(self).spec_status()) {
                            &&& r matches Ok(out)
                            &&& out.data@ == var
                            &&& out.status == v.status
                            &&& strs_view(out.warns@) == v.warns
                            &&& final(self).spec_status() == v.status
                        } else {
                            &&& r is Err
                            &&& final(self).spec_status() == old(self).spec_status()
                        }
                    },
                },
            },
            r is Err ==> final(self).spec_status() == old(self).spec_status(),
    {
        let res = match res_from_msg(frame) {
            Err(e) => {
                return Err(e);
            },
            Ok(res) => res,
        };
        proof {
            crate::msg::lemma_res_var_view_kind(res.data);
        }
        check_res(res, expect_kind, &mut self.status)
    }
}

} // verus!
