//! The binary envelope codec: little-endian base-128 varints and the
//! length-delimited frame layout for requests and responses.
//!
//! The frame layout is this library's own canonical encoding, defined
//! here in full by `spec_enc_request` and `spec_enc_response`; it is not
//! the protobuf encoding a stock game engine speaks, so both ends of a
//! connection must use this codec (as the client and server halves of
//! this crate do).
//!
//! Every frame is one serialized message. Decoding is strict: a frame is
//! accepted exactly when it is the canonical encoding of some message, so
//! encoding followed by decoding gives the message back and anything else
//! is a decode error.

use crate::common::{kind_code, kind_from_code, spec_kind_code, spec_kind_from_code, Error, Kind,
    KindOf};
use crate::msg::{ErrorInfo, Req, Request, RequestV, ResVar, ResVarV, Response, ResponseV};
use crate::status::{spec_status_code, spec_status_from_code, status_code, status_from_code, Status};
use vstd::prelude::*;
use vstd::slice::{slice_subrange, slice_to_vec};
use vstd::string::{StrSliceExecFns, StringExecFns};
use vstd::utf8::{decode_utf8, encode_utf8, valid_utf8};

verus! {

/// Canonical little-endian base-128 encoding of an unsigned value: seven
/// value bits per byte, high bit set on every byte but the last.
pub open spec fn vint_enc(n: u64) -> Seq<u8>
    decreases n,
{
    if n < 128 {
        seq![n as u8]
    } else {
        seq![(n % 128 + 128) as u8] + vint_enc(n / 128)
    }
}

/// Strict parse of a varint prefix: the value and the number of bytes
/// consumed. Non-minimal encodings (a continuation byte followed by an
/// encoding of zero) are rejected, so at most one value parses.
pub open spec fn vint_parse(s: Seq<u8>) -> Option<(nat, int)>
    decreases s.len(),
{
    if s.len() == 0 {
        None
    } else {
        let b = s[0];
        if b < 128 {
            Some((b as nat, 1))
        } else {
            match vint_parse(s.skip(1)) {
                None => None,
                Some((v, used)) => if v == 0 {
                    None
                } else {
                    Some((((b - 128) as nat + 128 * v) as nat, used + 1))
                },
            }
        }
    }
}

/// A successful varint parse consumes between one byte and the whole input.
pub proof fn lemma_vint_parse_used(s: Seq<u8>)
    ensures
        vint_parse(s) matches Some(p) ==> 1 <= p.1 <= s.len(),
    decreases s.len(),
{
    if s.len() > 0 && s[0] >= 128 {
        lemma_vint_parse_used(s.skip(1));
    }
}

/// Parsing is left-inverse to encoding: the canonical encoding of `n`,
/// followed by anything, parses back to `n`.
pub proof fn lemma_vint_round_trip(n: u64, rest: Seq<u8>)
    ensures
        vint_parse(vint_enc(n) + rest) == Some((n as nat, vint_enc(n).len() as int)),
    decreases n,
{
    let s = vint_enc(n) + rest;
    if n < 128 {
        assert(s[0] == n as u8);
    } else {
        let b = (n % 128 + 128) as u8;
        assert(s[0] == b);
        lemma_vint_round_trip(n / 128, rest);
        assert(s.skip(1) =~= vint_enc(n / 128) + rest);
        assert(n / 128 > 0);
        assert((b - 128) as nat + 128 * ((n / 128) as nat) == n as nat);
    }
}

/// Read one varint starting at `pos`; `None` where no value fitting `u64`
/// parses there. On success the value and the position just past it.
pub fn read_vint(buf: &Vec<u8>, pos: usize) -> (r: Option<(u64, usize)>)
    requires
        pos <= buf.len(),
    ensures
        match vint_parse(buf@.skip(pos as int)) {
            None => r is None,
            Some((v, used)) => if v <= u64::MAX {
                r matches Some(q) && q.0 == v && q.1 == pos + used
            } else {
                r is None
            },
        },
        r matches Some(p) ==> pos < p.1 <= buf.len(),
    decreases buf.len() - pos,
{
    proof {
        lemma_vint_parse_used(buf@.skip(pos as int));
    }
    if pos == buf.len() {
        return None;
    }
    let b = buf[pos];
    if b < 128 {
        assert(buf@.skip(pos as int)[0] == b);
        Some((b as u64, pos + 1))
    } else {
        assert(buf@.skip(pos as int)[0] == b);
        assert(buf@.skip(pos as int).skip(1) =~= buf@.skip(pos as int + 1));
        match read_vint(buf, pos + 1) {
            None => None,
            Some((v, end)) => {
                if v == 0 {
                    None
                } else if v <= (u64::MAX - ((b - 128) as u64)) / 128 {
                    Some(((b - 128) as u64 + 128 * v, end))
                } else {
                    None
                }
            },
        }
    }
}

/// Append the canonical encoding of `n` to `out`.
pub fn write_vint(out: &mut Vec<u8>, n: u64)
    ensures
        final(out)@ == old(out)@ + vint_enc(n),
    decreases n,
{
    if n < 128 {
        out.push(n as u8);
        proof {
            assert(out@ =~= old(out)@ + vint_enc(n));
        }
    } else {
        out.push((n % 128 + 128) as u8);
        write_vint(out, n / 128);
        proof {
            assert(out@ =~= old(out)@ + vint_enc(n));
        }
    }
}

/// Powers of 128, to bound varint lengths.
pub open spec fn pow128(k: nat) -> nat
    decreases k,
{
    if k == 0 {
        1
    } else {
        128 * pow128((k - 1) as nat)
    }
}

/// A value below the `k`-th power of 128 encodes in at most `k` bytes.
proof fn lemma_vint_enc_len_bound(n: u64, k: nat)
    requires
        1 <= k,
        (n as nat) < pow128(k),
    ensures
        vint_enc(n).len() <= k,
    decreases k,
{
    if n >= 128 {
        assert(pow128(k) == 128 * pow128((k - 1) as nat));
        assert((n as nat) / 128 < pow128((k - 1) as nat)) by (nonlinear_arith)
            requires
                (n as nat) < 128 * pow128((k - 1) as nat),
        ;
        assert(k >= 2) by {
            if k == 1 {
                assert(pow128(1nat) == 128);
            }
        }
        lemma_vint_enc_len_bound(n / 128, (k - 1) as nat);
    }
}

/// Every varint is one to ten bytes long.
pub proof fn lemma_vint_enc_len(n: u64)
    ensures
        1 <= vint_enc(n).len() <= 10,
{
    assert(pow128(10nat) > u64::MAX as nat) by {
        reveal_with_fuel(pow128, 11);
    }
    lemma_vint_enc_len_bound(n, 10);
    if n < 128 {
    } else {
        assert(vint_enc(n).len() >= 1);
    }
}

/// A length bound comfortably inside `u64`, used by the well-formedness
/// conditions so that no frame length arithmetic can overflow.
pub open spec fn fits_frame(n: nat) -> bool {
    n < 0x1000000000000000
}

/// A length-delimited block: the byte count as a varint, then the bytes.
pub open spec fn enc_bytes(data: Seq<u8>) -> Seq<u8> {
    vint_enc(data.len() as u64) + data
}

/// A length-delimited string: its UTF-8 bytes as a block.
pub open spec fn enc_str(s: Seq<char>) -> Seq<u8> {
    enc_bytes(encode_utf8(s))
}

/// The warning strings, one block each, in order.
pub open spec fn enc_warns(ws: Seq<Seq<char>>) -> Seq<u8>
    decreases ws.len(),
{
    if ws.len() == 0 {
        Seq::empty()
    } else {
        enc_str(ws[0]) + enc_warns(ws.skip(1))
    }
}

/// The payload bytes of one response variant: structured fields for the
/// error-carrying variants, the raw bytes for the rest.
pub open spec fn enc_var_payload(v: ResVarV) -> Seq<u8> {
    match v {
        ResVarV::Coded(_, code, det) => vint_enc(code as u64) + enc_str(det),
        ResVarV::CodeOnly(code) => vint_enc(code as u64),
        ResVarV::Opaque(_, p) => p,
    }
}

/// The canonical frame of a request envelope: correlation id, variant
/// code, and (for a present variant) the payload as a block.
pub open spec fn spec_enc_request(v: RequestV) -> Seq<u8> {
    vint_enc(v.id as u64) + vint_enc(spec_kind_code(v.kind)) + if v.kind == Kind::Unset {
        Seq::<u8>::empty()
    } else {
        enc_bytes(v.payload)
    }
}

/// The canonical frame of a response envelope: correlation id, status
/// code, warning count and warnings, variant code, and (for a present
/// variant) the payload as a block.
pub open spec fn spec_enc_response(v: ResponseV) -> Seq<u8> {
    vint_enc(v.id as u64) + vint_enc(spec_status_code(v.status)) + vint_enc(v.warns.len() as u64)
        + enc_warns(v.warns) + match v.var {
        None => vint_enc(0),
        Some(rv) => vint_enc(spec_kind_code(rv.kind())) + enc_bytes(enc_var_payload(rv)),
    }
}

/// Whether a request view is small enough to encode: the payload length
/// must fit the length varint.
pub open spec fn wire_wf_request(v: RequestV) -> bool {
    v.wf() && v.payload.len() <= u64::MAX
}

/// Whether a response view is small enough to encode.
pub open spec fn wire_wf_response(v: ResponseV) -> bool {
    &&& v.wf()
    &&& fits_frame(v.warns.len())
    &&& forall|i: int| 0 <= i < v.warns.len() ==> fits_frame(#[trigger] encode_utf8(v.warns[i]).len())
    &&& match v.var {
        Some(ResVarV::Coded(_, _, det)) => fits_frame(encode_utf8(det).len()),
        Some(ResVarV::Opaque(_, p)) => fits_frame(p.len()),
        _ => true,
    }
}

// ---- parsing, at the specification level ----

/// Parse a length-delimited block: the bytes and the total consumed.
pub open spec fn parse_lenb(s: Seq<u8>) -> Option<(Seq<u8>, int)> {
    match vint_parse(s) {
        None => None,
        Some((n, u)) => if u + n <= s.len() {
            Some((s.subrange(u, u + n), u + n as int))
        } else {
            None
        },
    }
}

/// Parse a length-delimited string; its bytes must be valid UTF-8.
pub open spec fn parse_str(s: Seq<u8>) -> Option<(Seq<char>, int)> {
    match parse_lenb(s) {
        None => None,
        Some((b, u)) => if valid_utf8(b) {
            Some((decode_utf8(b), u))
        } else {
            None
        },
    }
}

/// Parse `count` warning strings in sequence.
pub open spec fn parse_warns(s: Seq<u8>, count: nat) -> Option<(Seq<Seq<char>>, int)>
    decreases count,
{
    if count == 0 {
        Some((Seq::empty(), 0))
    } else {
        match parse_str(s) {
            None => None,
            Some((w, u)) => match parse_warns(s.skip(u), (count - 1) as nat) {
                None => None,
                Some((ws, u2)) => Some((seq![w] + ws, u + u2)),
            },
        }
    }
}

/// The response variants whose payload carries an error code and a
/// detail string.
pub open spec fn is_coded_kind(kind: Kind) -> bool {
    ||| kind == Kind::CreateGame
    ||| kind == Kind::JoinGame
    ||| kind == Kind::RestartGame
    ||| kind == Kind::StartReplay
    ||| kind == Kind::ReplayInfo
    ||| kind == Kind::MapCommand
}

/// Parse the payload block of a response variant of the given kind; the
/// whole block must be consumed.
pub open spec fn parse_var_payload(kind: Kind, p: Seq<u8>) -> Option<ResVarV> {
    if kind == Kind::SaveMap {
        match vint_parse(p) {
            None => None,
            Some((code, u)) => if u == p.len() && code <= u32::MAX {
                Some(ResVarV::CodeOnly(code as u32))
            } else {
                None
            },
        }
    } else if is_coded_kind(kind) {
        match vint_parse(p) {
            None => None,
            Some((code, u)) => if code <= u32::MAX {
                match parse_str(p.skip(u)) {
                    None => None,
                    Some((det, u2)) => if u + u2 == p.len() {
                        Some(ResVarV::Coded(kind, code as u32, det))
                    } else {
                        None
                    },
                }
            } else {
                None
            },
        }
    } else {
        Some(ResVarV::Opaque(kind, p))
    }
}

/// Strict parse of a whole request frame: exactly one envelope, nothing
/// before or after it, every varint minimal.
pub open spec fn spec_parse_request(s: Seq<u8>) -> Option<RequestV> {
    match vint_parse(s) {
        None => None,
        Some((id, u1)) => if id > u32::MAX {
            None
        } else {
            match vint_parse(s.skip(u1)) {
                None => None,
                Some((code, u2)) => if code == 0 {
                    if u1 + u2 == s.len() {
                        Some(RequestV { id: id as u32, kind: Kind::Unset, payload: Seq::empty() })
                    } else {
                        None
                    }
                } else if code > 22 {
                    None
                } else {
                    match parse_lenb(s.skip(u1 + u2)) {
                        None => None,
                        Some((p, u3)) => if u1 + u2 + u3 == s.len() {
                            Some(
                                RequestV {
                                    id: id as u32,
                                    kind: spec_kind_from_code(code as u64),
                                    payload: p,
                                },
                            )
                        } else {
                            None
                        },
                    }
                },
            }
        },
    }
}

/// Strict parse of a whole response frame.
pub open spec fn spec_parse_response(s: Seq<u8>) -> Option<ResponseV> {
    match vint_parse(s) {
        None => None,
        Some((id, u1)) => if id > u32::MAX {
            None
        } else {
            match vint_parse(s.skip(u1)) {
                None => None,
                Some((sc, u2)) => if sc > 6 {
                    None
                } else {
                    let status = spec_status_from_code(sc as u64)->0;
                    match vint_parse(s.skip(u1 + u2)) {
                        None => None,
                        Some((wc, u3)) => match parse_warns(s.skip(u1 + u2 + u3), wc) {
                            None => None,
                            Some((ws, u4)) => {
                                let h = u1 + u2 + u3 + u4;
                                match vint_parse(s.skip(h)) {
                                    None => None,
                                    Some((kc, u5)) => if kc == 0 {
                                        if h + u5 == s.len() {
                                            Some(
                                                ResponseV {
                                                    id: id as u32,
                                                    status,
                                                    warns: ws,
                                                    var: None,
                                                },
                                            )
                                        } else {
                                            None
                                        }
                                    } else if kc > 22 {
                                        None
                                    } else {
                                        match parse_lenb(s.skip(h + u5)) {
                                            None => None,
                                            Some((pb, u6)) => if h + u5 + u6 == s.len() {
                                                match parse_var_payload(
                                                    spec_kind_from_code(kc as u64),
                                                    pb,
                                                ) {
                                                    None => None,
                                                    Some(rv) => Some(
                                                        ResponseV {
                                                            id: id as u32,
                                                            status,
                                                            warns: ws,
                                                            var: Some(rv),
                                                        },
                                                    ),
                                                }
                                            } else {
                                                None
                                            },
                                        }
                                    },
                                }
                            },
                        },
                    }
                },
            }
        },
    }
}

// ---- round trips, at the specification level ----

/// A block parses back to the bytes it was made from.
pub proof fn lemma_parse_lenb_round_trip(data: Seq<u8>, rest: Seq<u8>)
    requires
        data.len() <= u64::MAX,
    ensures
        parse_lenb(enc_bytes(data) + rest) == Some(
            (data, enc_bytes(data).len() as int),
        ),
{
    let s = enc_bytes(data) + rest;
    let lenb = vint_enc(data.len() as u64);
    lemma_vint_round_trip(data.len() as u64, data + rest);
    assert(s =~= lenb + (data + rest));
    lemma_vint_parse_used(s);
    assert(s.subrange(lenb.len() as int, (lenb.len() + data.len()) as int) =~= data);
}

/// A string block parses back to the characters it was made from.
pub proof fn lemma_parse_str_round_trip(w: Seq<char>, rest: Seq<u8>)
    requires
        encode_utf8(w).len() <= u64::MAX,
    ensures
        parse_str(enc_str(w) + rest) == Some((w, enc_str(w).len() as int)),
{
    broadcast use vstd::utf8::encode_utf8_valid_utf8, vstd::utf8::encode_utf8_decode_utf8;

    lemma_parse_lenb_round_trip(encode_utf8(w), rest);
}

/// A warning list parses back to the strings it was made from.
pub proof fn lemma_parse_warns_round_trip(ws: Seq<Seq<char>>, rest: Seq<u8>)
    requires
        forall|i: int| 0 <= i < ws.len() ==> fits_frame(#[trigger] encode_utf8(ws[i]).len()),
    ensures
        parse_warns(enc_warns(ws) + rest, ws.len()) == Some((ws, enc_warns(ws).len() as int)),
    decreases ws.len(),
{
    if ws.len() == 0 {
        assert(enc_warns(ws) + rest =~= rest);
        assert(parse_warns(rest, 0) == Some((Seq::<Seq<char>>::empty(), 0int)));
        assert(ws =~= Seq::<Seq<char>>::empty());
    } else {
        let w0 = ws[0];
        let tail = ws.skip(1);
        let s = enc_warns(ws) + rest;
        assert(s =~= enc_str(w0) + (enc_warns(tail) + rest));
        lemma_parse_str_round_trip(w0, enc_warns(tail) + rest);
        let u = enc_str(w0).len() as int;
        assert(s.skip(u) =~= enc_warns(tail) + rest);
        lemma_parse_warns_round_trip(tail, rest);
        assert(seq![w0] + tail =~= ws);
    }
}

/// A well-formed variant payload is comfortably shorter than `u64::MAX`.
pub proof fn lemma_var_payload_len(rv: ResVarV)
    requires
        match rv {
            ResVarV::Coded(_, _, det) => fits_frame(encode_utf8(det).len()),
            ResVarV::Opaque(_, p) => fits_frame(p.len()),
            _ => true,
        },
    ensures
        enc_var_payload(rv).len() <= u64::MAX,
{
    match rv {
        ResVarV::Coded(_, code, det) => {
            lemma_vint_enc_len(code as u64);
            lemma_vint_enc_len(encode_utf8(det).len() as u64);
        },
        ResVarV::CodeOnly(code) => {
            lemma_vint_enc_len(code as u64);
        },
        ResVarV::Opaque(_, _) => {},
    }
}

/// A variant payload parses back to the variant it was made from.
pub proof fn lemma_parse_var_payload_round_trip(rv: ResVarV)
    requires
        rv.wf(),
        match rv {
            ResVarV::Coded(_, _, det) => fits_frame(encode_utf8(det).len()),
            ResVarV::Opaque(_, p) => fits_frame(p.len()),
            _ => true,
        },
    ensures
        parse_var_payload(rv.kind(), enc_var_payload(rv)) == Some(rv),
{
    match rv {
        ResVarV::Coded(kind, code, det) => {
            let p = enc_var_payload(rv);
            lemma_vint_round_trip(code as u64, enc_str(det));
            let u = vint_enc(code as u64).len() as int;
            assert(p.skip(u) =~= enc_str(det) + Seq::<u8>::empty());
            lemma_parse_str_round_trip(det, Seq::empty());
            assert(enc_str(det) + Seq::<u8>::empty() =~= enc_str(det));
        },
        ResVarV::CodeOnly(code) => {
            lemma_vint_round_trip(code as u64, Seq::empty());
            assert(vint_enc(code as u64) + Seq::<u8>::empty() =~= vint_enc(code as u64));
        },
        ResVarV::Opaque(_, _) => {},
    }
}

/// A canonical request frame parses back to the envelope it encodes.
pub proof fn lemma_parse_request_round_trip(v: RequestV)
    requires
        wire_wf_request(v),
    ensures
        spec_parse_request(spec_enc_request(v)) == Some(v),
{
    let s = spec_enc_request(v);
    let idb = vint_enc(v.id as u64);
    let kcb = vint_enc(spec_kind_code(v.kind));
    if v.kind == Kind::Unset {
        assert(s =~= idb + (kcb + Seq::<u8>::empty()));
        lemma_vint_round_trip(v.id as u64, kcb + Seq::empty());
        assert(s.skip(idb.len() as int) =~= kcb + Seq::<u8>::empty());
        lemma_vint_round_trip(spec_kind_code(v.kind), Seq::empty());
        assert(spec_kind_code(v.kind) == 0);
        assert(v.payload =~= Seq::<u8>::empty());
    } else {
        let pb = enc_bytes(v.payload);
        assert(s =~= idb + (kcb + pb));
        lemma_vint_round_trip(v.id as u64, kcb + pb);
        assert(s.skip(idb.len() as int) =~= kcb + pb);
        lemma_vint_round_trip(spec_kind_code(v.kind), pb);
        assert(s.skip((idb.len() + kcb.len()) as int) =~= pb + Seq::<u8>::empty());
        assert(pb + Seq::<u8>::empty() =~= pb);
        lemma_parse_lenb_round_trip(v.payload, Seq::empty());
        let code = spec_kind_code(v.kind);
        assert(1 <= code <= 22);
        crate::common::lemma_kind_code_round_trip(v.kind);
    }
}

/// The tail of a canonical response frame (variant code and payload
/// block) parses back to the variant it encodes.
proof fn lemma_parse_response_tail(var: Option<ResVarV>)
    requires
        match var {
            Some(rv) => rv.wf() && match rv {
                ResVarV::Coded(_, _, det) => fits_frame(encode_utf8(det).len()),
                ResVarV::Opaque(_, p) => fits_frame(p.len()),
                _ => true,
            },
            None => true,
        },
    ensures
        ({
            let tail = match var {
                None => vint_enc(0),
                Some(rv) => vint_enc(spec_kind_code(rv.kind())) + enc_bytes(enc_var_payload(rv)),
            };
            match var {
                None => vint_parse(tail) == Some((0nat, tail.len() as int)),
                Some(rv) => {
                    let kcb = vint_enc(spec_kind_code(rv.kind()));
                    &&& vint_parse(tail) == Some(
                        ((spec_kind_code(rv.kind()) as nat), kcb.len() as int),
                    )
                    &&& 1 <= spec_kind_code(rv.kind()) <= 22
                    &&& spec_kind_from_code(spec_kind_code(rv.kind())) == rv.kind()
                    &&& parse_lenb(tail.skip(kcb.len() as int)) == Some(
                        (enc_var_payload(rv), (tail.len() - kcb.len()) as int),
                    )
                    &&& parse_var_payload(rv.kind(), enc_var_payload(rv)) == Some(rv)
                },
            }
        }),
{
    match var {
        None => {
            lemma_vint_round_trip(0, Seq::empty());
            assert(vint_enc(0) + Seq::<u8>::empty() =~= vint_enc(0));
        },
        Some(rv) => {
            let kcb = vint_enc(spec_kind_code(rv.kind()));
            let pb = enc_bytes(enc_var_payload(rv));
            let tail = kcb + pb;
            lemma_vint_round_trip(spec_kind_code(rv.kind()), pb);
            assert(rv.kind() != Kind::Unset);
            crate::common::lemma_kind_code_round_trip(rv.kind());
            assert(tail.skip(kcb.len() as int) =~= pb + Seq::<u8>::empty());
            assert(pb + Seq::<u8>::empty() =~= pb);
            lemma_var_payload_len(rv);
            lemma_parse_lenb_round_trip(enc_var_payload(rv), Seq::empty());
            lemma_parse_var_payload_round_trip(rv);
        },
    }
}

/// A canonical response frame parses back to the envelope it encodes.
#[verifier::rlimit(100)]
pub proof fn lemma_parse_response_round_trip(v: ResponseV)
    requires
        wire_wf_response(v),
    ensures
        spec_parse_response(spec_enc_response(v)) == Some(v),
{
    let s = spec_enc_response(v);
    let idb = vint_enc(v.id as u64);
    let scb = vint_enc(spec_status_code(v.status));
    let wcb = vint_enc(v.warns.len() as u64);
    let wsb = enc_warns(v.warns);
    let tail = match v.var {
        None => vint_enc(0),
        Some(rv) => vint_enc(spec_kind_code(rv.kind())) + enc_bytes(enc_var_payload(rv)),
    };
    assert(s =~= idb + (scb + (wcb + (wsb + tail))));
    lemma_vint_round_trip(v.id as u64, scb + (wcb + (wsb + tail)));
    assert(vint_parse(s) == Some(((v.id as u64) as nat, idb.len() as int)));
    assert(((v.id as u64) as nat) <= u32::MAX);
    assert((((v.id as u64) as nat) as u32) == v.id);
    assert(((spec_status_code(v.status) as nat) as u64) == spec_status_code(v.status));
    assert(((v.warns.len() as u64) as nat) == v.warns.len());
    assert(s.skip(idb.len() as int) =~= scb + (wcb + (wsb + tail)));
    lemma_vint_round_trip(spec_status_code(v.status), wcb + (wsb + tail));
    assert(vint_parse(s.skip(idb.len() as int)) == Some(
        (spec_status_code(v.status) as nat, scb.len() as int),
    ));
    crate::status::lemma_status_code_round_trip(v.status);
    let h2 = (idb.len() + scb.len()) as int;
    assert(s.skip(h2) =~= wcb + (wsb + tail));
    lemma_vint_round_trip(v.warns.len() as u64, wsb + tail);
    assert(vint_parse(s.skip(h2)) == Some(
        ((v.warns.len() as u64) as nat, wcb.len() as int),
    ));
    let h3 = h2 + wcb.len();
    assert(s.skip(h3) =~= wsb + tail);
    lemma_parse_warns_round_trip(v.warns, tail);
    assert(parse_warns(s.skip(h3), v.warns.len()) == Some((v.warns, wsb.len() as int)));
    let h4 = h3 + wsb.len();
    assert(s.skip(h4) =~= tail);
    lemma_parse_response_tail(v.var);
    match v.var {
        None => {
            assert(vint_parse(s.skip(h4)) == Some((0nat, tail.len() as int)));
            assert(h4 + tail.len() == s.len());
            assert(parse_warns(s.skip(h3), ((v.warns.len() as u64) as nat)) == Some(
                (v.warns, wsb.len() as int),
            ));
            assert(spec_status_from_code(((spec_status_code(v.status) as nat) as u64)) == Some(
                v.status,
            ));
            assert(spec_parse_response(s) == Some(v));
        },
        Some(rv) => {
            let code = spec_kind_code(rv.kind());
            let kcb = vint_enc(code);
            let pb = enc_var_payload(rv);
            assert(vint_parse(s.skip(h4)) == Some(((code as nat), kcb.len() as int)));
            assert(((code as nat) as u64) == code);
            assert(spec_kind_from_code(code) == rv.kind());
            let h5 = h4 + kcb.len();
            assert(s.skip(h5) =~= s.skip(h4).skip(kcb.len() as int));
            assert(s.skip(h5) =~= tail.skip(kcb.len() as int));
            assert(parse_lenb(s.skip(h5)) == Some((pb, (tail.len() - kcb.len()) as int)));
            assert(h4 + tail.len() == s.len());
            assert(parse_var_payload(rv.kind(), pb) == Some(rv));
            assert(spec_parse_response(s) == Some(v));
        },
    }
}

/// Frames are unambiguous: two request envelopes with the same canonical
/// frame are the same envelope.
pub proof fn lemma_enc_request_injective(a: RequestV, b: RequestV)
    requires
        wire_wf_request(a),
        wire_wf_request(b),
        spec_enc_request(a) == spec_enc_request(b),
    ensures
        a == b,
{
    lemma_parse_request_round_trip(a);
    lemma_parse_request_round_trip(b);
}

/// Frames are unambiguous: two response envelopes with the same
/// canonical frame are the same envelope.
pub proof fn lemma_enc_response_injective(a: ResponseV, b: ResponseV)
    requires
        wire_wf_response(a),
        wire_wf_response(b),
        spec_enc_response(a) == spec_enc_response(b),
    ensures
        a == b,
{
    lemma_parse_response_round_trip(a);
    lemma_parse_response_round_trip(b);
}

// ---- executable encoding ----

/// Append a copy of `data` to `out`.
pub(crate) fn append_bytes(out: &mut Vec<u8>, data: &Vec<u8>)
    ensures
        final(out)@ == old(out)@ + data@,
{
    let mut i: usize = 0;
    while i < data.len()
        invariant
            i <= data.len(),
            out@ == old(out)@ + data@.take(i as int),
        decreases data.len() - i,
    {
        out.push(data[i]);
        i = i + 1;
        proof {
            assert(out@ =~= old(out)@ + data@.take(i as int));
        }
    }
    proof {
        assert(old(out)@ + data@.take(data@.len() as int) =~= old(out)@ + data@);
    }
}

/// Append `data` as a length-delimited block.
pub(crate) fn write_lenb(out: &mut Vec<u8>, data: &Vec<u8>)
    ensures
        final(out)@ == old(out)@ + enc_bytes(data@),
{
    write_vint(out, data.len() as u64);
    append_bytes(out, data);
    proof {
        assert(out@ =~= old(out)@ + enc_bytes(data@));
    }
}

/// Append `s` as a length-delimited string block.
pub(crate) fn write_str(out: &mut Vec<u8>, s: &String)
    ensures
        final(out)@ == old(out)@ + enc_str(s@),
{
    let bytes = s.as_str().as_bytes_vec();
    write_lenb(out, &bytes);
}

/// Serialize a request envelope into exactly one frame.
pub fn encode_request(req: &Request) -> (out: Vec<u8>)
    ensures
        out@ == spec_enc_request(req@),
{
    let mut out: Vec<u8> = Vec::new();
    write_vint(&mut out, req.id as u64);
    match &req.request {
        None => {
            write_vint(&mut out, 0);
            proof {
                assert(out@ =~= spec_enc_request(req@));
            }
        },
        Some(rq) => {
            write_vint(&mut out, kind_code(rq.kind()));
            write_lenb(&mut out, rq.payload());
            proof {
                assert(out@ =~= spec_enc_request(req@));
            }
        },
    }
    out
}

/// Serialize the payload block of one response variant.
fn encode_var_payload(v: &ResVar) -> (p: Vec<u8>)
    ensures
        p@ == enc_var_payload(v@),
{
    let mut p: Vec<u8> = Vec::new();
    match v {
        ResVar::CreateGame(e) | ResVar::JoinGame(e) | ResVar::RestartGame(e)
        | ResVar::StartReplay(e) | ResVar::ReplayInfo(e) | ResVar::MapCommand(e) => {
            write_vint(&mut p, e.error as u64);
            write_str(&mut p, &e.error_details);
        },
        ResVar::SaveMap(code) => {
            write_vint(&mut p, *code as u64);
        },
        ResVar::LeaveGame(b) | ResVar::QuickSave(b) | ResVar::QuickLoad(b) | ResVar::Quit(b)
        | ResVar::GameInfo(b) | ResVar::Observation(b) | ResVar::Action(b) | ResVar::ObsAction(b)
        | ResVar::Step(b) | ResVar::Data(b) | ResVar::Query(b) | ResVar::SaveReplay(b)
        | ResVar::AvailableMaps(b) | ResVar::Ping(b) | ResVar::Debug(b) => {
            append_bytes(&mut p, b);
        },
    }
    proof {
        assert(p@ =~= enc_var_payload(v@));
    }
    p
}

/// Appending one warning extends the encoded list by one block.
proof fn lemma_enc_warns_take(ws: Seq<Seq<char>>, i: int)
    requires
        0 <= i < ws.len(),
    ensures
        enc_warns(ws.take(i + 1)) == enc_warns(ws.take(i)) + enc_str(ws[i]),
    decreases i,
{
    if i == 0 {
        let t1 = ws.take(1);
        assert(t1.len() == 1);
        assert(t1[0] == ws[0]);
        assert(t1.skip(1) =~= Seq::<Seq<char>>::empty());
        assert(enc_warns(t1.skip(1)) == Seq::<u8>::empty());
        assert(enc_warns(t1) == enc_str(ws[0]) + Seq::<u8>::empty());
        assert(ws.take(0) =~= Seq::<Seq<char>>::empty());
        assert(enc_warns(ws.take(0)) == Seq::<u8>::empty());
        assert(enc_str(ws[0]) + Seq::<u8>::empty() =~= enc_str(ws[0]));
        assert(Seq::<u8>::empty() + enc_str(ws[0]) =~= enc_str(ws[0]));
    } else {
        lemma_enc_warns_take(ws.skip(1), i - 1);
        assert(ws.take(i + 1)[0] == ws[0]);
        assert(ws.take(i + 1).skip(1) =~= ws.skip(1).take(i));
        assert(ws.take(i)[0] == ws[0]);
        assert(ws.take(i).skip(1) =~= ws.skip(1).take(i - 1));
        assert(ws.skip(1)[i - 1] == ws[i]);
        assert(enc_str(ws[0]) + (enc_warns(ws.skip(1).take(i - 1)) + enc_str(ws[i])) =~= (enc_str(
            ws[0],
        ) + enc_warns(ws.skip(1).take(i - 1))) + enc_str(ws[i]));
    }
}

/// Serialize a response envelope into exactly one frame.
pub fn encode_response(res: &Response) -> (out: Vec<u8>)
    ensures
        out@ == spec_enc_response(res@),
{
    let mut out: Vec<u8> = Vec::new();
    write_vint(&mut out, res.id as u64);
    write_vint(&mut out, status_code(res.status));
    write_vint(&mut out, res.error.len() as u64);
    let ghost head = out@;
    let ghost ws = res@.warns;
    let mut i: usize = 0;
    while i < res.error.len()
        invariant
            i <= res.error.len(),
            ws == res@.warns,
            ws.len() == res.error.len(),
            out@ == head + enc_warns(ws.take(i as int)),
        decreases res.error.len() - i,
    {
        proof {
            lemma_enc_warns_take(ws, i as int);
            assert(ws[i as int] == res.error[i as int]@);
        }
        write_str(&mut out, &res.error[i]);
        i = i + 1;
        proof {
            assert(out@ =~= head + enc_warns(ws.take(i as int)));
        }
    }
    proof {
        assert(ws.take(ws.len() as int) =~= ws);
    }
    match &res.response {
        None => {
            write_vint(&mut out, 0);
        },
        Some(v) => {
            proof {
                crate::msg::lemma_res_var_view_kind(*v);
            }
            write_vint(&mut out, kind_code(v.kind()));
            let pb = encode_var_payload(v);
            write_lenb(&mut out, &pb);
        },
    }
    proof {
        assert(out@ =~= spec_enc_response(res@));
    }
    out
}

// ---- executable decoding ----

/// Relies on String::from_utf8 of std: it succeeds exactly on valid
/// UTF-8 input, and the returned string holds the decoded characters.
#[verifier::external_body]
fn string_from_utf8(bytes: Vec<u8>) -> (r: Option<String>)
    ensures
        r matches Some(s) ==> valid_utf8(bytes@) && s@ == decode_utf8(bytes@),
        r is None ==> !valid_utf8(bytes@),
{
    String::from_utf8(bytes).ok()
}

/// The uniform error for a frame that is not a canonical encoding.
fn decode_err() -> (e: Error)
    ensures
        e is Decode,
{
    Error::Decode(String::from_str("malformed frame"))
}

/// Read one length-delimited block starting at `pos`.
fn read_lenb(buf: &Vec<u8>, pos: usize) -> (r: Option<(Vec<u8>, usize)>)
    requires
        pos <= buf.len(),
    ensures
        match parse_lenb(buf@.skip(pos as int)) {
            None => r is None,
            Some((b, u)) => r matches Some(p) && p.0@ == b && p.1 == pos + u,
        },
        r matches Some(p) ==> pos <= p.1 <= buf.len(),
{
    let ghost s = buf@.skip(pos as int);
    let blen = buf.len();
    match read_vint(buf, pos) {
        None => {
            proof {
                if vint_parse(s) is Some {
                    let pu = vint_parse(s)->0;
                    assert(pu.0 > u64::MAX);
                    lemma_vint_parse_used(s);
                    assert(s.len() <= blen <= usize::MAX <= u64::MAX);
                    assert(pu.1 + pu.0 > s.len());
                    assert(parse_lenb(s) is None);
                }
            }
            None
        },
        Some((n, p2)) => {
            proof {
                let pu = vint_parse(s)->0;
                assert(pu.0 == n as nat);
                assert(pu.1 == p2 - pos);
            }
            if n <= (buf.len() - p2) as u64 {
                let nn = n as usize;
                let sl = slice_subrange(buf.as_slice(), p2, p2 + nn);
                let bytes = slice_to_vec(sl);
                proof {
                    let pu = vint_parse(s)->0;
                    assert(pu.1 + pu.0 <= s.len());
                    assert(s.subrange((p2 - pos) as int, (p2 - pos + nn) as int) =~= buf@.subrange(
                        p2 as int,
                        (p2 + nn) as int,
                    ));
                    assert(bytes@ == s.subrange(pu.1, pu.1 + pu.0));
                }
                Some((bytes, p2 + nn))
            } else {
                proof {
                    let pu = vint_parse(s)->0;
                    assert(pu.1 + pu.0 > s.len());
                    assert(parse_lenb(s) is None);
                }
                None
            }
        },
    }
}

/// Read one length-delimited string starting at `pos`.
fn read_string(buf: &Vec<u8>, pos: usize) -> (r: Option<(String, usize)>)
    requires
        pos <= buf.len(),
    ensures
        match parse_str(buf@.skip(pos as int)) {
            None => r is None,
            Some((w, u)) => r matches Some(p) && p.0@ == w && p.1 == pos + u,
        },
        r matches Some(p) ==> pos <= p.1 <= buf.len(),
{
    match read_lenb(buf, pos) {
        None => None,
        Some((bytes, end)) => match string_from_utf8(bytes) {
            None => None,
            Some(st) => Some((st, end)),
        },
    }
}

/// Deserialize one frame into a request envelope, or fail with a decode
/// error on anything that is not a canonical request frame.
pub fn decode_request(frame: &Vec<u8>) -> (r: Result<Request, Error>)
    ensures
        match spec_parse_request(frame@) {
            Some(v) => r matches Ok(m) && m@ == v,
            None => r matches Err(e) && e is Decode,
        },
{
    proof {
        assert(frame@.skip(0) =~= frame@);
    }
    match read_vint(frame, 0) {
        None => Err(decode_err()),
        Some((id, p1)) => {
            if id > 0xFFFF_FFFF {
                return Err(decode_err());
            }
            match read_vint(frame, p1) {
                None => Err(decode_err()),
                Some((code, p2)) => {
                    if code == 0 {
                        if p2 == frame.len() {
                            Ok(Request { id: id as u32, request: None })
                        } else {
                            Err(decode_err())
                        }
                    } else if code > 22 {
                        Err(decode_err())
                    } else {
                        match read_lenb(frame, p2) {
                            None => Err(decode_err()),
                            Some((payload, p3)) => {
                                if p3 == frame.len() {
                                    let kind = kind_from_code(code);
                                    Ok(
                                        Request {
                                            id: id as u32,
                                            request: Some(Req::from_kind(kind, payload)),
                                        },
                                    )
                                } else {
                                    Err(decode_err())
                                }
                            },
                        }
                    }
                },
            }
        },
    }
}

/// Build the error-carrying response variant of the given kind.
fn coded_from_kind(kind: Kind, info: ErrorInfo) -> (r: ResVar)
    requires
        is_coded_kind(kind),
    ensures
        r@ == ResVarV::Coded(kind, info.error, info.error_details@),
{
    match kind {
        Kind::CreateGame => ResVar::CreateGame(info),
        Kind::JoinGame => ResVar::JoinGame(info),
        Kind::RestartGame => ResVar::RestartGame(info),
        Kind::StartReplay => ResVar::StartReplay(info),
        Kind::ReplayInfo => ResVar::ReplayInfo(info),
        _ => ResVar::MapCommand(info),
    }
}

/// Build the opaque response variant of the given kind.
fn opaque_from_kind(kind: Kind, p: Vec<u8>) -> (r: ResVar)
    requires
        kind != Kind::Unset,
        kind != Kind::SaveMap,
        !is_coded_kind(kind),
    ensures
        r@ == ResVarV::Opaque(kind, p@),
{
    match kind {
        Kind::LeaveGame => ResVar::LeaveGame(p),
        Kind::QuickSave => ResVar::QuickSave(p),
        Kind::QuickLoad => ResVar::QuickLoad(p),
        Kind::Quit => ResVar::Quit(p),
        Kind::GameInfo => ResVar::GameInfo(p),
        Kind::Observation => ResVar::Observation(p),
        Kind::Action => ResVar::Action(p),
        Kind::ObsAction => ResVar::ObsAction(p),
        Kind::Step => ResVar::Step(p),
        Kind::Data => ResVar::Data(p),
        Kind::Query => ResVar::Query(p),
        Kind::SaveReplay => ResVar::SaveReplay(p),
        Kind::AvailableMaps => ResVar::AvailableMaps(p),
        Kind::Ping => ResVar::Ping(p),
        _ => ResVar::Debug(p),
    }
}

/// Parse the payload block of a response variant of the given kind.
fn var_from_payload(kind: Kind, p: Vec<u8>) -> (r: Option<ResVar>)
    requires
        kind != Kind::Unset,
    ensures
        match parse_var_payload(kind, p@) {
            Some(rv) => r matches Some(x) && x@ == rv,
            None => r is None,
        },
{
    proof {
        assert(p@.skip(0) =~= p@);
    }
    if kind == Kind::SaveMap {
        match read_vint(&p, 0) {
            None => None,
            Some((code, u)) => {
                if u == p.len() && code <= 0xFFFF_FFFF {
                    Some(ResVar::SaveMap(code as u32))
                } else {
                    None
                }
            },
        }
    } else if kind == Kind::CreateGame || kind == Kind::JoinGame || kind == Kind::RestartGame
        || kind == Kind::StartReplay || kind == Kind::ReplayInfo || kind == Kind::MapCommand {
        match read_vint(&p, 0) {
            None => None,
            Some((code, u)) => {
                if code > 0xFFFF_FFFF {
                    return None;
                }
                match read_string(&p, u) {
                    None => None,
                    Some((det, u2)) => {
                        if u2 == p.len() {
                            Some(
                                coded_from_kind(
                                    kind,
                                    ErrorInfo { error: code as u32, error_details: det },
                                ),
                            )
                        } else {
                            None
                        }
                    },
                }
            },
        }
    } else {
        Some(opaque_from_kind(kind, p))
    }
}

/// A successful string parse consumes between one byte and the input.
proof fn lemma_parse_str_used(s: Seq<u8>)
    ensures
        parse_str(s) matches Some(p) ==> 1 <= p.1 <= s.len(),
{
    lemma_vint_parse_used(s);
}

/// A successful warning-list parse consumes at least one byte per string
/// and at most the whole input.
proof fn lemma_parse_warns_bound(s: Seq<u8>, count: nat)
    ensures
        parse_warns(s, count) matches Some(p) ==> count <= p.1 <= s.len(),
    decreases count,
{
    if count > 0 {
        match parse_str(s) {
            None => {},
            Some((w, u)) => {
                lemma_parse_str_used(s);
                lemma_parse_warns_bound(s.skip(u), (count - 1) as nat);
            },
        }
    }
}

/// Deserialize one frame into a response envelope, or fail with a decode
/// error on anything that is not a canonical response frame.
#[verifier::rlimit(100)]
#[verifier::loop_isolation(false)]
pub fn decode_response(frame: &Vec<u8>) -> (r: Result<Response, Error>)
    ensures
        match spec_parse_response(frame@) {
            Some(v) => r matches Ok(m) && m@ == v,
            None => r matches Err(e) && e is Decode,
        },
{
    let ghost s = frame@;
    proof {
        assert(s.skip(0) =~= s);
    }
    let blen = frame.len();
    let (id, p1) = match read_vint(frame, 0) {
        None => {
            return Err(decode_err());
        },
        Some(q) => q,
    };
    if id > 0xFFFF_FFFF {
        return Err(decode_err());
    }
    let (sc, p2) = match read_vint(frame, p1) {
        None => {
            return Err(decode_err());
        },
        Some(q) => q,
    };
    if sc > 6 {
        return Err(decode_err());
    }
    let status = match status_from_code(sc) {
        Some(st) => st,
        None => {
            return Err(decode_err());
        },
    };
    let (wc, p3) = match read_vint(frame, p2) {
        None => {
            proof {
                if vint_parse(s.skip(p2 as int)) is Some {
                    let pu = vint_parse(s.skip(p2 as int))->0;
                    lemma_vint_parse_used(s.skip(p2 as int));
                    if pu.0 > u64::MAX {
                        let s4 = s.skip(p2 + pu.1);
                        if parse_warns(s4, pu.0) is Some {
                            lemma_parse_warns_bound(s4, pu.0);
                            assert(s4.len() <= blen <= usize::MAX <= u64::MAX);
                            assert(false);
                        }
                    }
                }
            }
            return Err(decode_err());
        },
        Some(q) => q,
    };
    let mut warns: Vec<String> = Vec::new();
    let mut pos: usize = p3;
    let mut i: u64 = 0;
    while i < wc
        invariant
            s == frame@,
            blen == frame@.len(),
            i <= wc,
            p3 <= pos <= blen,
            warns@.len() == i as int,
            match parse_warns(s.skip(pos as int), (wc - i) as nat) {
                None => parse_warns(s.skip(p3 as int), wc as nat) is None,
                Some((ws2, u2)) => parse_warns(s.skip(p3 as int), wc as nat) == Some(
                    (crate::msg::strs_view(warns@) + ws2, (pos - p3) + u2),
                ),
            },
        decreases wc - i,
    {
        let ghost sv_old = crate::msg::strs_view(warns@);
        match read_string(frame, pos) {
            None => {
                return Err(decode_err());
            },
            Some((w, newpos)) => {
                proof {
                    let pw = parse_str(s.skip(pos as int))->0;
                    assert(s.skip(pos as int).skip(pw.1) =~= s.skip(newpos as int));
                }
                warns.push(w);
                i = i + 1;
                proof {
                    assert(crate::msg::strs_view(warns@) =~= sv_old + seq![w@]);
                    match parse_warns(s.skip(newpos as int), (wc - i) as nat) {
                        None => {},
                        Some((ws2, u2)) => {
                            assert(sv_old + (seq![w@] + ws2) =~= (sv_old + seq![w@]) + ws2);
                        },
                    }
                }
                pos = newpos;
            },
        }
    }
    proof {
        assert(crate::msg::strs_view(warns@) + Seq::<Seq<char>>::empty() =~= crate::msg::strs_view(
            warns@,
        ));
    }
    let (kc, p5) = match read_vint(frame, pos) {
        None => {
            return Err(decode_err());
        },
        Some(q) => q,
    };
    if kc == 0 {
        if p5 == blen {
            Ok(Response { id: id as u32, status, error: warns, response: None })
        } else {
            Err(decode_err())
        }
    } else if kc > 22 {
        Err(decode_err())
    } else {
        match read_lenb(frame, p5) {
            None => Err(decode_err()),
            Some((pb, p6)) => {
                if p6 == blen {
                    let kind = kind_from_code(kc);
                    match var_from_payload(kind, pb) {
                        None => Err(decode_err()),
                        Some(v) => Ok(
                            Response { id: id as u32, status, error: warns, response: Some(v) },
                        ),
                    }
                } else {
                    Err(decode_err())
                }
            },
        }
    }
}

} // verus!
