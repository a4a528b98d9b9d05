//! Wire codec behaviour: round trips for every variant, and rejection
//! of everything that is not a canonical frame.

use sc2_kiss::common::{kind_code, kind_from_code, Error, Kind, KindOf};
use sc2_kiss::msg::{ErrorInfo, Req, Request, ResVar, Response};
use sc2_kiss::server::{req_from_msg, res_into_msg};
use sc2_kiss::status::Status;
use sc2_kiss::wire::{decode_request, decode_response, encode_request, read_vint, write_vint};

fn all_reqs(payload: &[u8]) -> Vec<Req> {
    let p = || payload.to_vec();
    vec![
        Req::CreateGame(p()),
        Req::JoinGame(p()),
        Req::RestartGame(p()),
        Req::StartReplay(p()),
        Req::LeaveGame(p()),
        Req::QuickSave(p()),
        Req::QuickLoad(p()),
        Req::Quit(p()),
        Req::GameInfo(p()),
        Req::Observation(p()),
        Req::Action(p()),
        Req::ObsAction(p()),
        Req::Step(p()),
        Req::Data(p()),
        Req::Query(p()),
        Req::SaveReplay(p()),
        Req::ReplayInfo(p()),
        Req::AvailableMaps(p()),
        Req::SaveMap(p()),
        Req::MapCommand(p()),
        Req::Ping(p()),
        Req::Debug(p()),
    ]
}

#[test]
fn request_round_trip_every_variant() {
    for req in all_reqs(&[1, 2, 3, 200, 0, 255]) {
        let wrapped = Request::wrap(req.clone());
        let frame = encode_request(&wrapped);
        let back = decode_request(&frame).expect("canonical frame must decode");
        assert_eq!(back, wrapped);
        assert_eq!(back.request, Some(req));
        assert_eq!(back.id, 0);
    }
}

#[test]
fn request_round_trip_empty_payload_and_id() {
    let wrapped = Request {
        id: 0xDEAD_BEEF,
        request: Some(Req::Ping(vec![])),
    };
    let frame = encode_request(&wrapped);
    assert_eq!(decode_request(&frame).unwrap(), wrapped);

    let absent = Request {
        id: 7,
        request: None,
    };
    let frame = encode_request(&absent);
    assert_eq!(decode_request(&frame).unwrap(), absent);
}

#[test]
fn request_decode_rejects_garbage() {
    // Empty frame.
    assert!(matches!(decode_request(&vec![]), Err(Error::Decode(_))));
    // Truncated payload block.
    let frame = encode_request(&Request::wrap(Req::Ping(vec![1, 2, 3])));
    let cut = frame[..frame.len() - 1].to_vec();
    assert!(matches!(decode_request(&cut), Err(Error::Decode(_))));
    // Trailing byte after a complete frame.
    let mut long = frame.clone();
    long.push(0);
    assert!(matches!(decode_request(&long), Err(Error::Decode(_))));
    // Unknown variant code.
    assert!(matches!(decode_request(&vec![0, 23]), Err(Error::Decode(_))));
    // Non-minimal varint for the id.
    assert!(matches!(
        decode_request(&vec![0x80, 0x00, 19, 0]),
        Err(Error::Decode(_))
    ));
}

fn make_response(id: u32, status: Status, warns: &[&str], var: Option<ResVar>) -> Response {
    Response {
        id,
        status,
        error: warns.iter().map(|w| w.to_string()).collect(),
        response: var,
    }
}

#[test]
fn response_round_trip_plain_variant() {
    let res = make_response(
        3,
        Status::InGame,
        &["warning one", "warning two"],
        Some(ResVar::Observation(vec![9, 8, 7])),
    );
    let frame = res_into_msg(&res);
    let back = decode_response(&frame).expect("canonical frame must decode");
    assert_eq!(back, res);
}

#[test]
fn response_round_trip_error_variants() {
    for var in [
        ResVar::CreateGame(ErrorInfo {
            error: 2,
            error_details: "missing map".to_string(),
        }),
        ResVar::JoinGame(ErrorInfo {
            error: 7,
            error_details: String::new(),
        }),
        ResVar::SaveMap(4),
        ResVar::MapCommand(ErrorInfo {
            error: 1,
            error_details: "no trigger".to_string(),
        }),
    ] {
        let res = make_response(0, Status::Launched, &[], Some(var));
        let frame = res_into_msg(&res);
        assert_eq!(decode_response(&frame).unwrap(), res);
    }
}

#[test]
fn response_round_trip_empty_variant_slot() {
    let res = make_response(0, Status::Ended, &["the game ended"], None);
    let frame = res_into_msg(&res);
    assert_eq!(decode_response(&frame).unwrap(), res);
}

#[test]
fn response_round_trip_unicode_warning() {
    let res = make_response(1, Status::InReplay, &["w\u{00e4}rnung \u{1F600}"], None);
    let frame = res_into_msg(&res);
    assert_eq!(decode_response(&frame).unwrap(), res);
}

#[test]
fn response_decode_rejects_garbage() {
    assert!(matches!(decode_response(&vec![]), Err(Error::Decode(_))));
    // Unknown status code.
    assert!(matches!(
        decode_response(&vec![0, 7, 0, 0]),
        Err(Error::Decode(_))
    ));
    // Warning count without warnings.
    assert!(matches!(
        decode_response(&vec![0, 1, 2, 0]),
        Err(Error::Decode(_))
    ));
    // A warning block that is not UTF-8.
    let res = make_response(0, Status::Launched, &["ab"], None);
    let mut frame = res_into_msg(&res);
    // The warning bytes sit between the count and the variant code.
    let pos = frame.len() - 3;
    frame[pos] = 0xFF;
    assert!(matches!(decode_response(&frame), Err(Error::Decode(_))));
}

#[test]
fn kind_codes_are_the_wire_discriminants() {
    assert_eq!(kind_code(Kind::CreateGame), 1);
    assert_eq!(kind_code(Kind::Step), 12);
    assert_eq!(kind_code(Kind::Debug), 20);
    assert_eq!(kind_code(Kind::ObsAction), 21);
    assert_eq!(kind_code(Kind::ReplayInfo), 22);
    for c in 1..=22u64 {
        assert_eq!(kind_code(kind_from_code(c)), c);
    }
    assert_eq!(kind_from_code(0), Kind::Unset);
    assert_eq!(kind_from_code(23), Kind::Unset);
}

#[test]
fn kind_of_requests_and_responses() {
    assert_eq!(Req::Step(vec![]).kind(), Kind::Step);
    assert_eq!(
        ResVar::SaveMap(0).kind(),
        Kind::SaveMap
    );
    let r = Request { id: 0, request: None };
    assert_eq!(r.kind(), Kind::Unset);
    let res = make_response(0, Status::Unset, &[], None);
    assert_eq!(res.kind(), Kind::Unset);
}

#[test]
fn varint_boundaries() {
    for n in [0u64, 1, 127, 128, 129, 16383, 16384, 300, u64::MAX] {
        let mut buf = Vec::new();
        write_vint(&mut buf, n);
        let (v, end) = read_vint(&buf, 0).expect("own encoding must read back");
        assert_eq!(v, n);
        assert_eq!(end, buf.len());
    }
    assert_eq!(read_vint(&vec![0x2A], 0), Some((42, 1)));
    assert_eq!(read_vint(&vec![0xAC, 0x02], 0), Some((300, 2)));
    // Non-minimal encoding of 0 is rejected.
    assert_eq!(read_vint(&vec![0x80, 0x00], 0), None);
    // Unterminated continuation is rejected.
    assert_eq!(read_vint(&vec![0x80], 0), None);
    // Eleven continuation bytes cannot fit a 64-bit value.
    let big = vec![0xFF; 10].into_iter().chain([0x7F]).collect::<Vec<u8>>();
    assert_eq!(read_vint(&big, 0), None);
}

#[test]
fn server_reads_what_client_sends() {
    let req = Req::CreateGame(vec![5, 5, 5]);
    let frame = sc2_kiss::session::req_into_msg(req.clone());
    let seen = req_from_msg(&frame).expect("server must decode the client's frame");
    assert_eq!(seen.request, Some(req));
    assert_eq!(seen.id, 0);
}
