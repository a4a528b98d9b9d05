//! The status machine, the error classifier and the session pipeline,
//! exercised end to end over encoded frames.

use sc2_kiss::common::{Error, Kind};
use sc2_kiss::msg::{ErrorInfo, ResVar, Response};
use sc2_kiss::server::res_into_msg;
use sc2_kiss::session::{check_errors, check_res, join_lines, u32_dec_string, Res, Session};
use sc2_kiss::status::{check_status, Status};

fn reply(status: Status, warns: &[&str], var: Option<ResVar>) -> Vec<u8> {
    res_into_msg(&Response {
        id: 0,
        status,
        error: warns.iter().map(|w| w.to_string()).collect(),
        response: var,
    })
}

// ---- the status machine ----

#[test]
fn first_validation_always_succeeds() {
    for status in [
        Status::Unset,
        Status::Launched,
        Status::InitGame,
        Status::InGame,
        Status::InReplay,
        Status::Ended,
        Status::Quit,
    ] {
        assert!(check_status(Kind::Action, status, Status::Unset).is_ok());
        assert!(check_status(Kind::CreateGame, status, Status::Unset).is_ok());
    }
}

#[test]
fn expected_statuses_are_accepted() {
    assert!(check_status(Kind::CreateGame, Status::InitGame, Status::Launched).is_ok());
    assert!(check_status(Kind::JoinGame, Status::InGame, Status::InitGame).is_ok());
    assert!(check_status(Kind::RestartGame, Status::InGame, Status::InGame).is_ok());
    assert!(check_status(Kind::StartReplay, Status::InReplay, Status::Launched).is_ok());
    assert!(check_status(Kind::LeaveGame, Status::Launched, Status::InGame).is_ok());
    assert!(check_status(Kind::Quit, Status::Quit, Status::InGame).is_ok());
    for s in [Status::InGame, Status::InReplay, Status::Ended] {
        assert!(check_status(Kind::Step, s, Status::InGame).is_ok());
        assert!(check_status(Kind::Observation, s, Status::InGame).is_ok());
    }
    // Kinds without a transition of their own keep the status.
    assert!(check_status(Kind::Ping, Status::InGame, Status::InGame).is_ok());
    assert!(check_status(Kind::Action, Status::Ended, Status::Ended).is_ok());
}

#[test]
fn debug_is_unconstrained() {
    for s in [Status::Launched, Status::InGame, Status::Quit] {
        assert!(check_status(Kind::Debug, s, Status::Ended).is_ok());
    }
}

#[test]
fn unexpected_statuses_are_rejected_with_the_expected_set() {
    let err = check_status(Kind::CreateGame, Status::Launched, Status::Launched).unwrap_err();
    match err {
        Error::BadStatus(got, expect) => {
            assert_eq!(got, Status::Launched);
            assert_eq!(expect, vec![Status::InitGame]);
        }
        other => panic!("expected BadStatus, got {other:?}"),
    }
    let err = check_status(Kind::Step, Status::Launched, Status::InGame).unwrap_err();
    match err {
        Error::BadStatus(got, expect) => {
            assert_eq!(got, Status::Launched);
            assert_eq!(expect, vec![Status::InGame, Status::InReplay, Status::Ended]);
        }
        other => panic!("expected BadStatus, got {other:?}"),
    }
    // A status-preserving kind must not change the status.
    assert!(check_status(Kind::Ping, Status::InGame, Status::Launched).is_err());
}

// ---- the classifier ----

#[test]
fn empty_response_classifies_as_empty_error() {
    let res = Response {
        id: 0,
        status: Status::Launched,
        error: vec!["first".to_string(), "second".to_string()],
        response: None,
    };
    let e = Res::from_response(res).unwrap_err();
    assert_eq!(e.kind, Kind::Unset);
    assert_eq!(e.code, 0);
    assert_eq!(e.err, "Empty Response");
    assert_eq!(e.desc, "first\nsecond");
}

#[test]
fn save_map_error_has_empty_detail() {
    let res = Res {
        data: ResVar::SaveMap(3),
        status: Status::InGame,
        warns: vec![],
    };
    match check_errors(&res).unwrap_err() {
        Error::Sc2(e) => {
            assert_eq!(e.kind, Kind::SaveMap);
            assert_eq!(e.code, 3);
            assert_eq!(e.err, "3");
            assert_eq!(e.desc, "");
        }
        other => panic!("expected Sc2, got {other:?}"),
    }
}

#[test]
fn embedded_error_carries_code_and_detail() {
    let res = Res {
        data: ResVar::CreateGame(ErrorInfo {
            error: 2,
            error_details: "no such map".to_string(),
        }),
        status: Status::Launched,
        warns: vec![],
    };
    match check_errors(&res).unwrap_err() {
        Error::Sc2(e) => {
            assert_eq!(e.kind, Kind::CreateGame);
            assert_eq!(e.code, 2);
            assert_eq!(e.err, "2");
            assert_eq!(e.desc, "no such map");
        }
        other => panic!("expected Sc2, got {other:?}"),
    }
}

#[test]
fn unset_code_classifies_as_success() {
    for var in [
        ResVar::CreateGame(ErrorInfo {
            error: 0,
            error_details: String::new(),
        }),
        ResVar::SaveMap(0),
        ResVar::Ping(vec![1, 2]),
    ] {
        let res = Res {
            data: var,
            status: Status::Launched,
            warns: vec![],
        };
        assert!(check_errors(&res).is_ok());
    }
}

// ---- the validation pipeline ----

#[test]
fn check_res_advances_status_only_on_full_success() {
    let ok = Res {
        data: ResVar::CreateGame(ErrorInfo {
            error: 0,
            error_details: String::new(),
        }),
        status: Status::InitGame,
        warns: vec![],
    };
    let mut status = Status::Launched;
    let out = check_res(ok.clone(), Kind::CreateGame, &mut status).unwrap();
    assert_eq!(status, Status::InitGame);
    assert_eq!(out.status, Status::InitGame);

    // Kind mismatch leaves the status alone.
    let mut status = Status::Launched;
    match check_res(ok.clone(), Kind::Ping, &mut status).unwrap_err() {
        Error::BadRes(got, expected) => {
            assert_eq!(got, Kind::CreateGame);
            assert_eq!(expected, Kind::Ping);
        }
        other => panic!("expected BadRes, got {other:?}"),
    }
    assert_eq!(status, Status::Launched);
}

// ---- end-to-end exchanges over encoded frames ----

#[test]
fn fresh_session_accepts_any_reported_status() {
    let mut session = Session::new();
    assert_eq!(session.status(), Status::Unset);
    let frame = reply(Status::Launched, &[], Some(ResVar::Ping(vec![])));
    let res = session.read(&frame, Kind::Ping).unwrap();
    assert_eq!(res.status, Status::Launched);
    assert_eq!(session.status(), Status::Launched);
}

#[test]
fn create_game_transition_and_rejection() {
    // Bring a fresh session to Launched.
    let mut session = Session::new();
    let frame = reply(Status::Launched, &[], Some(ResVar::Ping(vec![])));
    session.read(&frame, Kind::Ping).unwrap();
    assert_eq!(session.status(), Status::Launched);

    // The peer answers CreateGame with InitGame and no embedded error.
    let good = reply(
        Status::InitGame,
        &[],
        Some(ResVar::CreateGame(ErrorInfo {
            error: 0,
            error_details: String::new(),
        })),
    );
    session.read(&good, Kind::CreateGame).unwrap();
    assert_eq!(session.status(), Status::InitGame);

    // A peer that stays Launched violates the transition table.
    let mut session = Session::new();
    let frame = reply(Status::Launched, &[], Some(ResVar::Ping(vec![])));
    session.read(&frame, Kind::Ping).unwrap();
    let stuck = reply(
        Status::Launched,
        &[],
        Some(ResVar::CreateGame(ErrorInfo {
            error: 0,
            error_details: String::new(),
        })),
    );
    match session.read(&stuck, Kind::CreateGame).unwrap_err() {
        Error::BadStatus(got, expect) => {
            assert_eq!(got, Status::Launched);
            assert_eq!(expect, vec![Status::InitGame]);
        }
        other => panic!("expected BadStatus, got {other:?}"),
    }
    assert_eq!(session.status(), Status::Launched);
}

#[test]
fn mismatched_kind_is_bad_res_whatever_else_it_carries() {
    let mut session = Session::new();
    let frame = reply(
        Status::InGame,
        &["ignored"],
        Some(ResVar::JoinGame(ErrorInfo {
            error: 9,
            error_details: "also ignored".to_string(),
        })),
    );
    match session.read(&frame, Kind::Ping).unwrap_err() {
        Error::BadRes(got, expected) => {
            assert_eq!(got, Kind::JoinGame);
            assert_eq!(expected, Kind::Ping);
        }
        other => panic!("expected BadRes, got {other:?}"),
    }
    assert_eq!(session.status(), Status::Unset);
}

#[test]
fn embedded_join_error_surfaces_and_keeps_status() {
    let mut session = Session::new();
    let frame = reply(Status::Launched, &[], Some(ResVar::Ping(vec![])));
    session.read(&frame, Kind::Ping).unwrap();

    let join = reply(
        Status::Launched,
        &[],
        Some(ResVar::JoinGame(ErrorInfo {
            error: 4,
            error_details: "color clash".to_string(),
        })),
    );
    match session.read(&join, Kind::JoinGame).unwrap_err() {
        Error::Sc2(e) => {
            assert_eq!(e.kind, Kind::JoinGame);
            assert_eq!(e.code, 4);
            assert_eq!(e.err, "4");
            assert_eq!(e.desc, "color clash");
        }
        other => panic!("expected Sc2, got {other:?}"),
    }
    assert_eq!(session.status(), Status::Launched);
}

#[test]
fn empty_variant_slot_carries_no_kind() {
    let mut session = Session::new();
    let frame = reply(Status::Launched, &["engine says no"], None);
    match session.read(&frame, Kind::GameInfo).unwrap_err() {
        Error::Sc2(e) => {
            assert_eq!(e.kind, Kind::Unset);
            assert_eq!(e.err, "Empty Response");
            assert_eq!(e.desc, "engine says no");
        }
        other => panic!("expected Sc2, got {other:?}"),
    }
    assert_eq!(session.status(), Status::Unset);
}

#[test]
fn garbage_frame_is_a_decode_error() {
    let mut session = Session::new();
    match session.read(&vec![0xFF, 0xFF], Kind::Ping).unwrap_err() {
        Error::Decode(_) => {}
        other => panic!("expected Decode, got {other:?}"),
    }
    assert_eq!(session.status(), Status::Unset);
}

#[test]
fn status_reads_are_idempotent() {
    let mut session = Session::new();
    assert_eq!(session.status(), session.status());
    let frame = reply(Status::InGame, &[], Some(ResVar::Ping(vec![])));
    session.read(&frame, Kind::Ping).unwrap();
    let once = session.status();
    let again = session.status();
    assert_eq!(once, Status::InGame);
    assert_eq!(once, again);
}

// ---- string helpers ----

#[test]
fn decimal_strings() {
    assert_eq!(u32_dec_string(0), "0");
    assert_eq!(u32_dec_string(7), "7");
    assert_eq!(u32_dec_string(42), "42");
    assert_eq!(u32_dec_string(1000), "1000");
    assert_eq!(u32_dec_string(u32::MAX), "4294967295");
}

#[test]
fn joined_lines() {
    assert_eq!(join_lines(&vec![]), "");
    assert_eq!(join_lines(&vec!["one".to_string()]), "one");
    assert_eq!(
        join_lines(&vec!["one".to_string(), "two".to_string(), "three".to_string()]),
        "one\ntwo\nthree"
    );
}
