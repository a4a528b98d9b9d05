//! The request builders, action batching, ids, map data and launcher
//! arguments.

use sc2_kiss::act::{Act, Actions, IActions, Target, UnitCommand};
use sc2_kiss::action::{Chat, ChatMessage, UnitAction, UnitActions, UnitsActions};
use sc2_kiss::common::{Error, Kind, KindOf};
use sc2_kiss::draw::Color;
use sc2_kiss::grid::{BitMap, Grid, Height, Tile, TileFlags, Vision, CREEP, PATH};
use sc2_kiss::ids::{Ability, AbilityRemap};
use sc2_kiss::launch::{DisplayMode, Launcher, RenderingLib};
use sc2_kiss::linalg::{Point2, Point3};
use sc2_kiss::msg::{Req, ResVar};
use sc2_kiss::request::{
    GameCfg, GameInfo, LeaveGame, Load, MapResponse, Participant, Ports, Quit, ReplayCfg,
    ReplayInfoCfg,
};
use sc2_kiss::server::ServerCallback;
use sc2_kiss::unit::Tag;

#[test]
fn request_builders_pick_their_kinds() {
    let game = GameCfg {
        map: Load::Path("maps/test".to_string()),
        participants: vec![Participant::Player, Participant::Observer],
        disable_fog: true,
        random_seed: 11,
        realtime: false,
    };
    assert_eq!(game.to_req().kind(), Kind::CreateGame);

    let replay = ReplayCfg {
        replay: Load::Data(vec![1, 2]),
        map_data: vec![],
        player: 1,
        disable_fog: false,
        realtime: false,
        record: true,
    };
    assert_eq!(replay.to_req().kind(), Kind::StartReplay);

    let info = ReplayInfoCfg {
        replay: Load::Path("r".to_string()),
        download_data: false,
    };
    assert_eq!(info.to_req().kind(), Kind::ReplayInfo);
}

#[test]
fn distinct_configurations_encode_distinct_payloads() {
    let a = GameCfg::default().to_req();
    let mut with_seed = GameCfg::default();
    with_seed.random_seed = 1;
    let b = with_seed.to_req();
    match (a, b) {
        (Req::CreateGame(pa), Req::CreateGame(pb)) => assert_ne!(pa, pb),
        _ => unreachable!(),
    }
}

#[test]
fn marker_requests_have_empty_payloads() {
    let r = Quit.to_request();
    assert_eq!(r.id, 0);
    assert_eq!(r.request, Some(Req::Quit(vec![])));
    assert_eq!(Quit.kind(), Kind::Quit);
    let r = LeaveGame.to_request();
    assert_eq!(r.request, Some(Req::LeaveGame(vec![])));
    assert_eq!(GameInfo.to_request().request, Some(Req::GameInfo(vec![])));
}

#[test]
fn map_response_narrows_by_kind() {
    let data = GameInfo::map_res(ResVar::GameInfo(vec![1, 2])).unwrap();
    assert_eq!(data, vec![1, 2]);
    match GameInfo::map_res(ResVar::Ping(vec![])).unwrap_err() {
        Error::BadRes(got, expected) => {
            assert_eq!(got, Kind::Ping);
            assert_eq!(expected, Kind::GameInfo);
        }
        other => panic!("expected BadRes, got {other:?}"),
    }
    assert!(Quit::map_res(ResVar::Quit(vec![])).is_ok());
}

#[test]
fn ports_hold_their_fields() {
    let p = Ports::new(5001, 5002);
    assert_eq!(p.game, 5001);
    assert_eq!(p.base, 5002);
}

#[test]
fn act_builders() {
    let a = Act::new(Ability(42));
    assert_eq!(a.ability, Ability(42));
    assert_eq!(a.target, None);
    assert!(!a.queue);
    let t = Tag::new(9);
    let a = a.target_unit(t).queue(true);
    assert_eq!(a.target, Some(Target::Unit(t)));
    assert!(a.queue);
    let a = a.target_pos(Point2::new(3, 4));
    assert_eq!(a.target, Some(Target::Pos(Point2::new(3, 4))));
    assert_eq!(a.target_none().target, None);
}

fn flush(actions: &mut Actions) -> Vec<UnitCommand> {
    let mut buf = Vec::new();
    actions.flush_to_vec(&mut buf);
    buf
}

#[test]
fn actions_merge_units_sharing_a_command() {
    let mut acts = Actions::new();
    assert!(acts.is_empty());
    let attack = Act::new(Ability(23)).target_unit(Tag::new(100));
    acts.add(attack, Tag::new(1));
    acts.add(attack, Tag::new(2));
    acts.add(attack, Tag::new(1)); // duplicate unit is kept once
    assert!(!acts.is_empty());
    let cmds = flush(&mut acts);
    assert!(acts.is_empty());
    assert_eq!(cmds.len(), 1);
    assert_eq!(cmds[0].ability, Ability(23));
    assert_eq!(cmds[0].target, Some(Target::Unit(Tag::new(100))));
    assert!(!cmds[0].queue);
    let mut tags: Vec<u64> = cmds[0].unit_tags.iter().map(|t| t.num()).collect();
    tags.sort();
    assert_eq!(tags, vec![1, 2]);
}

#[test]
fn actions_keep_positional_batches_apart() {
    let mut acts = Actions::new();
    let move_to = Act::new(Ability(16)).target_pos(Point2::new(10, 20));
    acts.add_batch(move_to, vec![Tag::new(1), Tag::new(2)]);
    acts.add_batch(move_to, vec![Tag::new(3)]);
    let cmds = flush(&mut acts);
    assert_eq!(cmds.len(), 2);
    for cmd in &cmds {
        assert_eq!(cmd.target, Some(Target::Pos(Point2::new(10, 20))));
    }
    assert_eq!(cmds[0].unit_tags.len(), 2);
    assert_eq!(cmds[1].unit_tags.len(), 1);
}

#[test]
fn iactions_merge_equal_acts() {
    let mut acts = IActions::new();
    assert!(acts.is_empty());
    let move_to = Act::new(Ability(16)).target_pos(Point2::new(5, 5));
    acts.add(move_to, Tag::new(7));
    acts.add(move_to, Tag::new(8));
    acts.add(Act::new(Ability(16)).target_pos(Point2::new(6, 6)), Tag::new(7));
    let mut buf = Vec::new();
    acts.flush_to_vec(&mut buf);
    assert!(acts.is_empty());
    assert_eq!(buf.len(), 2);
    assert_eq!(buf[0].unit_tags.len(), 2);
    assert_eq!(buf[1].unit_tags.len(), 1);
}

#[test]
fn unit_action_sequences() {
    let act = Ability(12).target(Tag::new(4));
    assert_eq!(act.ability, Ability(12));
    assert_eq!(act.target, Some(Target::Unit(Tag::new(4))));
    let seqs = act.queue(true);
    assert!(seqs.queue);
    assert_eq!(seqs.actions.len(), 1);
    let mut all = UnitsActions::new();
    all.insert(Tag::new(1), seqs);
    all.insert(Tag::new(2), UnitActions::new());
    let untargeted: UnitAction = UnitAction::new();
    assert_eq!(untargeted.target, None);
}

#[test]
fn chat_channels() {
    let public = ChatMessage {
        message: "hello".to_string(),
        private: false,
    }
    .to_action();
    assert_eq!(public.channel, 0);
    assert_eq!(public.message, "hello");
    let team = ChatMessage {
        message: "psst".to_string(),
        private: true,
    }
    .to_action();
    assert_eq!(team.channel, 2);
}

#[test]
fn ability_remap_prefers_first_pair() {
    let remap = AbilityRemap::new(vec![
        (Ability(10), Ability(1)),
        (Ability(20), Ability(2)),
        (Ability(10), Ability(3)),
    ]);
    assert_eq!(remap.try_remap(Ability(10)), Some(Ability(1)));
    assert_eq!(remap.try_remap(Ability(20)), Some(Ability(2)));
    assert_eq!(remap.try_remap(Ability(30)), None);
    assert_eq!(remap.remap(Ability(20)), Ability(2));
    assert_eq!(remap.remap(Ability(30)), Ability(30));
}

#[test]
fn bitmap_get_and_set() {
    // A 10 by 3 map needs ceil(30 / 8) = 4 bytes.
    let size = Point2::new(10, 3);
    let mut map = BitMap::new(vec![0; 4], size);
    assert_eq!(map.size(), size);
    assert!(!map.get(Point2::new(0, 0)));
    map.set(Point2::new(0, 0), true);
    map.set(Point2::new(9, 2), true);
    map.set(Point2::new(4, 1), true);
    assert!(map.get(Point2::new(0, 0)));
    assert!(map.get(Point2::new(9, 2)));
    assert!(map.get(Point2::new(4, 1)));
    assert!(!map.get(Point2::new(1, 0)));
    map.set(Point2::new(0, 0), false);
    assert!(!map.get(Point2::new(0, 0)));
    assert!(map.get(Point2::new(4, 1)));
    // Off the map: reads are clear, writes are ignored.
    assert!(!map.get(Point2::new(10, 0)));
    map.set(Point2::new(-1, 0), true);
    assert!(!map.get(Point2::new(-1, 0)));
}

#[test]
fn bitmap_reads_packed_bytes_highest_bit_first() {
    // One row of eight bits: 0b1010_0001.
    let map = BitMap::new(vec![0xA1], Point2::new(8, 1));
    let bits: Vec<bool> = (0..8).map(|x| map.get(Point2::new(x, 0))).collect();
    assert_eq!(
        bits,
        vec![true, false, true, false, false, false, false, true]
    );
}

#[test]
fn grid_get_and_set() {
    let size = Point2::new(3, 2);
    let mut grid: Grid<u8> = Grid::new(vec![0, 1, 2, 3, 4, 5], size);
    assert_eq!(grid.size(), size);
    assert_eq!(grid.get(Point2::new(0, 0)), Some(&0));
    assert_eq!(grid.get(Point2::new(2, 1)), Some(&5));
    assert_eq!(grid.get(Point2::new(3, 0)), None);
    grid.set(Point2::new(1, 1), 40);
    assert_eq!(grid.get(Point2::new(1, 1)), Some(&40));
    grid.set(Point2::new(9, 9), 99);
    assert_eq!(grid.get(Point2::new(9, 9)), None);
}

#[test]
fn tile_map_from_raw_and_update() {
    let size = Point2::new(8, 1);
    // Pathing on everywhere, placement off, creep only at x = 0.
    let pathing = BitMap::new(vec![0xFF], size);
    let placement = BitMap::new(vec![0x00], size);
    let creep = BitMap::new(vec![0x80], size);
    let height: Grid<u8> = Grid::new(vec![10, 11, 12, 13, 14, 15, 16, 17], size);
    // Visible at x = 0 and x = 1, fogged at x = 2, hidden elsewhere.
    let vision: Grid<u8> = Grid::new(vec![2, 2, 1, 0, 0, 0, 0, 0], size);

    let mut tiles = Grid::<Tile>::from_raw(&pathing, &placement, &creep, &height, &vision);
    let t0 = *tiles.get(Point2::new(0, 0)).unwrap();
    assert!(t0.flags.contains(PATH));
    assert!(t0.flags.contains(CREEP));
    assert_eq!(t0.height, Height(10));
    assert!(t0.vision.is_clear());
    assert_eq!(t0.last_seen, 0);
    let t2 = *tiles.get(Point2::new(2, 0)).unwrap();
    assert!(!t2.flags.contains(CREEP));
    assert_eq!(t2.vision, Vision::Fog);

    // Creep recedes, position 2 comes into view at game loop 42.
    let creep2 = BitMap::new(vec![0x00], size);
    let vision2: Grid<u8> = Grid::new(vec![2, 1, 2, 0, 0, 0, 0, 0], size);
    tiles.update(&creep2, &vision2, 42);
    let t0 = *tiles.get(Point2::new(0, 0)).unwrap();
    assert!(!t0.flags.contains(CREEP));
    assert_eq!(t0.last_seen, 42);
    let t1 = *tiles.get(Point2::new(1, 0)).unwrap();
    assert_eq!(t1.vision, Vision::Fog);
    assert_eq!(t1.last_seen, 0);
    let t2 = *tiles.get(Point2::new(2, 0)).unwrap();
    assert!(t2.vision.is_clear());
    assert_eq!(t2.last_seen, 42);
    assert_eq!(t2.height, Height(12));
}

#[test]
fn chat_buffer_flushes_in_order() {
    let mut chat = Chat::new();
    chat.say("everyone".to_string());
    chat.log("team only".to_string());
    let mut buf = Vec::new();
    chat.flush_to_vec(&mut buf);
    assert_eq!(buf.len(), 2);
    assert_eq!(buf[0].channel, 0);
    assert_eq!(buf[0].message, "everyone");
    assert_eq!(buf[1].channel, 2);
    assert_eq!(buf[1].message, "team only");
    let mut empty = Vec::new();
    chat.flush_to_vec(&mut empty);
    assert!(empty.is_empty());
}

#[test]
fn vision_and_tile_flags() {
    assert_eq!(Vision::from_raw(0), Vision::Hidden);
    assert_eq!(Vision::from_raw(1), Vision::Fog);
    assert_eq!(Vision::from_raw(2), Vision::Clear);
    assert_eq!(Vision::from_raw(77), Vision::Black);
    assert!(Vision::Clear.is_clear());
    assert!(!Vision::Fog.is_clear());

    let flags = TileFlags::default().insert(PATH);
    assert!(flags.contains(PATH));
    assert!(!flags.contains(CREEP));
    let flags = flags.set(CREEP, true).set(PATH, false);
    assert!(flags.contains(CREEP));
    assert!(!flags.contains(PATH));
}

#[test]
fn server_callback_accepts_only_the_api_path() {
    let cb = ServerCallback;
    assert!(cb.accept_path("/sc2api"));
    assert!(!cb.accept_path("/"));
    assert!(!cb.accept_path("/sc2api/extra"));
    assert!(!cb.accept_path("/SC2API"));
}

#[test]
fn launcher_arguments() {
    let base = Launcher::new("::1".to_string(), 5000);
    assert_eq!(base.args(), vec!["-listen", "::1", "-port", "5000"]);

    let mut full = Launcher::new("127.0.0.1".to_string(), 8167);
    full.verbose = true;
    full.display_mode = DisplayMode::Windowed;
    full.rendering_lib = Some(RenderingLib::Egl("/usr/lib/libEGL.so".to_string()));
    assert_eq!(
        full.args(),
        vec![
            "-listen",
            "127.0.0.1",
            "-port",
            "8167",
            "-verbose",
            "-displayMode",
            "0",
            "-eglpath",
            "/usr/lib/libEGL.so",
        ]
    );
}

#[test]
fn draw_builders() {
    let l = sc2_kiss::draw::line(Point3::new(0, 0, 0), Point3::new(1, 1, 1))
        .color(Color::new(255, 0, 0));
    assert_eq!(l.color, Color::new(255, 0, 0));
    let b = sc2_kiss::draw::aabb(Point3::new(0, 0, 0), Point3::new(2, 2, 2));
    assert_eq!(b.color, Color::white());
    assert_eq!(Color::default(), Color::new(255, 255, 255));
}
