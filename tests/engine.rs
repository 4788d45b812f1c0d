use rendezvous::camera::{primary_camera_exists, CameraError, CameraInfo, Cameras};
use rendezvous::control::{
    begin_cycle, cycle_cooldown_secs, direct_server_step, handle_configure_update, ControlFlags,
    DirectStep, PkMismatchGuard,
};
use rendezvous::display::{
    calculate_max_resolution_from_displays, decrement_active_display_count,
    get_max_desktop_resolution, increment_active_display_count, is_inited, map_err_scrap,
    parse_resolution_line, try_log, DisplayError, DisplayRect, DisplaySessions, ScrapError,
};
use rendezvous::host::{
    check_port, get_direct_port, get_host_prefix, increase_port, online_server_addr, parse_i32,
    parse_u16,
};
use rendezvous::latency::LatencyTracker;
use rendezvous::mediator::{
    create_relay, feeds_latency, nat_type_of, Inbound, PkResult, Reaction, Registration, RelayRequest,
    RendezvousMediator, TraversalPlan, NAT_ASYMMETRIC, NAT_SYMMETRIC,
};
use rendezvous::online::{decode_online_states, query_online_step, OnlineReply, QueryStep};
use rendezvous::registration::{TcpInbound, TcpRegistration, TcpTick, UdpRegistration};

fn ids(v: &[&str]) -> Vec<String> {
    v.iter().map(|s| s.to_string()).collect()
}

const SEC: u64 = 1_000_000;

#[test]
fn online_bitmap_splits_ids() {
    let list = ids(&["A", "B", "C", "D"]);
    let (on, off) = decode_online_states(&list, &vec![0b1010_0000]).unwrap();
    assert_eq!(on, ids(&["A", "C"]));
    assert_eq!(off, ids(&["B", "D"]));
}

#[test]
fn online_bitmap_second_byte() {
    let list = ids(&["a", "b", "c", "d", "e", "f", "g", "h", "i"]);
    let (on, off) = decode_online_states(&list, &vec![0b0000_0001, 0b1000_0000]).unwrap();
    assert_eq!(on, ids(&["h", "i"]));
    assert_eq!(off.len(), 7);
}

#[test]
fn online_bitmap_too_short_is_rejected() {
    let list = ids(&["a", "b", "c", "d", "e", "f", "g", "h", "i"]);
    assert!(decode_online_states(&list, &vec![0xff]).is_none());
    assert!(decode_online_states(&ids(&[]), &vec![]).is_some());
}

#[test]
fn online_query_unreachable_reports_all_offline() {
    let list = ids(&["A", "B"]);
    match query_online_step(&list, false, &OnlineReply::ConnectFailed, 0, 3000) {
        QueryStep::Done(on, off) => {
            assert!(on.is_empty());
            assert_eq!(off, list);
        }
        _ => panic!("expected a result"),
    }
    match query_online_step(&list, false, &OnlineReply::SendFailed, 0, 3000) {
        QueryStep::Done(on, off) => {
            assert!(on.is_empty());
            assert_eq!(off, list);
        }
        _ => panic!("expected a result"),
    }
}

#[test]
fn online_query_shutdown_and_retry() {
    let list = ids(&["A"]);
    match query_online_step(&list, true, &OnlineReply::States(vec![0x80]), 0, 3000) {
        QueryStep::Done(on, off) => assert!(on.is_empty() && off.is_empty()),
        _ => panic!("expected an empty result"),
    }
    assert!(matches!(
        query_online_step(&list, false, &OnlineReply::Other, 100, 3000),
        QueryStep::Retry
    ));
    assert!(matches!(
        query_online_step(&list, false, &OnlineReply::Closed, 3001, 3000),
        QueryStep::GiveUp
    ));
    assert!(matches!(
        query_online_step(&list, false, &OnlineReply::States(vec![]), 10, 3000),
        QueryStep::Retry
    ));
    match query_online_step(&list, false, &OnlineReply::States(vec![0x80]), 10, 3000) {
        QueryStep::Done(on, off) => {
            assert_eq!(on, list);
            assert!(off.is_empty());
        }
        _ => panic!("expected a result"),
    }
}

#[test]
fn identical_latencies_publish_the_raw_value() {
    let mut t = LatencyTracker::new();
    assert_eq!(t.on_measurement(5000), Some(5000));
    for _ in 0..200 {
        assert_eq!(t.on_measurement(5000), None);
    }
    assert_eq!(t.published, 5000);
    let mut t = LatencyTracker::new();
    assert_eq!(t.on_measurement(31), Some(31));
    for _ in 0..50 {
        t.on_measurement(31);
    }
    assert_eq!(t.published, 31);
}

#[test]
fn out_of_range_latency_is_ignored() {
    let mut t = LatencyTracker::new();
    assert_eq!(t.on_measurement(0), None);
    assert_eq!(t.on_measurement(1_000_001), None);
    assert_eq!((t.ema, t.published), (0, 0));
    assert_eq!(t.on_measurement(1_000_000), Some(1_000_000));
}

#[test]
fn deadband_decides_publication() {
    let mut t = LatencyTracker { ema: 100_000, published: 100_000 };
    assert_eq!(t.on_measurement(1_000_000), Some(129_999));
    assert_eq!(t.ema, 129_999);
    let mut t = LatencyTracker { ema: 100_000, published: 100_000 };
    // 200_000 / 30 + 100_000 * 29 / 30 = 6_666 + 96_666
    assert_eq!(t.on_measurement(200_000), None);
    assert_eq!(t.ema, 103_332);
    assert_eq!(t.published, 100_000);
    let mut t = LatencyTracker { ema: 10_000, published: 10_000 };
    // 100_000 / 30 + 10_000 * 29 / 30 = 3_333 + 9_666 = 12_999: moved by 2_999 < 3_000
    assert_eq!(t.on_measurement(100_000), None);
    let mut t = LatencyTracker { ema: 10_000, published: 10_000 };
    // 101_000 / 30 + 9_666 = 3_366 + 9_666 = 13_032: moved by 3_032 > 3_000
    assert_eq!(t.on_measurement(101_000), Some(13_032));
}

#[test]
fn failure_ladder_and_backoff() {
    let mut r = UdpRegistration::new(0);
    let a = r.on_tick(SEC, false, true);
    assert!(a.send_register && a.publish.is_none());
    // no answer: timeouts at 3 s, then 6 s, 9 s, 12 s after each send
    let a = r.on_tick(4 * SEC, false, true);
    assert!(a.send_register);
    assert_eq!((r.fails, r.reg_timeout, a.publish), (1, 6000, None));
    let a = r.on_tick(10 * SEC, false, true);
    assert_eq!((r.fails, r.reg_timeout, a.publish), (2, 9000, Some(0)));
    let a = r.on_tick(19 * SEC, false, true);
    assert_eq!((r.fails, r.reg_timeout, a.publish), (3, 12000, Some(0)));
    let a = r.on_tick(31 * SEC, false, true);
    assert_eq!((r.fails, r.reg_timeout, a.publish), (4, 15000, Some(-1)));
    assert!(!a.refresh_dns);
    let a = r.on_tick(46 * SEC, false, true);
    assert_eq!(a.publish, Some(-1));
    assert!(!a.refresh_dns);
    let mut now = 46 * SEC;
    for _ in 0..20 {
        now += 40 * SEC;
        let a = r.on_tick(now, false, true);
        assert!(a.send_register);
        assert!(r.reg_timeout <= 30_000 && r.reg_timeout >= 3_000);
    }
    assert_eq!(r.reg_timeout, 30_000);
    let a = r.on_tick(now + 40 * SEC, false, true);
    assert!(a.refresh_dns);
    assert_eq!(r.last_dns_check, now + 40 * SEC);
}

#[test]
fn backoff_can_be_disabled() {
    let mut r = UdpRegistration::new(0);
    r.on_tick(0, false, false);
    r.on_tick(3 * SEC, false, false);
    r.on_tick(6 * SEC, false, false);
    assert_eq!(r.reg_timeout, 3000);
    assert_eq!(r.fails, 2);
}

#[test]
fn register_answer_resets_ladder_and_measures() {
    let mut r = UdpRegistration::new(0);
    r.on_tick(SEC, false, true);
    r.on_tick(4 * SEC, false, true);
    r.on_tick(10 * SEC, false, true);
    assert_eq!(r.fails, 2);
    let p = r.on_register_response(10 * SEC + 5000);
    assert_eq!(p, Some(5000));
    assert_eq!((r.fails, r.reg_timeout), (0, 3000));
    assert!(r.last_register_sent.is_none());
    // answer while nothing is in flight: no measurement
    assert_eq!(r.on_register_response(11 * SEC), None);
    // nothing due until the registration interval has passed
    let a = r.on_tick(12 * SEC, false, true);
    assert!(!a.send_register);
    let a = r.on_tick(23 * SEC, false, true);
    assert!(a.send_register);
}

#[test]
fn should_exit_ends_both_loops() {
    let mut flags = ControlFlags::new();
    flags.host_exited();
    assert!(flags.should_exit);
    let mut r = UdpRegistration::new(0);
    let a = r.on_tick(SEC, flags.should_exit, true);
    assert!(a.exit && !a.send_register);
    let mut t = TcpRegistration::new(0);
    assert!(t.on_tick(SEC, flags.should_exit, 60_000, false, false) == TcpTick::Exit);
}

#[test]
fn tcp_heartbeat_is_not_dispatched() {
    let mut t = TcpRegistration::new(0);
    assert!(t.on_data(&[], 5 * SEC) == TcpInbound::Heartbeat);
    assert_eq!(t.last_recv, 5 * SEC);
    assert!(t.on_data(&[1, 2], 6 * SEC) == TcpInbound::Message);
}

#[test]
fn tcp_tick_keepalive_and_registration() {
    let mut t = TcpRegistration::new(0);
    assert!(t.on_tick(SEC, false, 60_000, false, true) == TcpTick::RegisterPk);
    assert_eq!(t.last_register_sent, Some(SEC));
    assert!(t.on_tick(2 * SEC, false, 60_000, false, true) == TcpTick::Idle);
    assert!(t.on_tick(13 * SEC, false, 60_000, false, true) == TcpTick::RegisterPk);
    assert!(t.on_tick(26 * SEC, false, 60_000, true, true) == TcpTick::Idle);
    assert!(t.on_tick(90 * SEC, false, 60_000, true, true) == TcpTick::Idle);
    assert!(t.on_tick(91 * SEC, false, 60_000, true, true) == TcpTick::Dead);
}

#[test]
fn mismatch_guard_single_flight() {
    let mut g = PkMismatchGuard::new();
    let a = "a.example.com:21116".to_string();
    let b = "b.example.com:21116".to_string();
    assert!(g.try_acquire(&a));
    assert!(!g.try_acquire(&b));
    assert!(g.try_acquire(&a));
    assert_eq!(g.solver, a);
    g.clear();
    assert!(g.try_acquire(&b));
}

#[test]
fn configure_update_restarts_only_on_change() {
    let mut flags = ControlFlags::new();
    let cur = ids(&["s1", "s2"]);
    assert!(!handle_configure_update(&mut flags, &cur, &ids(&["s1", "s2"])));
    assert!(!flags.should_exit && !flags.manual_restarted);
    assert!(handle_configure_update(&mut flags, &cur, &ids(&["s1"])));
    assert!(flags.should_exit && flags.manual_restarted);
    let mut g = PkMismatchGuard::new();
    g.try_acquire(&"x".to_string());
    begin_cycle(&mut flags, &mut g);
    assert!(!flags.should_exit && !flags.manual_restarted);
    assert!(g.solver.is_empty());
}

#[test]
fn host_prefix_cases() {
    assert_eq!(get_host_prefix("rs-ny.rustdesk.com"), "rs-ny");
    assert_eq!(get_host_prefix("192.168.1.2"), "192.168.1.2");
    assert_eq!(get_host_prefix("localhost:21116"), "localhost:21116");
    assert_eq!(get_host_prefix(""), "");
}

#[test]
fn number_parsing_matches_std() {
    for s in ["0", "-0", "+7", "2147483647", "-2147483648", "2147483648", "", "-", "+", "1a", "007", "99999999999999"] {
        assert_eq!(parse_i32(s), s.parse::<i32>().ok(), "{}", s);
    }
    for s in ["0", "-0", "+7", "65535", "65536", "", "x", "21116"] {
        assert_eq!(parse_u16(s), s.parse::<u16>().ok(), "{}", s);
    }
}

#[test]
fn port_arithmetic() {
    assert_eq!(increase_port("example.com:21116", 1), "example.com:21117");
    assert_eq!(increase_port("example.com", 1), "example.com");
    assert_eq!(increase_port("example.com:0", 1), "example.com:0");
    assert_eq!(check_port("example.com", 21116), "example.com:21116");
    assert_eq!(check_port("example.com:9", 21116), "example.com:9");
    assert_eq!(online_server_addr("example.com:21116").unwrap(), "example.com:21115");
    assert!(online_server_addr("example.com:0").is_none());
    assert!(online_server_addr("example.com").is_none());
    assert!(online_server_addr("a:1:2").is_none());
    assert_eq!(get_direct_port(""), 21118);
    assert_eq!(get_direct_port("3000"), 3000);
    assert_eq!(get_direct_port("-5"), 21118);
}

#[test]
fn relay_server_choice() {
    let m = RendezvousMediator::new("example.com:21116", true);
    assert_eq!(m.get_relay_server("relay.local:1", "given:2".to_string()), "relay.local:1");
    assert_eq!(m.get_relay_server("", "given:2".to_string()), "given:2");
    assert_eq!(m.get_relay_server("", String::new()), "example.com:21117");
}

#[test]
fn punch_hole_plans() {
    let m = RendezvousMediator::new("example.com:21116", true);
    match m.handle_punch_hole(vec![1, 2, 3], NAT_SYMMETRIC, NAT_ASYMMETRIC, "", String::new()) {
        TraversalPlan::Relay(q) => {
            assert_eq!(q.socket_addr, vec![1, 2, 3]);
            assert_eq!(q.relay_server, "example.com:21117");
            assert_eq!(q.uuid.len(), 36);
            assert!(q.secure && q.initiate);
        }
        _ => panic!("expected relay"),
    }
    match m.handle_punch_hole(vec![1], NAT_ASYMMETRIC, NAT_ASYMMETRIC, "", "r:1".to_string()) {
        TraversalPlan::Direct { relay_server } => assert_eq!(relay_server, "r:1"),
        _ => panic!("expected direct"),
    }
    let v6 = RendezvousMediator::new("example.com:21116", false);
    assert!(matches!(v6.handle_intranet(vec![1], "", String::new()), TraversalPlan::Relay(_)));
    assert!(matches!(m.handle_intranet(vec![1], "", String::new()), TraversalPlan::Direct { .. }));
    assert_eq!(nat_type_of(2), 2);
    assert_eq!(nat_type_of(7), 0);
}

#[test]
fn relay_response_fields() {
    let req = RelayRequest {
        socket_addr: vec![9, 9],
        relay_server: "r:1".to_string(),
        uuid: "u".to_string(),
        secure: true,
        initiate: true,
    };
    let r = create_relay(&req, "1.4", "me");
    assert_eq!((r.uuid.as_str(), r.relay_server.as_str(), r.id.as_str()), ("u", "r:1", "me"));
    let req = RelayRequest { initiate: false, ..req };
    let r = create_relay(&req, "1.4", "me");
    assert_eq!(r.socket_addr, vec![9, 9]);
    assert_eq!(r.version, "1.4");
    assert!(r.uuid.is_empty() && r.relay_server.is_empty() && r.id.is_empty());
}

#[test]
fn dispatch_reactions() {
    let mut m = RendezvousMediator::new("a.example.com:21116", true);
    let mut g = PkMismatchGuard::new();
    let mut f = ControlFlags::new();
    let cur = ids(&["a.example.com"]);
    let r = m.handle_resp(Inbound::RegisterPeerResponse { request_pk: true }, &mut g, &mut f, &cur);
    assert!(matches!(r, Reaction::Registered { request_pk: true }));
    let r = m.handle_resp(
        Inbound::RegisterPkResponse { result: PkResult::UuidMismatch, keep_alive: 30 },
        &mut g,
        &mut f,
        &cur,
    );
    assert!(matches!(r, Reaction::PkRecover));
    assert_eq!(m.keep_alive, 30_000);
    assert_eq!(g.solver, "a.example.com:21116");
    let mut other = RendezvousMediator::new("b.example.com:21116", true);
    let r = other.handle_resp(
        Inbound::RegisterPkResponse { result: PkResult::UuidMismatch, keep_alive: 0 },
        &mut g,
        &mut f,
        &cur,
    );
    assert!(matches!(r, Reaction::PkSkip));
    assert_eq!(other.keep_alive, 60_000);
    assert!(other.register_peer(&g, true, true) == Registration::Skip);
    let r = m.handle_resp(
        Inbound::RegisterPkResponse { result: PkResult::Accepted, keep_alive: 0 },
        &mut g,
        &mut f,
        &cur,
    );
    assert!(matches!(r, Reaction::PkConfirmed));
    assert!(g.solver.is_empty());
    assert!(other.register_peer(&g, true, false) == Registration::Pk);
    assert!(other.register_peer(&g, true, true) == Registration::Peer);
    let r = m.handle_resp(
        Inbound::ConfigureUpdate { rendezvous_servers: ids(&["a.example.com"]), serial: 3 },
        &mut g,
        &mut f,
        &cur,
    );
    assert!(matches!(r, Reaction::ServersUpdated { restart: false, serial: 3, .. }));
    assert!(!f.should_exit);
    let r = m.handle_resp(
        Inbound::ConfigureUpdate { rendezvous_servers: ids(&["c.example.com"]), serial: 4 },
        &mut g,
        &mut f,
        &cur,
    );
    assert!(matches!(r, Reaction::ServersUpdated { restart: true, .. }));
    assert!(f.should_exit && f.manual_restarted);
    let r = m.handle_resp(
        Inbound::RequestRelay {
            socket_addr: vec![1],
            relay_server: "r:1".to_string(),
            uuid: "u".to_string(),
            secure: false,
        },
        &mut g,
        &mut f,
        &cur,
    );
    match r {
        Reaction::RequestRelay(q) => assert!(!q.initiate && q.uuid == "u"),
        _ => panic!("expected relay request"),
    }
    assert!(matches!(m.handle_resp(Inbound::Other, &mut g, &mut f, &cur), Reaction::Ignored));
}

#[test]
fn cycle_cooldown() {
    assert_eq!(cycle_cooldown_secs(2_000, false), 16);
    assert_eq!(cycle_cooldown_secs(17_500, false), 1);
    assert_eq!(cycle_cooldown_secs(2_001, false), 16);
    assert_eq!(cycle_cooldown_secs(1_999, false), 17);
    assert_eq!(cycle_cooldown_secs(0, false), 18);
    assert_eq!(cycle_cooldown_secs(18_000, false), 0);
    assert_eq!(cycle_cooldown_secs(2_000, true), 0);
    assert_eq!(cycle_cooldown_secs(20_000, false), 0);
}

#[test]
fn direct_server_steps() {
    assert!(direct_server_step(false, 0, false, 21118) == DirectStep::Listen(21118));
    assert!(direct_server_step(false, 0, true, 21118) == DirectStep::Idle);
    assert!(direct_server_step(true, 21118, false, 21118) == DirectStep::Accept);
    assert!(direct_server_step(true, 21118, false, 3000) == DirectStep::Close);
    assert!(direct_server_step(true, 21118, true, 21118) == DirectStep::Close);
}

#[test]
fn cameras_and_displays() {
    assert!(primary_camera_exists(Some(1)));
    assert!(!primary_camera_exists(Some(0)));
    assert!(!primary_camera_exists(None));
    assert!(Cameras::camera_exists(2, Some(3)));
    assert!(!Cameras::camera_exists(3, Some(3)));
    let c = Cameras::get_capturer(4).ok().unwrap();
    assert_eq!(c.index, 4);
    assert!(c.data.is_empty());
    assert!(Cameras::get_capturer(usize::MAX).err() == Some(CameraError::IndexOutOfRange));
    let mut n: usize = 0;
    assert_eq!(increment_active_display_count(&mut n), 1);
    assert_eq!(decrement_active_display_count(&mut n), 0);
    assert_eq!(decrement_active_display_count(&mut n), 0);
    let mut logs: u32 = 0;
    assert!(try_log(&mut logs));
    assert!(!try_log(&mut logs));
    let mut logs: u32 = 1_000_000;
    assert!(!try_log(&mut logs));
    assert_eq!(logs, 1_000_000);
    let rects = vec![
        DisplayRect { x: 0, y: 0, width: 1920, height: 1080 },
        DisplayRect { x: 1920, y: -200, width: 1280, height: 1024 },
    ];
    assert_eq!(calculate_max_resolution_from_displays(&rects), (3200, 1080));
    assert_eq!(calculate_max_resolution_from_displays(&vec![]), (0, 0));
}

#[test]
fn desktop_resolution_from_report() {
    assert_eq!(parse_resolution_line("3840 x 2160,"), Some((3840, 2160)));
    assert_eq!(parse_resolution_line("1920 x 1080,,"), Some((1920, 1080)));
    assert_eq!(parse_resolution_line("1920"), Some((1920, 0)));
    assert_eq!(parse_resolution_line("abc x 2"), None);
    let rects = vec![DisplayRect { x: 0, y: 0, width: 800, height: 600 }];
    assert_eq!(get_max_desktop_resolution(Some("3840 x 2160,"), &rects), (3840, 2160));
    assert_eq!(get_max_desktop_resolution(Some(""), &rects), (800, 600));
    assert_eq!(get_max_desktop_resolution(Some("bad"), &rects), (800, 600));
    assert_eq!(get_max_desktop_resolution(None, &rects), (800, 600));
}

#[test]
fn scrap_errors_are_classified() {
    let mut n: u32 = 0;
    let r = map_err_scrap("Did not receive a reply from portal", false, "", &mut n);
    assert!(r.0 == ScrapError::Fatal && !r.1);
    assert_eq!(n, 0);
    let r = map_err_scrap("x", true, "20.04", &mut n);
    assert!(r.0 == ScrapError::UbuntuHigherRequired && !r.1);
    assert_eq!(n, 0);
    let r = map_err_scrap("x", true, "22.04", &mut n);
    assert!(r.0 == ScrapError::Failed && r.1);
    assert_eq!(n, 1);
    let r = map_err_scrap("no pipewire stream", false, "", &mut n);
    assert!(r.0 == ScrapError::OtherVersionOrX11Required && !r.1);
    let r = map_err_scrap("dbus call failed", false, "", &mut n);
    assert!(r.0 == ScrapError::OtherVersionOrX11Required);
    let r = map_err_scrap("something else", false, "", &mut n);
    assert!(r.0 == ScrapError::X11Required);
    assert_eq!(n, 4);
}

#[test]
fn tcp_latency_measures_since_last_registration() {
    let mut t = TcpRegistration::new(0);
    assert_eq!(t.on_register_response(SEC), 0);
    assert!(t.on_tick(SEC, false, 60_000, false, false) == TcpTick::RegisterPk);
    assert_eq!(t.on_register_response(SEC + 4_200), 4_200);
}

#[test]
fn camera_layout() {
    let cams = vec![
        CameraInfo { name: "front".to_string(), width: 1280, height: 720 },
        CameraInfo { name: "back".to_string(), width: 640, height: 480 },
    ];
    let v = Cameras::all_info(&cams, false).ok().unwrap();
    assert_eq!(v.len(), 2);
    assert_eq!((v[0].x, v[1].x, v[1].y), (0, 1280, 0));
    assert_eq!(v[1].name, "back");
    assert_eq!(v[1].original_resolution, (640, 480));
    assert!(v[0].online && !v[0].cursor_embedded);
    let v = Cameras::all_info(&cams, true).ok().unwrap();
    assert_eq!(v.len(), 1);
    assert_eq!(v[0].name, "front");
    assert!(Cameras::all_info(&vec![], true).err() == Some(CameraError::NoCamera));
    assert!(Cameras::all_info(&vec![], false).ok().unwrap().is_empty());
}

#[test]
fn capture_sessions_by_display() {
    let mut s = DisplaySessions::new();
    let prompt = is_inited(false, &s).unwrap();
    assert_eq!(prompt.title, "Wayland");
    assert_eq!(prompt.msgtype, "nook-nocancel-hasclose");
    assert!(is_inited(true, &s).is_none());
    assert!(s.get_primary().err() == Some(DisplayError::NoSession));
    let rects = vec![
        DisplayRect { x: 0, y: 0, width: 1920, height: 1080 },
        DisplayRect { x: 1920, y: 0, width: 1280, height: 1024 },
    ];
    s.open_all(&rects, 1);
    assert!(is_inited(false, &s).is_none());
    assert_eq!(s.get_primary().ok(), Some(1));
    let c = s.get_capturer_for_display(false, 1).ok().unwrap();
    assert_eq!((c.origin, c.width, c.height, c.ndisplay, c.current), ((1920, 0), 1280, 1024, 2, 1));
    assert!(s.get_capturer_for_display(false, 2).err() == Some(DisplayError::NoSuchDisplay));
    assert!(s.get_capturer_for_display(true, 0).err() == Some(DisplayError::NotWayland));
    s.clear(true);
    assert_eq!(s.sessions.len(), 2);
    s.clear(false);
    assert!(s.sessions.is_empty());
}

#[test]
fn only_registration_answers_feed_latency() {
    assert!(feeds_latency(&Inbound::RegisterPeerResponse { request_pk: false }));
    assert!(feeds_latency(&Inbound::RegisterPkResponse { result: PkResult::Other, keep_alive: 0 }));
    assert!(!feeds_latency(&Inbound::FetchLocalAddr { socket_addr: vec![], relay_server: String::new() }));
    assert!(!feeds_latency(&Inbound::Other));
}
