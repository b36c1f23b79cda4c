use whep_core::annexb::next_access_unit;
use whep_core::http::{
    delete_response, not_found_response, post_response, preflight_response, route, CorsRequest,
    Method, RouteAction, SessionError,
};
use whep_core::oggpage::parse_page;
use whep_core::playout::{audio_plan, page_duration_ms, video_plan};
use whep_core::registry::SessionRegistry;
use whep_core::sched::{scheduler_step, SchedulerAction, SchedulerEvent, SchedulerState};
use whep_core::session::{
    new_session, on_transport_event, IceConnectionState, PeerConnectionState, SessionNegotiation,
    TransportEvent,
};
use whep_core::signal::{ReadinessBarrier, TerminationSignal};

fn ogg_page(granule: u64, payload: &[u8]) -> Vec<u8> {
    assert!(payload.len() <= 255);
    let mut page = vec![b'O', b'g', b'g', b'S', 0, 0];
    page.extend_from_slice(&granule.to_le_bytes());
    page.extend_from_slice(&[0u8; 12]); // serial, sequence, checksum
    page.push(1); // one segment
    page.push(payload.len() as u8);
    page.extend_from_slice(payload);
    page
}

#[test]
fn barrier_single_fire() {
    let mut b = ReadinessBarrier::new();
    assert!(!b.may_proceed());
    b.release();
    assert!(b.may_proceed());
    b.release(); // repeated trigger is a no-op
    assert!(b.may_proceed());
}

#[test]
fn barrier_released_once_for_repeated_ice_connected() {
    let mut session = new_session();
    for _ in 0..3 {
        on_transport_event(
            &mut session.barrier,
            &mut session.signal,
            TransportEvent::Ice(IceConnectionState::Connected),
        );
        assert!(session.barrier.may_proceed());
    }
    // the repeated ICE-Connected reports never raised the termination signal
    assert!(!session.signal.drain());
}

#[test]
fn audio_durations_at_48khz() {
    // container pages with timestamp counters 0, 960, 1920; the first page is
    // the stream header consumed at demuxer construction
    let mut data = ogg_page(0, &[1, 2, 3]);
    data.extend_from_slice(&ogg_page(960, &[4, 5]));
    data.extend_from_slice(&ogg_page(1920, &[6]));
    let plan = audio_plan(&data, 48000);
    assert_eq!(plan.len(), 2);
    assert_eq!(plan[0].duration_ms, 20);
    assert_eq!(plan[1].duration_ms, 20);
    assert_eq!(plan[0].payload, vec![4, 5]);
    assert_eq!(plan[1].payload, vec![6]);
}

#[test]
fn page_duration_formula() {
    assert_eq!(page_duration_ms(0, 960, 48000), 20);
    assert_eq!(page_duration_ms(960, 1920, 48000), 20);
    assert_eq!(page_duration_ms(0, 48000, 48000), 1000);
    assert_eq!(page_duration_ms(100, 100, 48000), 0);
}

#[test]
fn truncated_video_terminates_and_signals_once() {
    // a corrupt stream: one unit, then a truncated start code
    let data = vec![0, 0, 1, 0x65, 9, 9, 0, 0];
    let plan = video_plan(&data, 41);
    assert_eq!(plan.len(), 1);

    // drive the scheduler over the plan; it finishes exactly once
    let mut state = SchedulerState::Waiting;
    let mut signal = TerminationSignal::new();
    let (s, a) = scheduler_step(state, SchedulerEvent::Released, plan.len());
    state = s;
    assert_eq!(a, SchedulerAction::Idle);
    let mut finishes = 0;
    for _ in 0..4 {
        let (s, a) = scheduler_step(state, SchedulerEvent::Tick, plan.len());
        state = s;
        if a == SchedulerAction::Finish {
            finishes += 1;
            signal.raise();
        }
    }
    assert_eq!(finishes, 1);
    assert_eq!(state, SchedulerState::Done);
    assert!(signal.drain());
    assert!(!signal.drain());
}

#[test]
fn garbage_video_gives_empty_plan() {
    let data = vec![7, 7, 7, 7, 7, 7];
    assert!(video_plan(&data, 41).is_empty());
    assert!(video_plan(&Vec::new(), 41).is_empty());
}

#[test]
fn video_units_split_on_start_codes() {
    let data = vec![0, 0, 1, 0x65, 1, 2, 0, 0, 1, 0x41, 3];
    let plan = video_plan(&data, 41);
    assert_eq!(plan.len(), 2);
    assert_eq!(plan[0].payload, vec![0x65, 1, 2]);
    assert_eq!(plan[0].duration_ms, 41);
    assert_eq!(plan[1].payload, vec![0x41, 3]);
}

#[test]
fn four_byte_start_code_zero_is_trimmed() {
    let data = vec![0, 0, 0, 1, 9, 9, 0, 0, 0, 1, 8];
    let plan = video_plan(&data, 41);
    assert_eq!(plan.len(), 2);
    assert_eq!(plan[0].payload, vec![9, 9]);
    assert_eq!(plan[1].payload, vec![8]);
}

#[test]
fn corrupt_audio_ends_plan_early() {
    let mut data = ogg_page(0, &[1]);
    data.extend_from_slice(&ogg_page(960, &[2]));
    // a counter running backwards is malformed and ends the plan
    data.extend_from_slice(&ogg_page(100, &[3]));
    data.extend_from_slice(&ogg_page(2000, &[4]));
    let plan = audio_plan(&data, 48000);
    assert_eq!(plan.len(), 1);
    assert_eq!(plan[0].payload, vec![2]);

    // truncated container: header page only
    let only_header = ogg_page(0, &[1]);
    assert!(audio_plan(&only_header, 48000).is_empty());
    assert!(audio_plan(&Vec::new(), 48000).is_empty());
}

#[test]
fn concurrent_terminations_leave_one_notification() {
    let mut signal = TerminationSignal::new();
    // playout end-of-stream racing a transport failure: both raise
    signal.raise();
    on_transport_event(
        &mut ReadinessBarrier::new(),
        &mut signal,
        TransportEvent::Peer(PeerConnectionState::Failed),
    );
    // exactly one notification is observable
    assert!(signal.drain());
    assert!(!signal.drain());
}

#[test]
fn preflight_reflects_requested_method_and_headers() {
    let cors = CorsRequest {
        origin: Some("https://example.com".to_owned()),
        request_method: Some("DELETE".to_owned()),
        request_headers: Some("X-Test".to_owned()),
    };
    let r = preflight_response(cors);
    assert_eq!(r.status, 204);
    assert_eq!(r.allow_methods.as_deref(), Some("DELETE"));
    assert_eq!(r.allow_headers.as_deref(), Some("X-Test"));
    assert_eq!(r.allow_origin.as_deref(), Some("https://example.com"));
    assert!(r.allow_credentials);
    assert!(r.body.is_none());
}

#[test]
fn preflight_without_cors_headers_reflects_nothing() {
    let cors = CorsRequest { origin: None, request_method: None, request_headers: None };
    let r = preflight_response(cors);
    assert_eq!(r.status, 204);
    assert!(r.allow_methods.is_none());
    assert!(r.allow_headers.is_none());
    assert!(r.allow_origin.is_none());
    assert!(!r.allow_credentials);
}

#[test]
fn post_success_returns_created_sdp() {
    let answer = "v=0\r\nm=video 9 UDP/TLS/RTP/SAVPF 96\r\nm=audio 9 UDP/TLS/RTP/SAVPF 111\r\n";
    let cors = CorsRequest {
        origin: Some("https://example.com".to_owned()),
        request_method: None,
        request_headers: None,
    };
    let r = post_response(cors, Ok(answer.to_owned()));
    assert_eq!(r.status, 201);
    assert!(r.content_type_sdp);
    let body = r.body.expect("answer body");
    assert!(!body.is_empty());
    // one m= line per track
    assert_eq!(body.matches("m=").count(), 2);
    assert_eq!(r.allow_origin.as_deref(), Some("https://example.com"));
    assert!(r.allow_credentials);
}

#[test]
fn post_failure_is_a_server_error_not_a_crash() {
    let cors = CorsRequest { origin: None, request_method: None, request_headers: None };
    let r = post_response(cors, Err(SessionError::NoLocalDescription));
    assert_eq!(r.status, 500);
    assert!(!r.content_type_sdp);
    assert_eq!(r.body.as_deref(), Some("no local description after gathering"));
}

#[test]
fn rejected_offer_is_a_client_error() {
    let cors = CorsRequest { origin: None, request_method: None, request_headers: None };
    let r = post_response(cors, Err(SessionError::OfferRejected));
    assert_eq!(r.status, 400);
    assert_eq!(r.body.as_deref(), Some("offer rejected as remote description"));
}

#[test]
fn error_messages_name_each_failure() {
    assert_eq!(
        SessionError::OfferRejected.message(),
        "offer rejected as remote description"
    );
    assert_eq!(SessionError::AnswerFailed.message(), "answer generation failed");
    assert_eq!(
        SessionError::NoLocalDescription.message(),
        "no local description after gathering"
    );
    assert_eq!(
        SessionError::AlreadyNegotiated.message(),
        "session already negotiated"
    );
}

#[test]
fn routing_by_method() {
    assert_eq!(route(Method::Post), RouteAction::CreateSession);
    assert_eq!(route(Method::Delete), RouteAction::DeleteSession);
    assert_eq!(route(Method::Options), RouteAction::Preflight);
    assert_eq!(route(Method::Other), RouteAction::NotFound);
}

#[test]
fn not_found_keeps_cors_reflection() {
    let cors = CorsRequest {
        origin: Some("http://localhost:3000".to_owned()),
        request_method: None,
        request_headers: None,
    };
    let r = not_found_response(cors);
    assert_eq!(r.status, 404);
    assert_eq!(r.allow_origin.as_deref(), Some("http://localhost:3000"));
    assert!(r.allow_credentials);
}

#[test]
fn double_delete_returns_not_found() {
    let mut reg = SessionRegistry::new();
    let path = b"/session1".to_vec();
    assert!(reg.insert(path.clone(), 7));
    let first = reg.remove(&path);
    assert_eq!(first, Some(7));
    let second = reg.remove(&path);
    assert_eq!(second, None);
    let r = delete_response(
        CorsRequest { origin: None, request_method: None, request_headers: None },
        second.is_some(),
    );
    assert_eq!(r.status, 404);
}

#[test]
fn registry_rejects_create_on_occupied_path() {
    let mut reg = SessionRegistry::new();
    let path = b"/session1".to_vec();
    assert!(reg.insert(path.clone(), 1));
    assert!(!reg.insert(path.clone(), 2));
    assert!(reg.contains(&path));
    assert!(!reg.contains(&b"/session2".to_vec()));
    assert_eq!(reg.remove(&path), Some(1));
}

#[test]
fn negotiation_is_single_exchange() {
    let mut neg = SessionNegotiation::new();
    assert!(neg.begin_exchange().is_ok());
    assert_eq!(neg.begin_exchange(), Err(SessionError::AlreadyNegotiated));
    let answer = neg.finalize(Some("v=0".to_owned()));
    assert_eq!(answer, Ok("v=0".to_owned()));
    assert_eq!(
        neg.finalize(Some("v=0".to_owned())),
        Err(SessionError::AlreadyNegotiated)
    );
}

#[test]
fn negotiation_without_local_description_fails() {
    let mut neg = SessionNegotiation::new();
    assert!(neg.begin_exchange().is_ok());
    assert_eq!(neg.finalize(None), Err(SessionError::NoLocalDescription));
}

#[test]
fn transport_failure_raises_termination() {
    let mut session = new_session();
    on_transport_event(
        &mut session.barrier,
        &mut session.signal,
        TransportEvent::Peer(PeerConnectionState::Failed),
    );
    assert!(!session.barrier.may_proceed());
    assert!(session.signal.drain());
}

#[test]
fn other_transport_events_change_nothing() {
    let mut session = new_session();
    on_transport_event(
        &mut session.barrier,
        &mut session.signal,
        TransportEvent::Ice(IceConnectionState::Checking),
    );
    on_transport_event(
        &mut session.barrier,
        &mut session.signal,
        TransportEvent::Peer(PeerConnectionState::Connected),
    );
    assert!(!session.barrier.may_proceed());
    assert!(!session.signal.drain());
}

#[test]
fn scheduler_waits_until_release() {
    let (s, a) = scheduler_step(SchedulerState::Waiting, SchedulerEvent::Tick, 3);
    assert_eq!(s, SchedulerState::Waiting);
    assert_eq!(a, SchedulerAction::Idle);
    let (s, a) = scheduler_step(SchedulerState::Waiting, SchedulerEvent::Released, 3);
    assert_eq!(s, SchedulerState::Streaming { next: 0 });
    assert_eq!(a, SchedulerAction::Idle);
    // a second release is not observed again
    let (s2, a) = scheduler_step(s, SchedulerEvent::Released, 3);
    assert_eq!(s2, s);
    assert_eq!(a, SchedulerAction::Idle);
}

#[test]
fn scheduler_emits_each_unit_then_finishes() {
    let mut state = SchedulerState::Streaming { next: 0 };
    let mut emitted = Vec::new();
    loop {
        let (s, a) = scheduler_step(state, SchedulerEvent::Tick, 2);
        state = s;
        match a {
            SchedulerAction::Emit { unit } => emitted.push(unit),
            SchedulerAction::Finish => break,
            SchedulerAction::Idle => panic!("streaming scheduler idled on a tick"),
        }
    }
    assert_eq!(emitted, vec![0, 1]);
    assert_eq!(state, SchedulerState::Done);
    // done is absorbing: no further finish
    let (s, a) = scheduler_step(state, SchedulerEvent::Tick, 2);
    assert_eq!(s, SchedulerState::Done);
    assert_eq!(a, SchedulerAction::Idle);
}

#[test]
fn parse_page_rejects_bad_capture_pattern() {
    let mut bad = ogg_page(960, &[1, 2]);
    bad[0] = b'X';
    assert!(parse_page(&bad, 0).is_none());
    // truncated fixed header
    let good = ogg_page(960, &[1, 2]);
    assert!(parse_page(&good[..20].to_vec(), 0).is_none());
    // a whole page parses and the cursor lands at its end
    let (granule, payload, next) = parse_page(&good, 0).expect("well-formed page");
    assert_eq!(granule, 960);
    assert_eq!(payload, vec![1, 2]);
    assert_eq!(next, good.len());
}

#[test]
fn next_access_unit_walks_the_stream() {
    let data = vec![0, 0, 1, 0x67, 0, 0, 1, 0x68];
    let (unit, next) = next_access_unit(&data, 0).expect("first unit");
    assert_eq!(unit, vec![0x67]);
    assert_eq!(next, 4);
    let (unit, next) = next_access_unit(&data, next).expect("second unit");
    assert_eq!(unit, vec![0x68]);
    assert_eq!(next, data.len());
    assert!(next_access_unit(&data, next).is_none());
}

#[test]
fn granule_is_little_endian() {
    let data = ogg_page(0x01020304, &[42]);
    let mut full = ogg_page(0, &[]);
    full.extend_from_slice(&data);
    let plan = audio_plan(&full, 48000);
    // delta 0x01020304 at 48 kHz, in milliseconds
    assert_eq!(plan.len(), 1);
    assert_eq!(plan[0].duration_ms, 0x01020304u64 * 1000 / 48000);
    assert_eq!(plan[0].payload, vec![42]);
}
