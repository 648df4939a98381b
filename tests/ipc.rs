use stremio_shell::ipc::{create_response, IpcError, IpcEvent, IpcEventMpv};
use stremio_shell::router::{Dispatch, EventRouter};

fn s(v: &str) -> String {
    v.to_string()
}

#[test]
fn fullscreen_round_trip() {
    let text = create_response(&IpcEvent::Fullscreen(true));
    assert_eq!(text, r#"{"Fullscreen":true}"#);
    assert_eq!(IpcEvent::try_from(&text), Ok(IpcEvent::Fullscreen(true)));
    let off = create_response(&IpcEvent::Fullscreen(false));
    assert_eq!(IpcEvent::try_from(&off), Ok(IpcEvent::Fullscreen(false)));
}

#[test]
fn every_event_round_trips() {
    let events = vec![
        IpcEvent::Init,
        IpcEvent::Ready,
        IpcEvent::Quit,
        IpcEvent::Minimized(true),
        IpcEvent::Visibility(false),
        IpcEvent::OpenMedia(s("stremio://detail/movie/\"tt1\"\\x")),
        IpcEvent::Mpv(IpcEventMpv::Observe(s("time-pos"))),
        IpcEvent::Mpv(IpcEventMpv::Command((s("loadfile"), vec![s("a b.mkv"), s("replace")]))),
        IpcEvent::Mpv(IpcEventMpv::Command((s("stop"), vec![]))),
        IpcEvent::Mpv(IpcEventMpv::SetProperty((s("pause"), s("true")))),
        IpcEvent::Mpv(IpcEventMpv::Change((s("volume"), s("{\"a\":[1,2]}")))),
        IpcEvent::Mpv(IpcEventMpv::Ended(None)),
        IpcEvent::Mpv(IpcEventMpv::Ended(Some(s("eof")))),
    ];
    for e in events {
        let text = create_response(&e);
        assert_eq!(IpcEvent::try_from(&text), Ok(e));
    }
}

#[test]
fn encodes_the_wire_shapes() {
    assert_eq!(create_response(&IpcEvent::Init), r#"{"Init":null}"#);
    assert_eq!(
        create_response(&IpcEvent::OpenMedia(s("stremio://x"))),
        r#"{"OpenMedia":"stremio://x"}"#
    );
    assert_eq!(
        create_response(&IpcEvent::Mpv(IpcEventMpv::Change((s("pause"), s("false"))))),
        r#"{"Mpv":{"Change":["pause",false]}}"#
    );
    assert_eq!(
        create_response(&IpcEvent::Mpv(IpcEventMpv::Command((s("seek"), vec![s("10"), s("absolute")])))),
        r#"{"Mpv":{"Command":["seek",["10","absolute"]]}}"#
    );
    assert_eq!(
        create_response(&IpcEvent::Mpv(IpcEventMpv::Ended(None))),
        r#"{"Mpv":{"Ended":null}}"#
    );
}

#[test]
fn parses_messages_with_whitespace() {
    assert_eq!(
        IpcEvent::try_from(" { \"Mpv\" : { \"Set\" : [ \"volume\" , 55.5 ] } } "),
        Ok(IpcEvent::Mpv(IpcEventMpv::SetProperty((s("volume"), s("55.5")))))
    );
    assert_eq!(
        IpcEvent::try_from(r#"{"Mpv":{"Observe":"pause"}}"#),
        Ok(IpcEvent::Mpv(IpcEventMpv::Observe(s("pause"))))
    );
}

#[test]
fn malformed_messages_are_errors() {
    assert_eq!(IpcEvent::try_from("{not json"), Err(IpcError::Malformed));
    assert_eq!(IpcEvent::try_from(""), Err(IpcError::Malformed));
    assert_eq!(IpcEvent::try_from("\"Init\""), Err(IpcError::Malformed));
    assert_eq!(IpcEvent::try_from(r#"{"Init":null,"Quit":null}"#), Err(IpcError::Malformed));
    assert_eq!(IpcEvent::try_from(r#"{"Fullscreen":1}"#), Err(IpcError::Malformed));
    assert_eq!(IpcEvent::try_from(r#"{"Init":true}"#), Err(IpcError::Malformed));
    assert_eq!(IpcEvent::try_from(r#"{"OpenMedia":3}"#), Err(IpcError::Malformed));
    assert_eq!(
        IpcEvent::try_from(r#"{"Mpv":{"Command":["seek",[10]]}}"#),
        Err(IpcError::Malformed)
    );
    assert_eq!(IpcEvent::try_from(r#"{"Mpv":{"Set":["a"]}}"#), Err(IpcError::Malformed));
}

#[test]
fn unknown_tags_are_reported() {
    assert_eq!(IpcEvent::try_from(r#"{"Reload":null}"#), Err(IpcError::UnknownTag(s("Reload"))));
    assert_eq!(
        IpcEvent::try_from(r#"{"Mpv":{"Seek":1}}"#),
        Err(IpcError::UnknownTag(s("Seek")))
    );
}

#[test]
fn fullscreen_twice_gives_the_same_answer() {
    let mut router = EventRouter::new();
    let message = r#"{"Fullscreen":true}"#;
    let first = router.handle_message(message);
    assert!(router.fullscreen());
    let second = router.handle_message(message);
    assert!(router.fullscreen());
    assert_eq!(first, second);
    assert_eq!(
        first,
        Dispatch {
            fullscreen: Some(true),
            reply: Some(s(r#"{"Fullscreen":true}"#)),
            player: None,
            quit: false,
        }
    );
}

#[test]
fn malformed_message_is_dropped_and_next_is_handled() {
    let mut router = EventRouter::new();
    let d = router.handle_message("{not json");
    assert_eq!(d, Dispatch { fullscreen: None, reply: None, player: None, quit: false });
    assert!(!router.fullscreen());
    let d = router.handle_message(r#"{"Init":null}"#);
    assert_eq!(d.reply, Some(s(r#"{"Init":null}"#)));
    let d = router.handle_message(r#"{"Fullscreen":true}"#);
    assert_eq!(d.fullscreen, Some(true));
}

#[test]
fn router_answers_each_event() {
    let mut router = EventRouter::new();
    assert_eq!(router.handle_message(r#"{"Ready":null}"#).reply, None);
    assert_eq!(router.open_link(s("https://example.com")), None);
    let announced = router.open_link(s("stremio://detail/x"));
    assert_eq!(announced, Some(s(r#"{"OpenMedia":"stremio://detail/x"}"#)));
    assert_eq!(
        router.handle_message(r#"{"Ready":null}"#).reply,
        Some(s(r#"{"OpenMedia":"stremio://detail/x"}"#))
    );
    let d = router.handle_message(r#"{"Mpv":{"Observe":"pause"}}"#);
    assert_eq!(d.player, Some(IpcEventMpv::Observe(s("pause"))));
    assert_eq!(d.reply, None);
    let d = router.handle_message(r#"{"Mpv":{"Change":["pause",true]}}"#);
    assert_eq!(d.player, None);
    let d = router.handle_message(r#"{"Visibility":true}"#);
    assert_eq!(d, Dispatch { fullscreen: None, reply: None, player: None, quit: false });
    assert!(!router.quitting());
    let d = router.dispatch(IpcEvent::Quit);
    assert!(d.quit);
    assert!(router.quitting());
}
