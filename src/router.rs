//! Dispatch of the web UI's messages: what the host does for each event.
use vstd::prelude::*;
use crate::ipc::{
    create_response, decode_spec, encode_spec, EventMsg, IpcEvent, IpcEventMpv, MpvMsg,
};
use crate::text::starts_with;

verus! {

/// Scheme of the links that open media in this application.
pub const URI_SCHEME: &'static str = "stremio://";

/// What the host does in answer to one message.
#[derive(Debug, PartialEq, Eq)]
pub struct Dispatch {
    /// Switch native fullscreen to this state.
    pub fullscreen: Option<bool>,
    /// Message to post back to the page.
    pub reply: Option<String>,
    /// Request for the media engine.
    pub player: Option<IpcEventMpv>,
    /// Shut the application down.
    pub quit: bool,
}

pub struct DispatchView {
    pub fullscreen: Option<bool>,
    pub reply: Option<Seq<char>>,
    pub player: Option<MpvMsg>,
    pub quit: bool,
}

impl View for Dispatch {
    type V = DispatchView;

    open spec fn view(&self) -> DispatchView {
        DispatchView {
            fullscreen: self.fullscreen,
            reply: match self.reply {
                Some(r) => Some(r@),
                None => None,
            },
            player: match self.player {
                Some(p) => Some(p@),
                None => None,
            },
            quit: self.quit,
        }
    }
}

pub open spec fn quiet() -> DispatchView {
    DispatchView { fullscreen: None, reply: None, player: None, quit: false }
}

pub open spec fn reply_with(e: EventMsg) -> DispatchView {
    DispatchView { fullscreen: None, reply: Some(encode_spec(e)), player: None, quit: false }
}

/// State the router keeps between messages.
pub struct EventRouter {
    fullscreen: bool,
    deeplink: Option<String>,
    quitting: bool,
}

pub struct RouterView {
    pub fullscreen: bool,
    pub deeplink: Option<Seq<char>>,
    pub quitting: bool,
}

impl View for EventRouter {
    type V = RouterView;

    closed spec fn view(&self) -> RouterView {
        RouterView {
            fullscreen: self.fullscreen,
            deeplink: match self.deeplink {
                Some(d) => Some(d@),
                None => None,
            },
            quitting: self.quitting,
        }
    }
}

/// The router's answer to one event, and its next state.
pub open spec fn step(s: RouterView, e: EventMsg) -> (RouterView, DispatchView) {
    match e {
        EventMsg::Init => (s, reply_with(EventMsg::Init)),
        EventMsg::Ready => match s.deeplink {
            Some(u) => (s, reply_with(EventMsg::OpenMedia(u))),
            None => (s, quiet()),
        },
        EventMsg::Fullscreen(b) => (
            RouterView { fullscreen: b, ..s },
            DispatchView { fullscreen: Some(b), ..reply_with(EventMsg::Fullscreen(b)) },
        ),
        EventMsg::Quit => (RouterView { quitting: true, ..s }, DispatchView { quit: true, ..quiet() }),
        EventMsg::Mpv(m) => match m {
            MpvMsg::Observe(_) | MpvMsg::Command(_, _) | MpvMsg::SetProperty(_, _) => (
                s,
                DispatchView { player: Some(m), ..quiet() },
            ),
            _ => (s, quiet()),
        },
        _ => (s, quiet()),
    }
}

/// The router's answer to one message: malformed messages and unknown tags
/// are dropped.
pub open spec fn handle_spec(s: RouterView, message: Seq<char>) -> (RouterView, DispatchView) {
    match decode_spec(message) {
        Ok(e) => step(s, e),
        Err(_) => (s, quiet()),
    }
}

fn no_action() -> (r: Dispatch)
    ensures
        r@ == quiet(),
{
    Dispatch { fullscreen: None, reply: None, player: None, quit: false }
}

fn reply(e: &IpcEvent) -> (r: Dispatch)
    ensures
        r@ == reply_with(e@),
{
    Dispatch { fullscreen: None, reply: Some(create_response(e)), player: None, quit: false }
}

impl EventRouter {
    pub fn new() -> (r: EventRouter)
        ensures
            r@ == (RouterView { fullscreen: false, deeplink: None, quitting: false }),
    {
        EventRouter { fullscreen: false, deeplink: None, quitting: false }
    }

    pub fn fullscreen(&self) -> (r: bool)
        ensures
            r == self@.fullscreen,
    {
        self.fullscreen
    }

    pub fn quitting(&self) -> (r: bool)
        ensures
            r == self@.quitting,
    {
        self.quitting
    }

    /// Answers one decoded event.
    pub fn dispatch(&mut self, event: IpcEvent) -> (r: Dispatch)
        ensures
            (final(self)@, r@) == step(old(self)@, event@),
    {
        match event {
            IpcEvent::Init => reply(&IpcEvent::Init),
            IpcEvent::Ready => match &self.deeplink {
                Some(uri) => reply(&IpcEvent::OpenMedia(uri.clone())),
                None => no_action(),
            },
            IpcEvent::Fullscreen(state) => {
                self.fullscreen = state;
                let r = reply(&IpcEvent::Fullscreen(state));
                Dispatch { fullscreen: Some(state), ..r }
            },
            IpcEvent::Quit => {
                self.quitting = true;
                Dispatch { quit: true, ..no_action() }
            },
            IpcEvent::Mpv(m) => match m {
                IpcEventMpv::Observe(_) | IpcEventMpv::Command(_) | IpcEventMpv::SetProperty(_) => {
                    Dispatch { player: Some(m), ..no_action() }
                },
                _ => no_action(),
            },
            _ => no_action(),
        }
    }

    /// Answers one message of the web UI.
    pub fn handle_message(&mut self, message: &str) -> (r: Dispatch)
        ensures
            (final(self)@, r@) == handle_spec(old(self)@, message@),
    {
        match IpcEvent::try_from(message) {
            Ok(event) => self.dispatch(event),
            Err(_) => no_action(),
        }
    }

    /// A link handed to the application: one of its own scheme is kept for
    /// the page's next `Ready` and announced at once as `OpenMedia`.
    pub fn open_link(&mut self, uri: String) -> (r: Option<String>)
        ensures
            URI_SCHEME@.len() <= uri@.len() && uri@.subrange(0, URI_SCHEME@.len() as int)
                == URI_SCHEME@ ==> {
                &&& final(self)@ == (RouterView { deeplink: Some(uri@), ..old(self)@ })
                &&& r matches Some(m) && m@ == encode_spec(EventMsg::OpenMedia(uri@))
            },
            !(URI_SCHEME@.len() <= uri@.len() && uri@.subrange(0, URI_SCHEME@.len() as int)
                == URI_SCHEME@) ==> final(self)@ == old(self)@ && r is None,
    {
        if starts_with(uri.as_str(), URI_SCHEME) {
            let message = create_response(&IpcEvent::OpenMedia(uri.clone()));
            self.deeplink = Some(uri);
            Some(message)
        } else {
            None
        }
    }
}

/// Receiving `Fullscreen(state)` a second time changes nothing: the native
/// fullscreen status and the echoed reply are the same both times.
pub proof fn lemma_fullscreen_idempotent(s: RouterView, message: Seq<char>, state: bool)
    requires
        decode_spec(message) == Ok::<EventMsg, crate::ipc::ErrorMsg>(EventMsg::Fullscreen(state)),
    ensures
        ({
            let (s1, d1) = handle_spec(s, message);
            let (s2, d2) = handle_spec(s1, message);
            &&& s1.fullscreen == state
            &&& s2 == s1
            &&& d2 == d1
            &&& d1.fullscreen == Some(state)
            &&& d1.reply == Some(encode_spec(EventMsg::Fullscreen(state)))
        }),
{
}

/// A message that does not decode is dropped: nothing is dispatched, the
/// state is kept, and the messages after it are answered as if it had never
/// come.
pub proof fn lemma_malformed_dropped(s: RouterView, bad: Seq<char>, next: Seq<char>)
    requires
        decode_spec(bad) is Err,
    ensures
        handle_spec(s, bad) == (s, quiet()),
        handle_spec(handle_spec(s, bad).0, next) == handle_spec(s, next),
{
}

} // verus!
