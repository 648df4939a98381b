//! The event queues between producer threads and the polling loop.
//!
//! Producers send without blocking; the loop drains a whole queue once per
//! tick. A closed queue takes nothing more.
use vstd::prelude::*;

verus! {

pub struct EventQueue<T> {
    items: Vec<T>,
    closed: bool,
}

pub struct QueueView<T> {
    pub pending: Seq<T>,
    pub closed: bool,
}

impl<T> View for EventQueue<T> {
    type V = QueueView<T>;

    closed spec fn view(&self) -> QueueView<T> {
        QueueView { pending: self.items@, closed: self.closed }
    }
}

/// The queue after one send.
pub open spec fn sent<T>(q: QueueView<T>, item: T) -> QueueView<T> {
    if q.closed {
        q
    } else {
        QueueView { pending: q.pending.push(item), ..q }
    }
}

impl<T> EventQueue<T> {
    pub fn new() -> (r: EventQueue<T>)
        ensures
            r@.pending == Seq::<T>::empty(),
            !r@.closed,
    {
        EventQueue { items: Vec::new(), closed: false }
    }

    /// Appends `item` unless the queue is closed; says whether it was taken.
    pub fn send(&mut self, item: T) -> (taken: bool)
        ensures
            taken == !old(self)@.closed,
            final(self)@ == sent(old(self)@, item),
    {
        if self.closed {
            false
        } else {
            self.items.push(item);
            true
        }
    }

    /// Takes every pending item, in the order of arrival.
    pub fn drain(&mut self) -> (r: Vec<T>)
        ensures
            r@ == old(self)@.pending,
            final(self)@.pending == Seq::<T>::empty(),
            final(self)@.closed == old(self)@.closed,
    {
        let mut out: Vec<T> = Vec::new();
        std::mem::swap(&mut out, &mut self.items);
        out
    }

    /// Stops taking items; what is pending can still be drained.
    pub fn close(&mut self)
        ensures
            final(self)@.pending == old(self)@.pending,
            final(self)@.closed,
    {
        self.closed = true;
    }

    pub fn is_closed(&self) -> (r: bool)
        ensures
            r == self@.closed,
    {
        self.closed
    }
}

/// One send, to the queue of one of the three sources.
pub enum Arrival<W, B, P> {
    Window(W),
    Browser(B),
    Player(P),
}

/// The three queues that the polling loop drains.
pub struct Inbox<W, B, P> {
    pub window: EventQueue<W>,
    pub browser: EventQueue<B>,
    pub player: EventQueue<P>,
}

pub struct InboxView<W, B, P> {
    pub window: QueueView<W>,
    pub browser: QueueView<B>,
    pub player: QueueView<P>,
}

impl<W, B, P> View for Inbox<W, B, P> {
    type V = InboxView<W, B, P>;

    open spec fn view(&self) -> InboxView<W, B, P> {
        InboxView { window: self.window@, browser: self.browser@, player: self.player@ }
    }
}

/// The inbox after one send.
pub open spec fn posted<W, B, P>(v: InboxView<W, B, P>, a: Arrival<W, B, P>) -> InboxView<W, B, P> {
    match a {
        Arrival::Window(w) => InboxView { window: sent(v.window, w), ..v },
        Arrival::Browser(b) => InboxView { browser: sent(v.browser, b), ..v },
        Arrival::Player(p) => InboxView { player: sent(v.player, p), ..v },
    }
}

/// The inbox after a run of sends, in order.
pub open spec fn posted_all<W, B, P>(v: InboxView<W, B, P>, sends: Seq<Arrival<W, B, P>>) -> InboxView<W, B, P>
    decreases sends.len(),
{
    if sends.len() == 0 {
        v
    } else {
        posted(posted_all(v, sends.drop_last()), sends.last())
    }
}

/// The window events among `sends`, in order.
pub open spec fn window_part<W, B, P>(sends: Seq<Arrival<W, B, P>>) -> Seq<W>
    decreases sends.len(),
{
    if sends.len() == 0 {
        Seq::empty()
    } else {
        let rest = window_part(sends.drop_last());
        match sends.last() {
            Arrival::Window(w) => rest.push(w),
            _ => rest,
        }
    }
}

/// The browser events among `sends`, in order.
pub open spec fn browser_part<W, B, P>(sends: Seq<Arrival<W, B, P>>) -> Seq<B>
    decreases sends.len(),
{
    if sends.len() == 0 {
        Seq::empty()
    } else {
        let rest = browser_part(sends.drop_last());
        match sends.last() {
            Arrival::Browser(b) => rest.push(b),
            _ => rest,
        }
    }
}

/// The player events among `sends`, in order.
pub open spec fn player_part<W, B, P>(sends: Seq<Arrival<W, B, P>>) -> Seq<P>
    decreases sends.len(),
{
    if sends.len() == 0 {
        Seq::empty()
    } else {
        let rest = player_part(sends.drop_last());
        match sends.last() {
            Arrival::Player(p) => rest.push(p),
            _ => rest,
        }
    }
}

impl<W, B, P> Inbox<W, B, P> {
    pub fn new() -> (r: Inbox<W, B, P>)
        ensures
            r@.window == (QueueView { pending: Seq::<W>::empty(), closed: false }),
            r@.browser == (QueueView { pending: Seq::<B>::empty(), closed: false }),
            r@.player == (QueueView { pending: Seq::<P>::empty(), closed: false }),
    {
        Inbox { window: EventQueue::new(), browser: EventQueue::new(), player: EventQueue::new() }
    }

    /// Sends to the queue of the arrival's source.
    pub fn post(&mut self, a: Arrival<W, B, P>) -> (taken: bool)
        ensures
            final(self)@ == posted(old(self)@, a),
            taken == match a {
                Arrival::Window(_) => !old(self)@.window.closed,
                Arrival::Browser(_) => !old(self)@.browser.closed,
                Arrival::Player(_) => !old(self)@.player.closed,
            },
    {
        match a {
            Arrival::Window(w) => self.window.send(w),
            Arrival::Browser(b) => self.browser.send(b),
            Arrival::Player(p) => self.player.send(p),
        }
    }

    /// Closes all three queues, as at shutdown.
    pub fn close(&mut self)
        ensures
            final(self)@.window.pending == old(self)@.window.pending,
            final(self)@.browser.pending == old(self)@.browser.pending,
            final(self)@.player.pending == old(self)@.player.pending,
            final(self)@.window.closed && final(self)@.browser.closed && final(self)@.player.closed,
    {
        self.window.close();
        self.browser.close();
        self.player.close();
    }
}

/// Interleaved sends to the three open queues keep each source's order and
/// lose nothing: draining a queue after any run of sends gives exactly that
/// source's items, in the order they were sent.
pub proof fn lemma_sends_keep_order<W, B, P>(v: InboxView<W, B, P>, sends: Seq<Arrival<W, B, P>>)
    requires
        !v.window.closed && !v.browser.closed && !v.player.closed,
    ensures
        posted_all(v, sends).window.pending == v.window.pending + window_part(sends),
        posted_all(v, sends).browser.pending == v.browser.pending + browser_part(sends),
        posted_all(v, sends).player.pending == v.player.pending + player_part(sends),
        !posted_all(v, sends).window.closed,
        !posted_all(v, sends).browser.closed,
        !posted_all(v, sends).player.closed,
    decreases sends.len(),
{
    if sends.len() > 0 {
        lemma_sends_keep_order(v, sends.drop_last());
        assert((v.window.pending + window_part(sends.drop_last())).push(
            match sends.last() { Arrival::Window(w) => w, _ => arbitrary() },
        ) =~= v.window.pending + window_part(sends.drop_last()).push(
            match sends.last() { Arrival::Window(w) => w, _ => arbitrary() },
        ));
        assert((v.browser.pending + browser_part(sends.drop_last())).push(
            match sends.last() { Arrival::Browser(b) => b, _ => arbitrary() },
        ) =~= v.browser.pending + browser_part(sends.drop_last()).push(
            match sends.last() { Arrival::Browser(b) => b, _ => arbitrary() },
        ));
        assert((v.player.pending + player_part(sends.drop_last())).push(
            match sends.last() { Arrival::Player(p) => p, _ => arbitrary() },
        ) =~= v.player.pending + player_part(sends.drop_last()).push(
            match sends.last() { Arrival::Player(p) => p, _ => arbitrary() },
        ));
    } else {
        assert(v.window.pending + Seq::<W>::empty() =~= v.window.pending);
        assert(v.browser.pending + Seq::<B>::empty() =~= v.browser.pending);
        assert(v.player.pending + Seq::<P>::empty() =~= v.player.pending);
    }
}

/// After shutdown closes a queue, sends change nothing.
pub proof fn lemma_closed_takes_nothing<W, B, P>(v: InboxView<W, B, P>, sends: Seq<Arrival<W, B, P>>)
    requires
        v.window.closed && v.browser.closed && v.player.closed,
    ensures
        posted_all(v, sends) == v,
    decreases sends.len(),
{
    if sends.len() > 0 {
        lemma_closed_takes_nothing(v, sends.drop_last());
    }
}

} // verus!
