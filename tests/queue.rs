use stremio_shell::queue::{Arrival, EventQueue, Inbox};

#[test]
fn interleaved_sends_keep_per_source_order() {
    let mut inbox: Inbox<u32, u32, u32> = Inbox::new();
    let mut expected = (Vec::new(), Vec::new(), Vec::new());
    let mut drained = (Vec::new(), Vec::new(), Vec::new());
    for i in 0..1000u32 {
        let a = match (i * 7 + i / 3) % 3 {
            0 => {
                expected.0.push(i);
                Arrival::Window(i)
            }
            1 => {
                expected.1.push(i);
                Arrival::Browser(i)
            }
            _ => {
                expected.2.push(i);
                Arrival::Player(i)
            }
        };
        assert!(inbox.post(a));
        if i % 97 == 0 {
            drained.0.extend(inbox.window.drain());
            drained.1.extend(inbox.browser.drain());
            drained.2.extend(inbox.player.drain());
        }
    }
    drained.0.extend(inbox.window.drain());
    drained.1.extend(inbox.browser.drain());
    drained.2.extend(inbox.player.drain());
    assert_eq!(drained, expected);
    assert_eq!(drained.0.len() + drained.1.len() + drained.2.len(), 1000);
}

#[test]
fn closed_queue_takes_nothing_but_keeps_pending() {
    let mut q: EventQueue<&str> = EventQueue::new();
    assert!(q.send("a"));
    q.close();
    assert!(q.is_closed());
    assert!(!q.send("b"));
    assert_eq!(q.drain(), vec!["a"]);
    assert_eq!(q.drain(), Vec::<&str>::new());
}

#[test]
fn closing_the_inbox_closes_all_three() {
    let mut inbox: Inbox<u8, u8, u8> = Inbox::new();
    inbox.post(Arrival::Player(1));
    assert!(inbox.post(Arrival::Window(9)));
    inbox.window.close();
    assert!(!inbox.post(Arrival::Window(10)));
    assert!(inbox.post(Arrival::Browser(11)));
    inbox.close();
    assert!(!inbox.post(Arrival::Window(2)));
    assert!(!inbox.post(Arrival::Browser(3)));
    assert!(!inbox.post(Arrival::Player(4)));
    assert_eq!(inbox.player.drain(), vec![1]);
    assert_eq!(inbox.window.drain(), vec![9]);
    assert_eq!(inbox.browser.drain(), vec![11]);
}
