use audio_assistant::relay::RelayChannel;

#[test]
fn channel_starts_empty() {
    let mut channel: RelayChannel<u32> = RelayChannel::new();
    assert!(channel.is_empty());
    assert_eq!(channel.pending(), 0);
    assert_eq!(channel.try_recv(), None);
    assert_eq!(channel.drain(), Vec::<u32>::new());
}

#[test]
fn try_recv_takes_the_oldest_message() {
    let mut channel: RelayChannel<&str> = RelayChannel::new();
    channel.send("a");
    channel.send("b");
    assert_eq!(channel.pending(), 2);
    assert_eq!(channel.try_recv(), Some("a"));
    assert_eq!(channel.try_recv(), Some("b"));
    assert_eq!(channel.try_recv(), None);
}

#[test]
fn drain_takes_the_whole_backlog_in_order() {
    let mut channel: RelayChannel<u32> = RelayChannel::new();
    for n in 0..100 {
        channel.send(n);
    }
    assert_eq!(channel.drain(), (0..100).collect::<Vec<u32>>());
    assert!(channel.is_empty());
    channel.send(7);
    assert_eq!(channel.drain(), vec![7]);
}

#[test]
fn coordinator_ordering() {
    // Two producers; the coordinator ticks at arbitrary moments.
    let mut channel: RelayChannel<(char, &str)> = RelayChannel::new();
    let mut dispatched: Vec<(char, &str)> = Vec::new();
    channel.send(('p', "A"));
    channel.send(('q', "x"));
    dispatched.extend(channel.drain());
    channel.send(('q', "y"));
    channel.send(('p', "B"));
    channel.send(('q', "z"));
    dispatched.extend(channel.drain());
    dispatched.extend(channel.drain());
    channel.send(('p', "C"));
    dispatched.extend(channel.drain());
    let from_p: Vec<&str> = dispatched.iter().filter(|m| m.0 == 'p').map(|m| m.1).collect();
    let from_q: Vec<&str> = dispatched.iter().filter(|m| m.0 == 'q').map(|m| m.1).collect();
    assert_eq!(from_p, vec!["A", "B", "C"]);
    assert_eq!(from_q, vec!["x", "y", "z"]);
    assert_eq!(
        dispatched,
        vec![('p', "A"), ('q', "x"), ('q', "y"), ('p', "B"), ('q', "z"), ('p', "C")]
    );
}
