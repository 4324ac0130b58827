use libp2p::floodsub::{FloodsubEvent, Topic};
use libp2p::identity::Keypair;
use peerchat::behaviour::{chat_floodsub, on_peers_discovered, subscribe_topic, Event, MessageStore};
use peerchat::commands::{BLOCK_TOPIC, TOPIC};

#[test]
fn chat_floodsub_is_subscribed_to_the_chat_topic() {
    let peer = Keypair::generate_ed25519().public().to_peer_id();
    let mut floodsub = chat_floodsub(&peer.to_bytes()).unwrap();
    assert!(!subscribe_topic(&mut floodsub, TOPIC));
    assert!(subscribe_topic(&mut floodsub, BLOCK_TOPIC));
    assert!(!subscribe_topic(&mut floodsub, BLOCK_TOPIC));
    assert!(subscribe_topic(&mut floodsub, "other"));
}

#[test]
fn topic_names() {
    assert_eq!(TOPIC, "transactions");
    assert_eq!(BLOCK_TOPIC, "blocks");
}

#[test]
fn event_wraps_input() {
    let event = Event::Input("hi".to_string());
    assert!(matches!(event, Event::Input(ref s) if s == "hi"));
    let peer = Keypair::generate_ed25519().public().to_peer_id();
    let stored = MessageStore { mmessage: "hello".to_string(), peer };
    assert_eq!(stored.mmessage, "hello");
    assert_eq!(stored.peer, peer);
}

#[test]
fn event_from_floodsub_and_mdns() {
    let peer_id = Keypair::generate_ed25519().public().to_peer_id();
    let event = Event::from(FloodsubEvent::Subscribed { peer_id, topic: Topic::new("t") });
    assert!(matches!(event, Event::Floodsub(FloodsubEvent::Subscribed { .. })));
    let event = Event::from(libp2p::mdns::Event::Expired(Vec::new()));
    assert!(matches!(event, Event::Mdns(libp2p::mdns::Event::Expired(ref v)) if v.is_empty()));
}

#[test]
fn discovered_peers_become_targets() {
    let local = Keypair::generate_ed25519().public().to_peer_id();
    let a = Keypair::generate_ed25519().public().to_peer_id();
    let b = Keypair::generate_ed25519().public().to_peer_id();
    let mut floodsub = chat_floodsub(&local.to_bytes()).unwrap();
    let discovered = vec![a.to_bytes(), vec![0xff, 0x01], b.to_bytes(), a.to_bytes(), Vec::new()];
    assert_eq!(on_peers_discovered(&mut floodsub, &discovered), 2);
    assert_eq!(on_peers_discovered(&mut floodsub, &[]), 0);
    // The subscriptions are untouched.
    assert!(!subscribe_topic(&mut floodsub, TOPIC));
}

#[test]
fn chat_floodsub_needs_a_peer_identifier() {
    assert!(chat_floodsub(&[]).is_none());
    assert!(chat_floodsub(&[0xff, 0x01]).is_none());
}

#[test]
fn non_canonical_identifier_bytes_are_read() {
    // A ten-byte varint for the code, then an empty digest: read as a peer.
    let mut bytes = vec![0x92u8];
    bytes.extend(std::iter::repeat(0x80u8).take(8));
    bytes.push(0x02);
    bytes.push(0x00);
    let local = Keypair::generate_ed25519().public().to_peer_id();
    let mut floodsub = chat_floodsub(&local.to_bytes()).unwrap();
    assert_eq!(on_peers_discovered(&mut floodsub, &[bytes.clone()]), 0);
    assert!(chat_floodsub(&bytes).is_some());
}

#[test]
fn subscribing_a_new_topic_after_discovery() {
    let local = Keypair::generate_ed25519().public().to_peer_id();
    let a = Keypair::generate_ed25519().public().to_peer_id();
    let mut floodsub = chat_floodsub(&local.to_bytes()).unwrap();
    // Discovering the same peer twice targets it once; nothing is refused.
    assert_eq!(on_peers_discovered(&mut floodsub, &[a.to_bytes(), a.to_bytes()]), 0);
    assert!(subscribe_topic(&mut floodsub, "news"));
    assert!(!subscribe_topic(&mut floodsub, "news"));
}
