use libp2p::identity::Keypair;
use libp2p::PeerId;
use peerchat::behaviour::{chat_floodsub, subscribe_topic};
use peerchat::commands::{
    check_has_peer, classify_input, classify_recipe_input, handle_input_event, parse_peer_query,
    peer_status, strip_peer_argument, try_handle_input_event, InputKind, InputOutcome, PeerQueryError, RecipeInput,
    BLOCK_TOPIC, TOPIC,
};

fn fresh_peer() -> PeerId {
    Keypair::generate_ed25519().public().to_peer_id()
}

#[test]
fn list_peers_command_is_exact() {
    assert_eq!(classify_input("ls p"), InputKind::ListPeers);
    assert_eq!(classify_input("ls p "), InputKind::Publish);
    assert_eq!(classify_input("ls"), InputKind::Publish);
    assert_eq!(classify_input(""), InputKind::Publish);
}

#[test]
fn check_peer_command_is_a_prefix() {
    assert_eq!(classify_input("ls c"), InputKind::CheckPeer);
    assert_eq!(classify_input("ls cabc"), InputKind::CheckPeer);
    assert_eq!(classify_input("ls c 12D3KooW"), InputKind::CheckPeer);
    assert_eq!(classify_input(" ls c"), InputKind::Publish);
    assert_eq!(classify_input("hello world"), InputKind::Publish);
    assert_eq!(classify_input("héllo ünïcode ✓"), InputKind::Publish);
}

#[test]
fn strip_peer_argument_takes_the_rest() {
    assert_eq!(strip_peer_argument("ls c abc"), Some("abc"));
    assert_eq!(strip_peer_argument("ls c "), Some(""));
    assert_eq!(strip_peer_argument("ls c ünï"), Some("ünï"));
    assert_eq!(strip_peer_argument("ls c"), None);
    assert_eq!(strip_peer_argument("ls cx"), None);
}

#[test]
fn peer_query_errors() {
    assert_eq!(parse_peer_query("ls c"), Err(PeerQueryError::MissingPeer));
    assert_eq!(parse_peer_query("ls cfoo"), Err(PeerQueryError::MissingPeer));
    assert_eq!(parse_peer_query("ls c not-a-peer"), Err(PeerQueryError::InvalidPeerId));
    assert_eq!(parse_peer_query("ls c "), Err(PeerQueryError::InvalidPeerId));
}

#[test]
fn peer_query_reads_the_identifier() {
    let peer = fresh_peer();
    let line = format!("ls c {}", peer.to_base58());
    assert_eq!(parse_peer_query(&line), Ok(peer.to_bytes()));
}

#[test]
fn check_has_peer_finds_discovered_peers() {
    let known = fresh_peer();
    let other = fresh_peer();
    let discovered = vec![other.to_bytes(), known.to_bytes(), other.to_bytes()];
    assert!(check_has_peer(&format!("ls c {}", known), &discovered));
    assert!(!check_has_peer(&format!("ls c {}", fresh_peer()), &discovered));
    assert!(!check_has_peer(&format!("ls c {}", known), &[]));
}

#[test]
fn peer_status_answers_any_line() {
    let known = fresh_peer();
    let discovered = vec![known.to_bytes()];
    assert_eq!(peer_status(&format!("ls c {}", known), &discovered), Ok(true));
    assert_eq!(peer_status(&format!("ls c {}", fresh_peer()), &discovered), Ok(false));
    assert_eq!(peer_status("ls c", &discovered), Err(PeerQueryError::MissingPeer));
    assert_eq!(peer_status("ls c zz", &discovered), Err(PeerQueryError::InvalidPeerId));
}

#[test]
fn handle_input_event_dispatches() {
    let local = fresh_peer();
    let known = fresh_peer();
    let discovered = vec![known.to_bytes()];
    let mut floodsub = chat_floodsub(&local.to_bytes()).unwrap();
    assert_eq!(handle_input_event("ls p", &mut floodsub, &discovered), InputOutcome::ShowPeers);
    assert_eq!(
        handle_input_event(&format!("ls c {}", known), &mut floodsub, &discovered),
        InputOutcome::PeerStatus(true)
    );
    assert_eq!(
        handle_input_event(&format!("ls c {}", local), &mut floodsub, &discovered),
        InputOutcome::PeerStatus(false)
    );
    assert_eq!(handle_input_event("hello", &mut floodsub, &discovered), InputOutcome::Published);
    assert_eq!(handle_input_event("ls p ", &mut floodsub, &discovered), InputOutcome::Published);
    // Handling input leaves the subscriptions as they were.
    assert!(!subscribe_topic(&mut floodsub, TOPIC));
    assert!(subscribe_topic(&mut floodsub, BLOCK_TOPIC));
}

#[test]
fn try_handle_input_event_refuses_bad_peer_questions() {
    let known = fresh_peer();
    let discovered = vec![known.to_bytes()];
    let mut floodsub = chat_floodsub(&fresh_peer().to_bytes()).unwrap();
    assert_eq!(try_handle_input_event("ls c", &mut floodsub, &discovered), Err(PeerQueryError::MissingPeer));
    assert_eq!(try_handle_input_event("ls cx", &mut floodsub, &discovered), Err(PeerQueryError::MissingPeer));
    assert_eq!(
        try_handle_input_event("ls c nope", &mut floodsub, &discovered),
        Err(PeerQueryError::InvalidPeerId)
    );
    assert_eq!(
        try_handle_input_event(&format!("ls c {}", known), &mut floodsub, &discovered),
        Ok(InputOutcome::PeerStatus(true))
    );
    assert_eq!(try_handle_input_event("hi", &mut floodsub, &discovered), Ok(InputOutcome::Published));
    assert_eq!(try_handle_input_event("ls p", &mut floodsub, &discovered), Ok(InputOutcome::ShowPeers));
}

#[test]
fn recipe_commands() {
    assert_eq!(classify_recipe_input("ls p"), RecipeInput::ListPeers);
    assert_eq!(classify_recipe_input("ls r"), RecipeInput::ListRecipes);
    assert_eq!(classify_recipe_input("ls r all"), RecipeInput::ListRecipes);
    assert_eq!(classify_recipe_input("create r a|b|c"), RecipeInput::CreateRecipe);
    assert_eq!(classify_recipe_input("publish r 3"), RecipeInput::PublishRecipe);
    assert_eq!(classify_recipe_input("ls c"), RecipeInput::Unknown);
    assert_eq!(classify_recipe_input("ls pp"), RecipeInput::Unknown);
}
