//! What the node does with a line typed by the user: list the discovered
//! peers, ask whether one peer has been discovered, or send the line to the
//! chat topic.

use crate::net::{
    floodsub_connected, floodsub_dials, floodsub_local_peer, floodsub_notices, floodsub_publish,
    floodsub_sent, floodsub_targets, floodsub_topics, parse_peer_id, peer_id_from_text, published,
};
use vstd::utf8::encode_utf8;
use crate::peers::{has_node, peer_bytes};
use crate::text::{equals, starts_with};
use libp2p::floodsub::Floodsub;
use vstd::prelude::*;

verus! {

/// The floodsub topic that chat messages are published to.
pub const TOPIC: &'static str = "transactions";

/// The floodsub topic set aside for blocks.
pub const BLOCK_TOPIC: &'static str = "blocks";

/// The command that lists the discovered peers.
pub const LIST_PEERS: &'static str = "ls p";

/// The prefix of the command that asks about one peer.
pub const CHECK_PEER: &'static str = "ls c";

/// What stands before the peer identifier in that command.
pub const CHECK_PEER_ARGUMENT: &'static str = "ls c ";

/// In the recipe command set: the command that lists recipes.
pub const LIST_RECIPES: &'static str = "ls r";

/// In the recipe command set: the command that creates a recipe.
pub const CREATE_RECIPE: &'static str = "create r";

/// In the recipe command set: the command that makes a recipe public.
pub const PUBLISH_RECIPE: &'static str = "publish r";

/// The three things an input line can ask for.
#[derive(Debug, Clone, Copy, PartialEq, Eq, Structural)]
pub enum InputKind {
    /// The line is exactly the command that lists the discovered peers.
    ListPeers,
    /// The line starts with the command that asks about one peer.
    CheckPeer,
    /// Any other line is a chat message.
    Publish,
}

/// What an input line asks for.
pub open spec fn input_kind(line: Seq<char>) -> InputKind {
    if line == LIST_PEERS@ {
        InputKind::ListPeers
    } else if CHECK_PEER@.is_prefix_of(line) {
        InputKind::CheckPeer
    } else {
        InputKind::Publish
    }
}

/// Classifies an input line.
pub fn classify_input(line: &str) -> (kind: InputKind)
    ensures
        kind == input_kind(line@),
{
    if equals(line, LIST_PEERS) {
        InputKind::ListPeers
    } else if starts_with(line, CHECK_PEER) {
        InputKind::CheckPeer
    } else {
        InputKind::Publish
    }
}

/// What a line asks for in the recipe command set, a second command set
/// that this library only classifies; its handlers are not part of it.
#[derive(Debug, Clone, Copy, PartialEq, Eq, Structural)]
pub enum RecipeInput {
    ListPeers,
    ListRecipes,
    CreateRecipe,
    PublishRecipe,
    Unknown,
}

/// What a line asks for in the recipe command set: the commands are tried in
/// this order, and a line that is none of them is unknown.
pub open spec fn recipe_input_kind(line: Seq<char>) -> RecipeInput {
    if line == LIST_PEERS@ {
        RecipeInput::ListPeers
    } else if LIST_RECIPES@.is_prefix_of(line) {
        RecipeInput::ListRecipes
    } else if CREATE_RECIPE@.is_prefix_of(line) {
        RecipeInput::CreateRecipe
    } else if PUBLISH_RECIPE@.is_prefix_of(line) {
        RecipeInput::PublishRecipe
    } else {
        RecipeInput::Unknown
    }
}

/// Classifies a line in the recipe command set.
pub fn classify_recipe_input(line: &str) -> (kind: RecipeInput)
    ensures
        kind == recipe_input_kind(line@),
{
    if equals(line, LIST_PEERS) {
        RecipeInput::ListPeers
    } else if starts_with(line, LIST_RECIPES) {
        RecipeInput::ListRecipes
    } else if starts_with(line, CREATE_RECIPE) {
        RecipeInput::CreateRecipe
    } else if starts_with(line, PUBLISH_RECIPE) {
        RecipeInput::PublishRecipe
    } else {
        RecipeInput::Unknown
    }
}

/// Why a peer question cannot be answered.
#[derive(Debug, Clone, Copy, PartialEq, Eq, Structural)]
pub enum PeerQueryError {
    /// The line does not go on with a space after the command.
    MissingPeer,
    /// What follows the command is not a peer identifier.
    InvalidPeerId,
}

/// The text that a peer question asks about: what follows the command and a
/// space, where the line has them.
pub open spec fn peer_argument(line: Seq<char>) -> Option<Seq<char>> {
    if CHECK_PEER_ARGUMENT@.is_prefix_of(line) {
        Some(line.skip(CHECK_PEER_ARGUMENT@.len() as int))
    } else {
        None
    }
}

/// The peer that a line asks about, as the bytes of its identifier.
pub open spec fn peer_query(line: Seq<char>) -> Result<Seq<u8>, PeerQueryError> {
    match peer_argument(line) {
        None => Err(PeerQueryError::MissingPeer),
        Some(text) => match peer_id_from_text(text) {
            Some(peer) => Ok(peer),
            None => Err(PeerQueryError::InvalidPeerId),
        },
    }
}

/// The text after the command and its space, where the line has them.
pub fn strip_peer_argument(line: &str) -> (r: Option<&str>)
    ensures
        match r {
            Some(text) => peer_argument(line@) == Some(text@),
            None => peer_argument(line@) is None,
        },
{
    if starts_with(line, CHECK_PEER_ARGUMENT) {
        let start = CHECK_PEER_ARGUMENT.unicode_len();
        let end = line.unicode_len();
        Some(line.substring_char(start, end))
    } else {
        None
    }
}

/// A peer question written as the command, a space and a text asks about
/// exactly that text.
pub proof fn lemma_peer_question(text: Seq<char>)
    ensures
        input_kind(CHECK_PEER_ARGUMENT@ + text) == InputKind::CheckPeer,
        peer_argument(CHECK_PEER_ARGUMENT@ + text) == Some(text),
{
    reveal_strlit("ls c ");
    reveal_strlit("ls c");
    reveal_strlit("ls p");
    let line = CHECK_PEER_ARGUMENT@ + text;
    assert(CHECK_PEER_ARGUMENT@ =~= line.subrange(0, 5));
    assert(CHECK_PEER@ =~= line.subrange(0, 4));
    assert(line.skip(5) =~= text);
    assert(line != LIST_PEERS@) by {
        assert(line[3] != LIST_PEERS@[3]);
    }
}

/// A line that starts with the peer command but does not go on with a space
/// (the command alone among them) names no peer.
pub proof fn lemma_peer_question_without_space(line: Seq<char>)
    requires
        input_kind(line) == InputKind::CheckPeer,
        line.len() == 4 || line[4] != ' ',
    ensures
        peer_query(line) == Err::<Seq<u8>, PeerQueryError>(PeerQueryError::MissingPeer),
{
    reveal_strlit("ls c ");
    if CHECK_PEER_ARGUMENT@.is_prefix_of(line) {
        assert(line.subrange(0, 5)[4] == ' ');
    }
}

/// Reads the peer identifier that a line asks about.
pub fn parse_peer_query(line: &str) -> (r: Result<Vec<u8>, PeerQueryError>)
    ensures
        match r {
            Ok(peer) => peer_query(line@) == Ok::<Seq<u8>, PeerQueryError>(peer@),
            Err(e) => peer_query(line@) == Err::<Seq<u8>, PeerQueryError>(e),
        },
{
    match strip_peer_argument(line) {
        None => Err(PeerQueryError::MissingPeer),
        Some(text) => match parse_peer_id(text) {
            Some(peer) => Ok(peer),
            None => Err(PeerQueryError::InvalidPeerId),
        },
    }
}

/// Whether the peer that the line names has been discovered. The line must
/// be the command, a space and a valid peer identifier. `discovered` holds
/// the identifiers as `PeerId::to_bytes` writes them; entries are matched as
/// written.
pub fn check_has_peer(line: &str, discovered: &[Vec<u8>]) -> (exists: bool)
    requires
        peer_query(line@) is Ok,
    ensures
        exists == peer_bytes(discovered@).contains(peer_query(line@)->Ok_0),
{
    match parse_peer_query(line) {
        Ok(peer) => has_node(discovered, peer.as_slice()),
        Err(_) => false,
    }
}

/// Answers a peer question on any line: whether the named peer has been
/// discovered, or why the line names no peer.
pub fn peer_status(line: &str, discovered: &[Vec<u8>]) -> (r: Result<bool, PeerQueryError>)
    ensures
        match peer_query(line@) {
            Ok(peer) => r == Ok::<bool, PeerQueryError>(peer_bytes(discovered@).contains(peer)),
            Err(e) => r == Err::<bool, PeerQueryError>(e),
        },
{
    match parse_peer_query(line) {
        Ok(_) => Ok(check_has_peer(line, discovered)),
        Err(e) => Err(e),
    }
}

/// What handling an input line led to.
#[derive(Debug, Clone, Copy, PartialEq, Eq, Structural)]
pub enum InputOutcome {
    /// The discovered peers are to be shown.
    ShowPeers,
    /// Whether the peer that the line names has been discovered.
    PeerStatus(bool),
    /// The line was published to the chat topic.
    Published,
}

/// What handling `line` leads to, with `discovered` the identifiers of the
/// peers that discovery lists.
pub open spec fn input_outcome(line: Seq<char>, discovered: Seq<Seq<u8>>) -> Result<
    InputOutcome,
    PeerQueryError,
> {
    match input_kind(line) {
        InputKind::ListPeers => Ok(InputOutcome::ShowPeers),
        InputKind::CheckPeer => match peer_query(line) {
            Ok(peer) => Ok(InputOutcome::PeerStatus(discovered.contains(peer))),
            Err(e) => Err(e),
        },
        InputKind::Publish => Ok(InputOutcome::Published),
    }
}

/// The lines that are handled rather than refused: all but the peer
/// questions that name no valid peer.
pub open spec fn handles_input(line: Seq<char>) -> bool {
    input_kind(line) == InputKind::CheckPeer ==> peer_query(line) is Ok
}

/// What handling `line` does to floodsub: a chat message is published on the
/// chat topic as the line's UTF-8 bytes (one message for each recipient, no
/// dial, no notice), and nothing else about floodsub changes; any other line
/// leaves floodsub exactly as it was.
pub open spec fn input_effect(line: Seq<char>, before: Floodsub, after: Floodsub) -> bool {
    if input_kind(line) == InputKind::Publish {
        &&& published(before, after, TOPIC@, encode_utf8(line))
        &&& floodsub_topics(after) == floodsub_topics(before)
        &&& floodsub_targets(after) == floodsub_targets(before)
        &&& floodsub_connected(after) == floodsub_connected(before)
        &&& floodsub_local_peer(after) == floodsub_local_peer(before)
        &&& floodsub_dials(after) == floodsub_dials(before)
        &&& floodsub_notices(after) == floodsub_notices(before)
    } else {
        after == before
    }
}

/// The lines that are handled are the list command, every line that is no
/// peer question, and the peer questions written as the command, a space and
/// a valid peer identifier. Of the others, those without the space are
/// refused as naming no peer and the rest as naming an invalid one.
pub proof fn lemma_handled_lines(line: Seq<char>)
    ensures
        handles_input(line) <==> {
            ||| line == LIST_PEERS@
            ||| !CHECK_PEER@.is_prefix_of(line)
            ||| (peer_argument(line) matches Some(text) && peer_id_from_text(text) is Some)
        },
        !handles_input(line) ==> (peer_query(line) == Err::<Seq<u8>, PeerQueryError>(
            PeerQueryError::MissingPeer) <==> peer_argument(line) is None),
        !handles_input(line) ==> (peer_query(line) == Err::<Seq<u8>, PeerQueryError>(
            PeerQueryError::InvalidPeerId) <==> peer_argument(line) is Some),
{
}

/// Handling a line changes floodsub only by queueing messages, and only for a
/// chat message: topics, targets, connections, the local peer, dials and
/// notices stay as they were, and any other line leaves the messages as they
/// were too.
pub proof fn lemma_input_changes_only_messages(line: Seq<char>, before: Floodsub, after: Floodsub)
    requires
        input_effect(line, before, after),
    ensures
        floodsub_topics(after) == floodsub_topics(before),
        floodsub_targets(after) == floodsub_targets(before),
        floodsub_connected(after) == floodsub_connected(before),
        floodsub_local_peer(after) == floodsub_local_peer(before),
        floodsub_dials(after) == floodsub_dials(before),
        floodsub_notices(after) == floodsub_notices(before),
        floodsub_sent(before).is_prefix_of(floodsub_sent(after)),
        input_kind(line) != InputKind::Publish ==> floodsub_sent(after) == floodsub_sent(before),
{
    if input_kind(line) != InputKind::Publish {
        assert(floodsub_sent(before) =~= floodsub_sent(after).subrange(
            0,
            floodsub_sent(before).len() as int,
        ));
    }
}

/// Handles a line typed by the user: listing peers is left to the caller,
/// which holds the discovered peers; a peer question is answered from
/// `discovered`; any other line is published to the chat topic. The line must
/// not be a peer question that names no valid peer.
pub fn handle_input_event(line: &str, floodsub: &mut Floodsub, discovered: &[Vec<u8>]) -> (outcome:
    InputOutcome)
    requires
        handles_input(line@),
    ensures
        input_outcome(line@, peer_bytes(discovered@)) == Ok::<InputOutcome, PeerQueryError>(
            outcome,
        ),
        input_effect(line@, *old(floodsub), *final(floodsub)),
{
    match classify_input(line) {
        InputKind::ListPeers => InputOutcome::ShowPeers,
        InputKind::CheckPeer => InputOutcome::PeerStatus(check_has_peer(line, discovered)),
        InputKind::Publish => {
            floodsub_publish(floodsub, TOPIC, line.as_bytes());
            InputOutcome::Published
        },
    }
}

/// Handles any line typed by the user: as `handle_input_event` does, or, for a
/// peer question that names no valid peer, refuses it with the reason and
/// leaves floodsub as it was.
pub fn try_handle_input_event(line: &str, floodsub: &mut Floodsub, discovered: &[Vec<u8>]) -> (r:
    Result<InputOutcome, PeerQueryError>)
    ensures
        r == input_outcome(line@, peer_bytes(discovered@)),
        match r {
            Ok(_) => input_effect(line@, *old(floodsub), *final(floodsub)),
            Err(_) => *final(floodsub) == *old(floodsub),
        },
{
    if classify_input(line) == InputKind::CheckPeer {
        match parse_peer_query(line) {
            Ok(_) => {},
            Err(e) => {
                return Err(e);
            },
        }
    }
    Ok(handle_input_event(line, floodsub, discovered))
}

} // verus!
