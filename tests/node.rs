use messages_p2p::command::{message_id, overlay_call, ChatCommand, OverlayCall, COMMAND_CAPACITY};
use messages_p2p::handlers::{MessageHandler, SimpleClientHandler};
use messages_p2p::node::{follow_up, BootstrapConfig, ClientNode, ConfigError, NodeInput};

fn fresh_peer_id() -> libp2p::PeerId {
    libp2p::identity::Keypair::generate_ed25519().public().to_peer_id()
}

struct Echo;

impl MessageHandler for Echo {
    fn handle_message(&mut self, _peer: libp2p::PeerId, topic: &str, data: &[u8]) -> Option<ChatCommand> {
        Some(ChatCommand::Publish(topic.to_string(), data.to_vec()))
    }
}

fn good_config() -> BootstrapConfig {
    BootstrapConfig {
        peer_id: fresh_peer_id().to_string(),
        address: "/ip4/127.0.0.1/tcp/4001".to_string(),
    }
}

#[test]
fn from_config_accepts_a_valid_record() {
    let config = good_config();
    let keypair = libp2p::identity::Keypair::generate_ed25519();
    let own_id = keypair.public().to_peer_id();
    let node = ClientNode::from_config(&config, keypair, SimpleClientHandler).ok().unwrap();
    assert_eq!(node.keypair().public().to_peer_id(), own_id);
    assert_eq!(node.server_peer_id().to_string(), config.peer_id);
    assert_eq!(node.server_address().to_string(), config.address);
    assert_eq!(node.bootstrap_config(), &config);
}

#[test]
fn from_config_rejects_a_bad_peer_id() {
    let config = BootstrapConfig { peer_id: "not-a-peer".to_string(), address: "no-slash".to_string() };
    let r = ClientNode::from_config(&config, libp2p::identity::Keypair::generate_ed25519(), SimpleClientHandler);
    assert!(matches!(r, Err(ConfigError::InvalidPeerId)));
}

#[test]
fn from_config_rejects_a_bad_address() {
    let mut config = good_config();
    config.address = "ip4/127.0.0.1".to_string();
    let r = ClientNode::from_config(&config, libp2p::identity::Keypair::generate_ed25519(), SimpleClientHandler);
    assert!(matches!(r, Err(ConfigError::InvalidAddress)));
}

#[test]
fn commands_become_overlay_calls() {
    let mut node = ClientNode::from_config(&good_config(), libp2p::identity::Keypair::generate_ed25519(), SimpleClientHandler).ok().unwrap();
    let r = node.step(NodeInput::Command(ChatCommand::Subscribe("chat-room".to_string())));
    assert_eq!(r, Some(OverlayCall::Subscribe("chat-room".to_string())));
    let r = node.step(NodeInput::Command(ChatCommand::Publish("t".to_string(), vec![1, 2, 3])));
    assert_eq!(r, Some(OverlayCall::Publish("t".to_string(), vec![1, 2, 3])));
}

#[test]
fn other_events_are_only_observed() {
    let mut node = ClientNode::from_config(&good_config(), libp2p::identity::Keypair::generate_ed25519(), SimpleClientHandler).ok().unwrap();
    assert_eq!(node.step(NodeInput::ListenAddress("/ip4/0.0.0.0/tcp/1".to_string())), None);
    assert_eq!(node.step(NodeInput::Connected(fresh_peer_id())), None);
    assert_eq!(node.step(NodeInput::Discovery), None);
    assert_eq!(node.step(NodeInput::Other), None);
    let msg = NodeInput::Message { source: fresh_peer_id(), topic: "t".to_string(), payload: b"hi".to_vec() };
    assert_eq!(node.step(msg), None);
}

#[test]
fn a_handler_answer_is_carried_out() {
    let mut node = ClientNode::from_config(&good_config(), libp2p::identity::Keypair::generate_ed25519(), Echo).ok().unwrap();
    let msg = NodeInput::Message { source: fresh_peer_id(), topic: "room".to_string(), payload: b"ping".to_vec() };
    assert_eq!(node.step(msg), Some(OverlayCall::Publish("room".to_string(), b"ping".to_vec())));
}

#[test]
fn follow_up_maps_answers() {
    assert_eq!(follow_up(None), None);
    assert_eq!(
        follow_up(Some(ChatCommand::Subscribe("x".to_string()))),
        Some(OverlayCall::Subscribe("x".to_string()))
    );
    assert_eq!(overlay_call(ChatCommand::Publish("a".to_string(), vec![])), OverlayCall::Publish("a".to_string(), vec![]));
}

#[test]
fn simple_handler_never_answers() {
    let mut h = SimpleClientHandler;
    assert_eq!(h.handle_message(fresh_peer_id(), "t", b"hello"), None);
}

#[test]
fn same_payload_same_message_id() {
    let a = message_id(b"hello");
    let b = message_id(&b"hello".to_vec());
    assert_eq!(a, b);
    assert_ne!(message_id(b"hello"), message_id(b"hellp"));
}

#[test]
fn queue_capacity_makes_producers_wait() {
    let rt = tokio::runtime::Builder::new_current_thread().enable_all().build().unwrap();
    rt.block_on(async {
        let (tx, mut rx) = tokio::sync::mpsc::channel::<ChatCommand>(COMMAND_CAPACITY);
        for i in 0..COMMAND_CAPACITY {
            tx.try_send(ChatCommand::Publish("t".to_string(), vec![i as u8])).unwrap();
        }
        let extra = tx.try_send(ChatCommand::Subscribe("late".to_string()));
        assert!(matches!(extra, Err(tokio::sync::mpsc::error::TrySendError::Full(_))));
        let sender = tx.clone();
        let waiting = tokio::spawn(async move { sender.send(ChatCommand::Subscribe("late".to_string())).await.is_ok() });
        tokio::task::yield_now().await;
        assert!(!waiting.is_finished());
        let first = rx.recv().await.unwrap();
        assert_eq!(first, ChatCommand::Publish("t".to_string(), vec![0]));
        assert!(waiting.await.unwrap());
        for _ in 1..COMMAND_CAPACITY {
            rx.recv().await.unwrap();
        }
        assert_eq!(rx.recv().await.unwrap(), ChatCommand::Subscribe("late".to_string()));
    });
}
