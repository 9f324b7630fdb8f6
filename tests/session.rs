use std::sync::Arc;

use pukeko::input::InputAction;
use pukeko::menu::MenuState;
use pukeko::session::{
    keys_match, Auth, ClientConnection, PublicKeyBlob, PukekoConfig, PukekoServer,
    SessionAction, Viewport,
};
use russh::keys::ssh_key::private::Ed25519Keypair;
use russh::keys::PrivateKey;

fn authorized() -> PublicKeyBlob {
    PublicKeyBlob { key_data: vec![0, 0, 0, 11, 1, 2, 3, 4, 5, 6, 7, 8], comment: Vec::new() }
}

fn config() -> PukekoConfig {
    PukekoConfig {
        server_key: PrivateKey::from(Ed25519Keypair::from_seed(&[7u8; 32])),
        user_key: authorized(),
    }
}

fn connection() -> ClientConnection {
    ClientConnection::new(Arc::new(config()), 1)
}

#[test]
fn authorized_key_is_accepted() {
    let conn = connection();
    assert_eq!(conn.auth_publickey_offered(&authorized()), Auth::Accept);
    assert_eq!(conn.auth_publickey(&authorized()), Auth::Accept);
}

#[test]
fn key_differing_in_one_byte_is_rejected() {
    let conn = connection();
    let mut other = authorized();
    other.key_data[11] ^= 1;
    assert_eq!(conn.auth_publickey_offered(&other), Auth::Reject);
    assert_eq!(conn.auth_publickey(&other), Auth::Reject);
}

#[test]
fn key_of_other_length_or_comment_is_rejected() {
    let conn = connection();
    let mut longer = authorized();
    longer.key_data.push(0);
    assert_eq!(conn.auth_publickey_offered(&longer), Auth::Reject);
    let mut commented = authorized();
    commented.comment = b"me@host".to_vec();
    assert_eq!(conn.auth_publickey(&commented), Auth::Reject);
    assert!(!keys_match(&commented, &authorized()));
    assert!(keys_match(&authorized(), &authorized()));
}

#[test]
fn menu_session_from_open_to_close() {
    let mut conn = connection();
    assert_eq!(conn.auth_publickey_offered(&authorized()), Auth::Accept);
    assert_eq!(conn.auth_publickey(&authorized()), Auth::Accept);
    assert!(conn.channel_open_session());
    assert_eq!(conn.pty_request(80, 24), SessionAction::ResizeRenderThenAck(Viewport { width: 80, height: 24 }));
    let menu = conn.menu_ref().unwrap();
    assert_eq!(menu.items(), &vec!["Hello".to_string(), "World".to_string(), "memes".to_string()]);
    assert_eq!(menu.selected(), Some(0));
    let (action, decoded) = conn.data(b"j");
    assert_eq!(action, SessionAction::Render);
    assert_eq!(decoded, vec![InputAction::Print('j')]);
    assert_eq!(conn.menu_ref().unwrap().selected(), Some(1));
    assert_eq!(conn.menu_ref().unwrap().items()[1], "World");
    let (action, _) = conn.data(b"q");
    assert_eq!(action, SessionAction::RenderThenClose);
    assert_eq!(*conn.menu_ref().unwrap().state(), MenuState::Closing);
    assert_eq!(conn.channel_close(), SessionAction::CloseChannel);
}

#[test]
fn rejected_key_opens_nothing() {
    let conn = connection();
    let other = PublicKeyBlob { key_data: vec![9, 9, 9], comment: Vec::new() };
    assert_eq!(conn.auth_publickey_offered(&other), Auth::Reject);
    assert!(!conn.is_at_menu());
    assert!(conn.menu_ref().is_none());
}

#[test]
fn window_change_before_channel_is_discarded() {
    let mut conn = connection();
    assert_eq!(conn.window_change_request(120, 40), SessionAction::Discard);
    assert!(!conn.is_at_menu());
    assert_eq!(conn.pty_request(120, 40), SessionAction::Discard);
    assert_eq!(conn.data(b"j"), (SessionAction::Discard, Vec::new()));
    assert!(!conn.is_at_menu());
}

#[test]
fn window_change_at_menu_resizes() {
    let mut conn = connection();
    assert!(conn.channel_open_session());
    assert_eq!(
        conn.window_change_request(120, 40),
        SessionAction::ResizeThenRender(Viewport { width: 120, height: 40 })
    );
    assert_eq!(
        conn.window_change_request(65536 + 10, 70000),
        SessionAction::ResizeThenRender(Viewport { width: 10, height: 4464 })
    );
}

#[test]
fn second_channel_open_is_refused() {
    let mut conn = connection();
    assert!(conn.channel_open_session());
    conn.data(b"j");
    assert!(!conn.channel_open_session());
    assert_eq!(conn.menu_ref().unwrap().selected(), Some(1));
}

#[test]
fn concurrent_connections_get_sequential_ids() {
    let mut server = PukekoServer::new(config());
    let mut a = server.new_client();
    let mut b = server.new_client();
    assert_eq!(a.id(), 1);
    assert_eq!(b.id(), 2);
    assert_eq!(a.auth_publickey(&authorized()), Auth::Accept);
    assert_eq!(b.auth_publickey(&authorized()), Auth::Accept);
    assert!(a.channel_open_session());
    assert!(b.channel_open_session());
    a.data(b"j");
    b.data(b"k");
    assert_eq!(a.menu_ref().unwrap().selected(), Some(1));
    assert_eq!(b.menu_ref().unwrap().selected(), Some(3));
    assert!(server.can_accept());
    assert!(keys_match(&server.config().user_key, &authorized()));
}
