//! Per-connection state machine and the registry that numbers connections.
//!
//! The transport delivers events to a connection; the connection decides what
//! happens to its menu and answers with the action the transport side performs.
use vstd::prelude::*;

use crate::input::InputAction;
use crate::menu::{apply_actions, default_labels, MenuModel, MenuState, PukekoMenu};
use russh::keys::PrivateKey;
use std::sync::Arc;

verus! {

/// The server's private key (ssh-key's `PrivateKey`, as russh re-exports it),
/// carried opaque.
#[verifier::external_type_specification]
#[verifier::external_body]
pub struct ExPrivateKey(PrivateKey);

/// A public key as connections compare it: its encoded key data (algorithm and
/// key material) and its comment. Two keys are the same key when both agree.
pub struct PublicKeyBlob {
    pub key_data: Vec<u8>,
    pub comment: Vec<u8>,
}

impl View for PublicKeyBlob {
    type V = (Seq<u8>, Seq<u8>);

    open spec fn view(&self) -> (Seq<u8>, Seq<u8>) {
        (self.key_data@, self.comment@)
    }
}

fn bytes_equal(a: &Vec<u8>, b: &Vec<u8>) -> (r: bool)
    ensures
        r == (a@ == b@),
{
    if a.len() != b.len() {
        return false;
    }
    let mut i: usize = 0;
    while i < a.len()
        invariant
            a@.len() == b@.len(),
            i <= a@.len(),
            forall|j: int| 0 <= j < i ==> a@[j] == b@[j],
        decreases a@.len() - i,
    {
        if a[i] != b[i] {
            return false;
        }
        i = i + 1;
    }
    assert(a@ =~= b@);
    true
}

/// Whether two keys are the same key.
pub fn keys_match(a: &PublicKeyBlob, b: &PublicKeyBlob) -> (r: bool)
    ensures
        r == (a@ == b@),
{
    bytes_equal(&a.key_data, &b.key_data) && bytes_equal(&a.comment, &b.comment)
}

/// Startup configuration shared, read-only, by all connections.
pub struct PukekoConfig {
    /// The server's own identity key.
    pub server_key: PrivateKey,
    /// The one key allowed to log in.
    pub user_key: PublicKeyBlob,
}

/// Answer to an authentication attempt.
#[derive(PartialEq, Eq, Structural, Clone, Copy, Debug)]
pub enum Auth {
    Accept,
    Reject,
}

/// Size of the remote terminal in character cells.
#[derive(PartialEq, Eq, Structural, Clone, Copy, Debug)]
pub struct Viewport {
    pub width: u16,
    pub height: u16,
}

/// What the transport side is to do after an event.
#[derive(PartialEq, Eq, Structural, Clone, Copy, Debug)]
pub enum SessionAction {
    /// Nothing: the event came while no menu was open, and is only logged.
    Discard,
    /// Redraw the menu.
    Render,
    /// Redraw the menu, then close the channel.
    RenderThenClose,
    /// Resize the drawing surface, then redraw.
    ResizeThenRender(Viewport),
    /// Resize the drawing surface, redraw, then acknowledge the terminal request.
    ResizeRenderThenAck(Viewport),
    /// Close the channel.
    CloseChannel,
}

/// Where a connection stands.
pub enum ConnectionState {
    /// Authenticated or not, with no menu yet.
    Connected,
    /// A menu is open on the session channel.
    AtMenu { menu: PukekoMenu, viewport: Viewport },
}

/// One client connection.
pub struct ClientConnection {
    config: Arc<PukekoConfig>,
    connection_state: ConnectionState,
    id: usize,
}

/// The viewport that a resize to `cols` by `rows` cells gives: each dimension is
/// kept to its low 16 bits.
pub open spec fn viewport_of(cols: u32, rows: u32) -> Viewport {
    Viewport { width: cols as u16, height: rows as u16 }
}

impl ClientConnection {
    pub closed spec fn id_of(&self) -> usize {
        self.id
    }

    pub closed spec fn authorized_key(&self) -> (Seq<u8>, Seq<u8>) {
        self.config.user_key@
    }

    /// The configuration shared with the other connections.
    pub closed spec fn shared_config(&self) -> PukekoConfig {
        *self.config
    }

    pub closed spec fn state(&self) -> ConnectionState {
        self.connection_state
    }

    pub open spec fn at_menu(&self) -> bool {
        self.state() is AtMenu
    }

    pub open spec fn menu(&self) -> PukekoMenu
        recommends
            self.at_menu(),
    {
        self.state()->AtMenu_menu
    }

    pub open spec fn viewport(&self) -> Viewport
        recommends
            self.at_menu(),
    {
        self.state()->AtMenu_viewport
    }

    /// A connection numbered `id`, with no menu yet.
    pub fn new(config: Arc<PukekoConfig>, id: usize) -> (r: Self)
        ensures
            r.id_of() == id,
            r.shared_config() == *config,
            r.authorized_key() == config.user_key@,
            !r.at_menu(),
    {
        ClientConnection { config, connection_state: ConnectionState::Connected, id }
    }

    pub fn id(&self) -> (r: usize)
        ensures
            r == self.id_of(),
    {
        self.id
    }

    pub fn is_at_menu(&self) -> (r: bool)
        ensures
            r == self.at_menu(),
    {
        match &self.connection_state {
            ConnectionState::AtMenu { .. } => true,
            ConnectionState::Connected => false,
        }
    }

    /// The open menu, if any.
    pub fn menu_ref(&self) -> (r: Option<&PukekoMenu>)
        ensures
            self.at_menu() ==> r == Some(&self.menu()),
            !self.at_menu() ==> r is None,
    {
        match &self.connection_state {
            ConnectionState::AtMenu { menu, .. } => Some(menu),
            ConnectionState::Connected => None,
        }
    }

    /// A key offered before a signature: accepted exactly when it is the
    /// authorized key.
    pub fn auth_publickey_offered(&self, public_key: &PublicKeyBlob) -> (r: Auth)
        ensures
            (r == Auth::Accept) == (public_key@ == self.authorized_key()),
            (r == Auth::Reject) == (public_key@ != self.authorized_key()),
    {
        if keys_match(public_key, &self.config.user_key) {
            Auth::Accept
        } else {
            Auth::Reject
        }
    }

    /// A key confirmed by a signature: accepted exactly when it is the authorized
    /// key. Acceptance is the whole of authorization.
    pub fn auth_publickey(&self, public_key: &PublicKeyBlob) -> (r: Auth)
        ensures
            (r == Auth::Accept) == (public_key@ == self.authorized_key()),
            (r == Auth::Reject) == (public_key@ != self.authorized_key()),
    {
        self.auth_publickey_offered(public_key)
    }

    /// Opens the menu on a new session channel. Accepted only while no menu is
    /// open; a second request is refused and changes nothing.
    pub fn channel_open_session(&mut self) -> (r: bool)
        ensures
            r == !old(self).at_menu(),
            final(self).id_of() == old(self).id_of(),
            final(self).authorized_key() == old(self).authorized_key(),
            r ==> final(self).at_menu() && final(self).menu().labels() == default_labels()
                && final(self).menu().model() == (MenuModel {
                selected: Some(0usize),
                state: MenuState::Open,
            }) && final(self).menu().fed() == Seq::<u8>::empty() && final(self).viewport() == (Viewport { width: 0, height: 0 }),
            !r ==> final(self).state() == old(self).state(),
    {
        match self.connection_state {
            ConnectionState::Connected => {
                self.connection_state = ConnectionState::AtMenu {
                    menu: PukekoMenu::new(),
                    viewport: Viewport { width: 0, height: 0 },
                };
                true
            },
            ConnectionState::AtMenu { .. } => false,
        }
    }

    /// Input from the client. With a menu open, the bytes drive the menu and it is
    /// redrawn, and the channel is closed once the menu is closing; without one,
    /// they are discarded. Returns the action and the input actions decoded.
    pub fn data(&mut self, data: &[u8]) -> (r: (SessionAction, Vec<InputAction>))
        ensures
            final(self).id_of() == old(self).id_of(),
            final(self).authorized_key() == old(self).authorized_key(),
            final(self).at_menu() == old(self).at_menu(),
            old(self).at_menu() ==> {
                &&& final(self).viewport() == old(self).viewport()
                &&& final(self).menu().labels() == old(self).menu().labels()
                &&& final(self).menu().fed() == old(self).menu().fed() + data@
                &&& final(self).menu().model() == apply_actions(
                    old(self).menu().model(),
                    old(self).menu().item_count(),
                    r.1@,
                )
                &&& r.1@.len() <= data@.len()
                &&& r.0 == if final(self).menu().model().state == MenuState::Closing {
                    SessionAction::RenderThenClose
                } else {
                    SessionAction::Render
                }
            },
            !old(self).at_menu() ==> r.0 == SessionAction::Discard && r.1@.len() == 0
                && final(self).state() == old(self).state(),
    {
        match &mut self.connection_state {
            ConnectionState::AtMenu { menu, .. } => {
                let decoded = menu.handle_data(data);
                let action = match menu.state() {
                    MenuState::Closing => SessionAction::RenderThenClose,
                    MenuState::Open => SessionAction::Render,
                };
                (action, decoded)
            },
            ConnectionState::Connected => (SessionAction::Discard, Vec::new()),
        }
    }

    fn resize(&mut self, col_width: u32, row_height: u32) -> (r: Option<Viewport>)
        ensures
            final(self).id_of() == old(self).id_of(),
            final(self).authorized_key() == old(self).authorized_key(),
            final(self).at_menu() == old(self).at_menu(),
            old(self).at_menu() ==> r == Some(viewport_of(col_width, row_height))
                && final(self).viewport() == viewport_of(col_width, row_height)
                && final(self).menu() == old(self).menu(),
            !old(self).at_menu() ==> r is None && final(self).state() == old(self).state(),
    {
        match &mut self.connection_state {
            ConnectionState::AtMenu { viewport, .. } => {
                let v = Viewport { width: col_width as u16, height: row_height as u16 };
                *viewport = v;
                Some(v)
            },
            ConnectionState::Connected => None,
        }
    }

    /// The client's terminal changed size. With a menu open the viewport takes the
    /// new size and the menu is redrawn; without one the event is discarded.
    pub fn window_change_request(&mut self, col_width: u32, row_height: u32) -> (r: SessionAction)
        ensures
            final(self).id_of() == old(self).id_of(),
            final(self).authorized_key() == old(self).authorized_key(),
            final(self).at_menu() == old(self).at_menu(),
            old(self).at_menu() ==> r == SessionAction::ResizeThenRender(viewport_of(col_width, row_height))
                && final(self).viewport() == viewport_of(col_width, row_height)
                && final(self).menu() == old(self).menu(),
            !old(self).at_menu() ==> r == SessionAction::Discard && final(self).state() == old(self).state(),
    {
        match self.resize(col_width, row_height) {
            Some(v) => SessionAction::ResizeThenRender(v),
            None => SessionAction::Discard,
        }
    }

    /// The client asked for a pseudo-terminal. With a menu open the viewport takes
    /// the requested size, the menu is redrawn and the request acknowledged;
    /// without one the event is discarded.
    pub fn pty_request(&mut self, col_width: u32, row_height: u32) -> (r: SessionAction)
        ensures
            final(self).id_of() == old(self).id_of(),
            final(self).authorized_key() == old(self).authorized_key(),
            final(self).at_menu() == old(self).at_menu(),
            old(self).at_menu() ==> r == SessionAction::ResizeRenderThenAck(viewport_of(col_width, row_height))
                && final(self).viewport() == viewport_of(col_width, row_height)
                && final(self).menu() == old(self).menu(),
            !old(self).at_menu() ==> r == SessionAction::Discard && final(self).state() == old(self).state(),
    {
        match self.resize(col_width, row_height) {
            Some(v) => SessionAction::ResizeRenderThenAck(v),
            None => SessionAction::Discard,
        }
    }

    /// The client closed the channel: it is closed in turn, whatever the state.
    pub fn channel_close(&self) -> (r: SessionAction)
        ensures
            r == SessionAction::CloseChannel,
    {
        SessionAction::CloseChannel
    }
}

/// Accepts connections and numbers them 1, 2, 3, ... in order of arrival.
pub struct PukekoServer {
    id: usize,
    config: Arc<PukekoConfig>,
}

impl PukekoServer {
    pub closed spec fn last_id(&self) -> usize {
        self.id
    }

    pub closed spec fn authorized_key(&self) -> (Seq<u8>, Seq<u8>) {
        self.config.user_key@
    }

    /// The configuration shared by all connections.
    pub closed spec fn shared_config(&self) -> PukekoConfig {
        *self.config
    }

    /// A registry sharing `config`, as given, with every connection it makes;
    /// none made yet.
    pub fn new(config: PukekoConfig) -> (r: Self)
        ensures
            r.last_id() == 0,
            r.shared_config() == config,
            r.authorized_key() == config.user_key@,
    {
        PukekoServer { id: 0, config: Arc::new(config) }
    }

    pub fn config(&self) -> (r: &PukekoConfig)
        ensures
            *r == self.shared_config(),
            r.user_key@ == self.authorized_key(),
    {
        &self.config
    }

    /// Whether another connection can still be numbered.
    pub fn can_accept(&self) -> (r: bool)
        ensures
            r == (self.last_id() < usize::MAX),
    {
        self.id < usize::MAX
    }

    /// A connection for a newly accepted client, numbered one past the last.
    pub fn new_client(&mut self) -> (r: ClientConnection)
        requires
            old(self).last_id() < usize::MAX,
        ensures
            final(self).last_id() == old(self).last_id() + 1,
            final(self).shared_config() == old(self).shared_config(),
            final(self).authorized_key() == old(self).authorized_key(),
            r.id_of() == final(self).last_id(),
            r.shared_config() == old(self).shared_config(),
            r.authorized_key() == old(self).authorized_key(),
            !r.at_menu(),
    {
        self.id = self.id + 1;
        ClientConnection::new(self.config.clone(), self.id)
    }
}

} // verus!
