//! The client's connection states and the data the local clients keep.

use vstd::prelude::*;

verus! {

/// How far a client's connection has come.
#[derive(Copy, Clone, Default, Debug, PartialEq, Eq, Structural)]
pub enum Connstate {
    #[default]
    DISCONNECTED,
    CINEMATIC,
    UICINEMATIC,
    LOGO,
    CONNECTING,
    CHALLENGING,
    CONNECTED,
    SENDINGSTATS,
    LOADING,
    PRIMED,
    ACTIVE,
}

/// The flags of a client's user interface (none are defined).
#[derive(Copy, Clone, Default, Debug, PartialEq, Eq, Structural)]
pub struct ClientUiActiveFlags {
    pub bits: i32,
}

/// Which parts of the interface take the keys.
#[derive(Copy, Clone, Default, Debug, PartialEq, Eq, Structural)]
pub struct KeyCatchers;

/// The interface state of one local client.
#[derive(Copy, Clone, Default, Debug, PartialEq, Eq, Structural)]
pub struct ClientUiActive {
    pub flags: ClientUiActiveFlags,
    pub key_catchers: KeyCatchers,
    pub connection_state: Connstate,
    pub next_scroll_time: i32,
}

/// How many local clients there are.
pub const LOCAL_CLIENT_COUNT: usize = 4;

/// The interface states of the local clients.
pub struct ClientUiActives {
    pub actives: [ClientUiActive; 4],
}

impl ClientUiActives {
    /// Every local client disconnected, with no flags.
    pub fn new() -> (r: Self)
        ensures
            forall|i: int| 0 <= i < 4 ==> #[trigger] r.actives@[i] == ClientUiActive::default_value(),
    {
        let d = ClientUiActive {
            flags: ClientUiActiveFlags { bits: 0 },
            key_catchers: KeyCatchers,
            connection_state: Connstate::DISCONNECTED,
            next_scroll_time: 0,
        };
        Self { actives: [d, d, d, d] }
    }
}

impl ClientUiActive {
    /// The state of a client before anything happens.
    pub open spec fn default_value() -> ClientUiActive {
        ClientUiActive {
            flags: ClientUiActiveFlags { bits: 0 },
            key_catchers: KeyCatchers,
            connection_state: Connstate::DISCONNECTED,
            next_scroll_time: 0,
        }
    }
}

/// The connection state of local client `local_client_num`, which must be
/// one of the local clients.
pub fn get_local_client_connection_state(uis: &ClientUiActives, local_client_num: usize) -> (r: Connstate)
    requires
        local_client_num < LOCAL_CLIENT_COUNT,
    ensures
        r == uis.actives@[local_client_num as int].connection_state,
{
    uis.actives[local_client_num].connection_state
}

/// The interface states of the local clients, to change.
pub fn get_local_client_ui_actives_mut(uis: &mut ClientUiActives) -> (r: &mut [ClientUiActive; 4])
    ensures
        *r == old(uis).actives,
        final(uis).actives == *final(r),
{
    &mut uis.actives
}

/// A snapshot of the game (not filled in yet).
#[derive(Copy, Clone, Default, Debug, PartialEq, Eq, Structural)]
pub struct Snapshot;

/// A packet sent to the server.
#[derive(Copy, Clone, Default, Debug, PartialEq, Eq, Structural)]
pub struct OutPacket {
    pub cmd_num: i32,
    pub server_time: i32,
    pub real_time: i32,
}

/// The state of an entity (not filled in yet).
#[derive(Copy, Clone, Default, Debug, PartialEq, Eq, Structural)]
pub struct EntityState;

/// The id of a server.
#[derive(Copy, Clone, Default, Debug, PartialEq, Eq, Structural)]
pub struct ServerId(pub i32);

/// What a local client keeps of the use button: whether it is held, when
/// it was pressed (in milliseconds) and how often it was tapped in a row.
#[derive(Copy, Clone, Default, Debug, PartialEq, Eq, Structural)]
pub struct ClientUse {
    pub use_held: bool,
    pub use_time: i32,
    pub use_count: i32,
}

} // verus!
