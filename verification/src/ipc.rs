//! The Discord IPC client's decisions: where to look for Discord, when to
//! (re)connect, and what to send.

use vstd::prelude::*;
use vstd::utf8::encode_utf8;
use crate::config::{joins, path_join, plain_relative_path, verbatim_path};
use crate::packet::{decimal, decimal_string, encode_frame, frame_bytes, Opcode, CLOSE_PAYLOAD};
use crate::text::{concat3, opt_view};

verus! {

/// What `ensure_connected` has to do for a Client ID.
#[derive(Debug, PartialEq, Eq, Structural)]
pub enum ConnectPlan {
    /// Already connected with this Client ID: nothing
    AlreadyConnected,
    /// (Re)connect; close the current connection first if there is one
    Connect { disconnect_first: bool },
}

/// Why a frame cannot be sent.
#[derive(Debug, PartialEq, Eq, Structural)]
pub enum IpcError {
    /// There is no connection to Discord
    NotConnected,
}

/// The connection state of the IPC client: whether it is connected, and
/// under which Client ID.
pub struct IpcSession {
    connected: bool,
    active_client_id: Option<String>,
}

/// The plan for connecting under `id` from a state.
pub open spec fn plan_for(connected: bool, active: Option<Seq<char>>, id: Seq<char>) -> ConnectPlan {
    if connected && active == Some(id) {
        ConnectPlan::AlreadyConnected
    } else {
        ConnectPlan::Connect { disconnect_first: connected }
    }
}

impl IpcSession {
    /// Whether a connection is open.
    pub closed spec fn is_open(&self) -> bool {
        self.connected
    }

    /// The Client ID of the open connection.
    pub closed spec fn client(&self) -> Option<Seq<char>> {
        opt_view(self.active_client_id)
    }

    /// Not connected.
    pub fn new() -> (r: Self)
        ensures
            !r.is_open(),
            r.client() is None,
    {
        IpcSession { connected: false, active_client_id: None }
    }

    /// Whether a connection is open.
    pub fn is_connected(&self) -> (r: bool)
        ensures
            r == self.is_open(),
    {
        self.connected
    }

    /// The Client ID of the connection, if any.
    pub fn active_client_id(&self) -> (r: Option<&str>)
        ensures
            match r {
                Some(s) => self.client() == Some(s@),
                None => self.client() is None,
            },
    {
        match &self.active_client_id {
            Some(s) => Some(s.as_str()),
            None => None,
        }
    }

    /// What `ensure_connected` has to do for `client_id`: nothing if already
    /// connected with the same Client ID; otherwise close any connection and
    /// connect anew.
    pub fn connect_plan(&self, client_id: &str) -> (r: ConnectPlan)
        ensures
            r == plan_for(self.is_open(), self.client(), client_id@),
    {
        if self.connected {
            if let Some(current) = &self.active_client_id {
                let wanted = client_id.to_owned();
                if *current == wanted {
                    return ConnectPlan::AlreadyConnected;
                }
            }
        }
        ConnectPlan::Connect { disconnect_first: self.connected }
    }

    /// The connection was closed.
    pub fn on_disconnected(&mut self)
        ensures
            !final(self).is_open(),
            final(self).client() is None,
    {
        self.connected = false;
        self.active_client_id = None;
    }

    /// A connection attempt under `client_id` succeeded or failed.
    pub fn on_connect_result(&mut self, client_id: &str, success: bool)
        ensures
            final(self).is_open() == success,
            final(self).client() == if success {
                Some(client_id@)
            } else {
                None
            },
    {
        if success {
            self.connected = true;
            self.active_client_id = Some(client_id.to_owned());
        } else {
            self.connected = false;
            self.active_client_id = None;
        }
    }

    /// The frame that carries a `SET_ACTIVITY` command (JSON text), or an
    /// error when not connected.
    pub fn activity_frame(&self, command_json: &str) -> (r: Result<Vec<u8>, IpcError>)
        ensures
            self.is_open() ==> (r matches Ok(b) && b@ == frame_bytes(Opcode::Frame, encode_utf8(command_json@))),
            !self.is_open() ==> r == Err::<Vec<u8>, IpcError>(IpcError::NotConnected),
    {
        if self.connected {
            Ok(encode_frame(Opcode::Frame, command_json))
        } else {
            Err(IpcError::NotConnected)
        }
    }

    /// The frame that clears the presence (JSON text), if connected; clearing
    /// while not connected sends nothing.
    pub fn clear_frame(&self, command_json: &str) -> (r: Option<Vec<u8>>)
        ensures
            self.is_open() ==> (r matches Some(b) && b@ == frame_bytes(Opcode::Frame, encode_utf8(command_json@))),
            !self.is_open() ==> r is None,
    {
        if self.connected {
            Some(encode_frame(Opcode::Frame, command_json))
        } else {
            None
        }
    }
}

/// The frame that opens a connection: the handshake (JSON text).
pub fn handshake_frame(handshake_json: &str) -> (r: Vec<u8>)
    ensures
        r@ == frame_bytes(Opcode::Handshake, encode_utf8(handshake_json@)),
{
    encode_frame(Opcode::Handshake, handshake_json)
}

/// The frame that closes a connection.
pub fn close_frame() -> (r: Vec<u8>)
    ensures
        r@ == frame_bytes(Opcode::Close, encode_utf8(CLOSE_PAYLOAD@)),
{
    encode_frame(Opcode::Close, CLOSE_PAYLOAD)
}

/// Once connected under a Client ID, asking to be connected under the same
/// Client ID again needs nothing; asking for another one reconnects after
/// closing the current connection.
pub proof fn connect_is_idempotent(id: Seq<char>, other: Seq<char>)
    ensures
        plan_for(true, Some(id), id) == ConnectPlan::AlreadyConnected,
        other != id ==> plan_for(true, Some(id), other) == (ConnectPlan::Connect {
            disconnect_first: true,
        }),
        plan_for(false, None, id) == (ConnectPlan::Connect { disconnect_first: false }),
{
}

} // verus!

verus! {

/// The Flatpak runtime directory of Discord, relative to `XDG_RUNTIME_DIR`.
pub const FLATPAK_DIR: &'static str = "app/com.discordapp.Discord";

/// The Flatpak runtime directory of Discord Canary, relative to
/// `XDG_RUNTIME_DIR`.
pub const FLATPAK_CANARY_DIR: &'static str = "app/com.discordapp.DiscordCanary";

/// The prefix of the IPC socket and pipe names; the index 0..9 follows it.
pub const IPC_NAME_PREFIX: &'static str = "discord-ipc-";

/// The prefix of the Windows named pipes.
pub const PIPE_PREFIX: &'static str = "\\\\.\\pipe\\discord-ipc-";

/// The number of IPC sockets or pipes Discord may listen on.
pub const IPC_SLOTS: usize = 10;

/// The one-element sequence of a set value, or nothing.
pub open spec fn opt_seq(o: Option<Seq<char>>) -> Seq<Seq<char>> {
    match o {
        Some(x) => seq![x],
        None => seq![],
    }
}

/// The views of a vector of strings.
pub open spec fn string_views(v: Seq<String>) -> Seq<Seq<char>> {
    v.map_values(|s: String| s@)
}

/// The directories searched for Discord's socket, before the Flatpak ones:
/// `XDG_RUNTIME_DIR`, `TMPDIR`, `TMP`, `TEMP` (those set), then `/tmp`.
pub open spec fn plain_socket_dirs(
    xdg: Option<Seq<char>>,
    tmpdir: Option<Seq<char>>,
    tmp: Option<Seq<char>>,
    temp: Option<Seq<char>>,
) -> Seq<Seq<char>> {
    opt_seq(xdg) + opt_seq(tmpdir) + opt_seq(tmp) + opt_seq(temp) + seq!["/tmp"@]
}

fn push_opt(v: &mut Vec<String>, o: &Option<String>)
    ensures
        string_views(final(v)@) == string_views(old(v)@) + opt_seq(opt_view(*o)),
{
    let ghost before = string_views(v@);
    match o {
        Some(s) => {
            v.push(s.clone());
            assert(string_views(v@) =~= before + seq![s@]);
        },
        None => {
            assert(string_views(v@) =~= before + Seq::<Seq<char>>::empty());
        },
    }
}

/// The directories searched, in order, for Discord's Unix socket, given the
/// values of `XDG_RUNTIME_DIR`, `TMPDIR`, `TMP` and `TEMP`: those set, then
/// `/tmp`, then (with `XDG_RUNTIME_DIR` set) its Flatpak directories of
/// Discord and Discord Canary.
pub fn socket_dirs(
    xdg: &Option<String>,
    tmpdir: &Option<String>,
    tmp: &Option<String>,
    temp: &Option<String>,
) -> (r: Vec<String>)
    ensures
        ({
            let plain = plain_socket_dirs(opt_view(*xdg), opt_view(*tmpdir), opt_view(*tmp), opt_view(*temp));
            &&& string_views(r@).subrange(0, plain.len() as int) == plain
            &&& match xdg {
                None => r@.len() == plain.len(),
                Some(x) => r@.len() == plain.len() + 2 && (!verbatim_path(x@) ==> joins(
                    r@[plain.len() as int]@,
                    x@,
                    FLATPAK_DIR@,
                ) && joins(r@[plain.len() as int + 1]@, x@, FLATPAK_CANARY_DIR@)),
            }
        }),
{
    let mut v: Vec<String> = Vec::new();
    assert(string_views(v@) =~= Seq::<Seq<char>>::empty());
    push_opt(&mut v, xdg);
    push_opt(&mut v, tmpdir);
    push_opt(&mut v, tmp);
    push_opt(&mut v, temp);
    let ghost before = string_views(v@);
    v.push("/tmp".to_owned());
    assert(string_views(v@) =~= before + seq!["/tmp"@]);
    let ghost plain = string_views(v@);
    assert(plain =~= plain_socket_dirs(opt_view(*xdg), opt_view(*tmpdir), opt_view(*tmp), opt_view(*temp)));
    if let Some(x) = xdg {
        proof {
            reveal_strlit("app/com.discordapp.Discord");
            reveal_strlit("app/com.discordapp.DiscordCanary");
        }
        v.push(path_join(x.as_str(), FLATPAK_DIR));
        v.push(path_join(x.as_str(), FLATPAK_CANARY_DIR));
    }
    assert(string_views(v@).subrange(0, plain.len() as int) =~= plain);
    v
}

/// The name of IPC slot `i`: `discord-ipc-<i>`.
pub open spec fn ipc_name(i: nat) -> Seq<char> {
    IPC_NAME_PREFIX@ + decimal(i)
}

proof fn lemma_decimal_plain(n: nat)
    ensures
        decimal(n).len() > 0,
        forall|k: int| 0 <= k < decimal(n).len() ==> '0' <= #[trigger] decimal(n)[k] <= '9',
    decreases n,
{
    if n >= 10 {
        lemma_decimal_plain(n / 10);
    }
}

fn ipc_slot_name(i: usize) -> (r: String)
    requires
        i < IPC_SLOTS,
    ensures
        r@ == ipc_name(i as nat),
        plain_relative_path(r@),
{
    let d = decimal_string(i as u128);
    let r = concat3(IPC_NAME_PREFIX, d.as_str(), "");
    proof {
        reveal_strlit("discord-ipc-");
        reveal_strlit("");
        lemma_decimal_plain(i as nat);
        assert(r@ =~= ipc_name(i as nat));
    }
    r
}

/// The Unix socket paths tried, in order: in each directory, the sockets
/// `discord-ipc-0` to `discord-ipc-9`.
pub fn socket_paths(dirs: &Vec<String>) -> (r: Vec<String>)
    requires
        dirs@.len() * IPC_SLOTS <= usize::MAX,
    ensures
        r@.len() == dirs@.len() * IPC_SLOTS,
        forall|d: int, i: int|
            0 <= d < dirs@.len() && 0 <= i < IPC_SLOTS && !verbatim_path(dirs@[d]@) ==> joins(
                #[trigger] r@[d * IPC_SLOTS + i]@,
                dirs@[d]@,
                ipc_name(i as nat),
            ),
{
    let mut v: Vec<String> = Vec::new();
    let mut d: usize = 0;
    while d < dirs.len()
        invariant
            d <= dirs@.len(),
            dirs@.len() * IPC_SLOTS <= usize::MAX,
            v@.len() == d * IPC_SLOTS,
            forall|dd: int, i: int|
                0 <= dd < d && 0 <= i < IPC_SLOTS && !verbatim_path(dirs@[dd]@) ==> joins(
                    #[trigger] v@[dd * IPC_SLOTS + i]@,
                    dirs@[dd]@,
                    ipc_name(i as nat),
                ),
        decreases dirs@.len() - d,
    {
        let mut i: usize = 0;
        while i < IPC_SLOTS
            invariant
                d < dirs@.len(),
                i <= IPC_SLOTS,
                v@.len() == d * IPC_SLOTS + i,
                forall|dd: int, k: int|
                    0 <= dd < d && 0 <= k < IPC_SLOTS && !verbatim_path(dirs@[dd]@) ==> joins(
                        #[trigger] v@[dd * IPC_SLOTS + k]@,
                        dirs@[dd]@,
                        ipc_name(k as nat),
                    ),
                forall|k: int| 0 <= k < i && !verbatim_path(dirs@[d as int]@) ==> joins(
                    #[trigger] v@[d * IPC_SLOTS + k]@,
                    dirs@[d as int]@,
                    ipc_name(k as nat),
                ),
            decreases IPC_SLOTS - i,
        {
            let name = ipc_slot_name(i);
            let p = path_join(dirs[d].as_str(), name.as_str());
            v.push(p);
            proof {
                assert forall|dd: int, k: int|
                    0 <= dd < d && 0 <= k < IPC_SLOTS && !verbatim_path(dirs@[dd]@) implies joins(
                        #[trigger] v@[dd * IPC_SLOTS + k]@,
                        dirs@[dd]@,
                        ipc_name(k as nat),
                    ) by {
                    assert(dd * IPC_SLOTS + k < d * IPC_SLOTS) by (nonlinear_arith)
                        requires
                            0 <= dd < d,
                            0 <= k < IPC_SLOTS,
                            IPC_SLOTS == 10,
                    ;
                }
            }
            i = i + 1;
        }
        proof {
            assert forall|dd: int, k: int|
                0 <= dd < d + 1 && 0 <= k < IPC_SLOTS && !verbatim_path(dirs@[dd]@) implies joins(
                    #[trigger] v@[dd * IPC_SLOTS + k]@,
                    dirs@[dd]@,
                    ipc_name(k as nat),
                ) by {
                if dd == d {
                }
            }
            assert((d + 1) * IPC_SLOTS == d * IPC_SLOTS + IPC_SLOTS) by (nonlinear_arith);
            assert((d + 1) * IPC_SLOTS <= dirs@.len() * IPC_SLOTS) by (nonlinear_arith)
                requires
                    d + 1 <= dirs@.len(),
            ;
        }
        d = d + 1;
    }
    v
}

/// The Windows named pipes tried, in order: `\\.\pipe\discord-ipc-0` to
/// `\\.\pipe\discord-ipc-9`.
pub fn pipe_names() -> (r: Vec<String>)
    ensures
        r@.len() == IPC_SLOTS,
        forall|i: int| 0 <= i < IPC_SLOTS ==> #[trigger] r@[i]@ == PIPE_PREFIX@ + decimal(i as nat),
{
    let mut v: Vec<String> = Vec::new();
    let mut i: usize = 0;
    while i < IPC_SLOTS
        invariant
            i <= IPC_SLOTS,
            v@.len() == i,
            forall|k: int| 0 <= k < i ==> #[trigger] v@[k]@ == PIPE_PREFIX@ + decimal(k as nat),
        decreases IPC_SLOTS - i,
    {
        let d = decimal_string(i as u128);
        let name = concat3(PIPE_PREFIX, d.as_str(), "");
        proof {
            reveal_strlit("");
            assert(name@ =~= PIPE_PREFIX@ + decimal(i as nat));
        }
        v.push(name);
        i = i + 1;
    }
    v
}

} // verus!
