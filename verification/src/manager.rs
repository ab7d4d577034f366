//! The session manager: the registries of live connections and shells, and
//! the entry points that address a shell by its token.

use vstd::prelude::*;

use crate::channel::ChannelRequest;
use crate::error::Error;
use crate::lifecycle::{Activation, Lifecycle};
use crate::mirror::{MirrorInput, last_geometry, resized, snapshot_cursor, snapshot_rows, usable};
use crate::registry::Registry;
use crate::shell::{ScreenStep, Shell};
use crate::token::{ShellToken, TokenView};

verus! {

/// One authenticated transport session, as the registry files it.
#[derive(Debug, Clone, PartialEq, Eq)]
pub struct Connection {
    /// The identifier that the tokens of this connection's shells carry.
    pub id: u128,
    /// The key under which the connection is filed.
    pub key: String,
    /// The name of the device at the other end.
    pub device: String,
}

/// The live connections, filed by key, and the live shells, filed by token.
pub struct SessionManager {
    shells: Registry<ShellToken, Shell>,
    connections: Registry<String, Connection>,
}

impl Default for SessionManager {
    /// A manager without connections or shells.
    fn default() -> (manager: SessionManager)
        ensures
            manager.wf(),
            manager.shells() == Map::<TokenView, Shell>::empty(),
            manager.connections() == Map::<Seq<char>, Connection>::empty(),
    {
        SessionManager::new()
    }
}

impl SessionManager {
    /// Both registries file at most one entry per key, and every shell's
    /// mirror has only ever had usable geometries.
    pub closed spec fn wf(&self) -> bool {
        &&& self.shells.wf()
        &&& self.connections.wf()
        &&& forall|token: TokenView| #[trigger]
            self.shells@.contains_key(token) ==> self.shells@[token].wf()
    }

    /// The live shells by token.
    pub closed spec fn shells(&self) -> Map<TokenView, Shell> {
        self.shells@
    }

    /// The live connections by key.
    pub closed spec fn connections(&self) -> Map<Seq<char>, Connection> {
        self.connections@
    }

    /// A manager without connections or shells.
    pub fn new() -> (manager: SessionManager)
        ensures
            manager.wf(),
            manager.shells() == Map::<TokenView, Shell>::empty(),
            manager.connections() == Map::<Seq<char>, Connection>::empty(),
    {
        SessionManager { shells: Registry::new(), connections: Registry::new() }
    }

    /// Files an established connection under its key and hands the key back.
    /// A connection already filed under that key is replaced.
    pub fn connect(&mut self, connection: Connection) -> (key: String)
        requires
            old(self).wf(),
        ensures
            final(self).wf(),
            key@ == connection.key@,
            final(self).connections() == old(self).connections().insert(
                connection.key@,
                connection,
            ),
            final(self).shells() == old(self).shells(),
    {
        let key = connection.key.clone();
        let filed = connection.key.clone();
        self.connections.insert(filed, connection);
        key
    }

    /// Takes the connection filed under `key` out of the registry. Where
    /// there is none, nothing changes and nothing is handed back.
    pub fn disconnect(&mut self, key: &String) -> (removed: Option<Connection>)
        requires
            old(self).wf(),
        ensures
            final(self).wf(),
            final(self).connections() == old(self).connections().remove(key@),
            final(self).shells() == old(self).shells(),
            removed == if old(self).connections().contains_key(key@) {
                Some(old(self).connections()[key@])
            } else {
                None
            },
    {
        self.connections.remove(key)
    }

    /// Whether the connection that `shell` runs on is still filed: an entry
    /// under the shell's connection key, with the identifier that the shell's
    /// token carries.
    pub open spec fn linked(&self, shell: Shell) -> bool {
        &&& self.connections().contains_key(shell.connection())
        &&& self.connections()[shell.connection()].id == shell.address().connection_id
    }

    /// Whether the connection that `shell` runs on is still filed.
    fn is_linked(&self, shell: &Shell) -> (linked: bool)
        requires
            self.wf(),
        ensures
            linked == self.linked(*shell),
    {
        match self.connections.get(shell.connection_key()) {
            Some(connection) => connection.id == shell.token().connection_id,
            None => false,
        }
    }

    /// Files a new shell for the channel `channel_id` of the connection
    /// under `connection_key`, and hands back its token: the connection's
    /// identifier and the channel's. Fails when no connection is filed under
    /// that key.
    pub fn open_shell(&mut self, connection_key: &String, channel_id: String) -> (opened: Result<
        ShellToken,
        Error,
    >)
        requires
            old(self).wf(),
        ensures
            final(self).wf(),
            final(self).connections() == old(self).connections(),
            match opened {
                Ok(token) => {
                    &&& old(self).connections().contains_key(connection_key@)
                    &&& token.connection_id == old(self).connections()[connection_key@].id
                    &&& token.channel_id == channel_id
                    &&& final(self).shells().contains_key(token@)
                    &&& final(self).shells() == old(self).shells().insert(
                        token@,
                        final(self).shells()[token@],
                    )
                    &&& final(self).shells()[token@].address() == token
                    &&& final(self).shells()[token@].connection() == connection_key@
                    &&& final(self).shells()[token@].state() == Lifecycle::created()
                    &&& final(self).shells()[token@].mirror() == seq![
                        MirrorInput::Resize { rows: 24, cols: 80 },
                    ]
                },
                Err(e) => {
                    &&& !old(self).connections().contains_key(connection_key@)
                    &&& e.is_not_found()
                    &&& final(self).shells() == old(self).shells()
                },
            },
    {
        let connection_id = match self.connections.get(connection_key) {
            Some(connection) => connection.id,
            None => {
                return Err(Error::not_found());
            },
        };
        let token = ShellToken { connection_id, channel_id };
        let shell = Shell::new(token.duplicate(), connection_key.clone());
        self.shells.insert(token.duplicate(), shell);
        Ok(token)
    }

    /// The shell that `token` addresses.
    pub fn shell(&self, token: &ShellToken) -> (found: Result<&Shell, Error>)
        requires
            self.wf(),
        ensures
            match found {
                Ok(shell) => self.shells().contains_key(token@) && *shell == self.shells()[token@]
                    && shell.wf(),
                Err(e) => !self.shells().contains_key(token@) && e.is_not_found(),
            },
    {
        match self.shells.get(token) {
            Some(shell) => Ok(shell),
            None => Err(Error::not_found()),
        }
    }

    /// The shell that `token` addresses, to be changed in place.
    pub fn shell_mut(&mut self, token: &ShellToken) -> (found: Result<&mut Shell, Error>)
        requires
            old(self).wf(),
        ensures
            final(self).connections() == old(self).connections(),
            match found {
                Ok(shell) => {
                    &&& old(self).shells().contains_key(token@)
                    &&& *shell == old(self).shells()[token@]
                    &&& shell.wf()
                    &&& final(self).shells() == old(self).shells().insert(token@, *final(shell))
                    &&& final(shell).wf() ==> final(self).wf()
                },
                Err(e) => {
                    &&& !old(self).shells().contains_key(token@)
                    &&& e.is_not_found()
                    &&& final(self).shells() == old(self).shells()
                    &&& final(self).wf()
                },
            },
    {
        match self.shells.get_mut(token) {
            Some(shell) => Ok(shell),
            None => Err(Error::not_found()),
        }
    }

    /// The shell that `token` addresses, provided its connection is still
    /// filed: the not-found condition for an unknown token, the disconnected
    /// condition for a shell whose connection is gone.
    pub fn live_shell(&self, token: &ShellToken) -> (found: Result<&Shell, Error>)
        requires
            self.wf(),
        ensures
            match found {
                Ok(shell) => self.shells().contains_key(token@) && *shell == self.shells()[token@]
                    && shell.wf() && self.linked(*shell),
                Err(e) => if self.shells().contains_key(token@) {
                    !self.linked(self.shells()[token@]) && e.is_disconnected()
                } else {
                    e.is_not_found()
                },
            },
    {
        match self.shells.get(token) {
            Some(shell) => if self.is_linked(shell) {
                Ok(shell)
            } else {
                Err(Error::disconnected())
            },
            None => Err(Error::not_found()),
        }
    }

    /// Accepts bytes for the outbound queue of the shell that `token`
    /// addresses: the bytes to queue, the not-found condition for an unknown
    /// token, the disconnected condition for a shell whose connection is gone
    /// or that has no sender.
    pub fn write(&self, token: &ShellToken, data: &[u8]) -> (queued: Result<Vec<u8>, Error>)
        requires
            self.wf(),
        ensures
            match queued {
                Ok(bytes) => {
                    &&& self.shells().contains_key(token@)
                    &&& self.linked(self.shells()[token@])
                    &&& self.shells()[token@].state().sender
                    &&& bytes@ == data@
                },
                Err(e) => if self.shells().contains_key(token@) {
                    &&& !(self.linked(self.shells()[token@]) && self.shells()[token@].state().sender)
                    &&& e.is_disconnected()
                } else {
                    e.is_not_found()
                },
            },
    {
        match self.live_shell(token) {
            Ok(shell) => shell.write(data),
            Err(e) => Err(e),
        }
    }

    /// Decides a resize of the shell that `token` addresses: the not-found
    /// condition for an unknown token, the disconnected condition for a shell
    /// whose connection is gone or whose channel was taken, a refusal for a
    /// size that the mirror cannot take, and otherwise the window-change
    /// request to issue.
    pub fn resize(&self, token: &ShellToken, cols: u16, rows: u16) -> (request: Result<
        ChannelRequest,
        Error,
    >)
        requires
            self.wf(),
        ensures
            match request {
                Ok(r) => {
                    &&& self.shells().contains_key(token@)
                    &&& self.linked(self.shells()[token@])
                    &&& self.shells()[token@].state().channel
                    &&& usable(rows, cols)
                    &&& r == (ChannelRequest::WindowChange {
                        col_width: cols as u32,
                        row_height: rows as u32,
                        pix_width: 0,
                        pix_height: 0,
                    })
                },
                Err(e) => if !self.shells().contains_key(token@) {
                    e.is_not_found()
                } else if !(self.linked(self.shells()[token@]) && self.shells()[token@].state().channel) {
                    e.is_disconnected()
                } else {
                    !usable(rows, cols) && e.is_invalid_size()
                },
            },
    {
        match self.live_shell(token) {
            Ok(shell) => shell.resize(cols, rows),
            Err(e) => Err(e),
        }
    }

    /// Asks for the screen of the shell that `token` addresses, for a
    /// terminal of `cols` columns and `rows` rows: the not-found condition for
    /// an unknown token, the disconnected condition for a shell whose
    /// connection is gone, and otherwise what the shell answers.
    pub fn screen(&mut self, token: &ShellToken, cols: u16, rows: u16) -> (step: Result<
        ScreenStep,
        Error,
    >)
        requires
            old(self).wf(),
        ensures
            final(self).wf(),
            final(self).connections() == old(self).connections(),
            !old(self).shells().contains_key(token@) ==> (step matches Err(e) && e.is_not_found())
                && final(self).shells() == old(self).shells(),
            old(self).shells().contains_key(token@) ==> {
                let before = old(self).shells()[token@];
                let after = final(self).shells()[token@];
                &&& final(self).shells() == old(self).shells().insert(token@, after)
                &&& after.address() == before.address()
                &&& after.connection() == before.connection()
                &&& after.state() == before.state()
                &&& if !old(self).linked(before) {
                    &&& step matches Err(e)
                    &&& e.is_disconnected()
                    &&& after.mirror() == before.mirror()
                } else {
                    match before.state().activation() {
                        Activation::NotNeeded => {
                            &&& step matches Ok(ScreenStep::Ready(buffer))
                            &&& buffer.lines() == snapshot_rows(before.mirror(), cols)
                            &&& buffer.cursor == snapshot_cursor(before.mirror())
                            &&& buffer.lines().len() <= last_geometry(before.mirror()).0
                            &&& buffer.cursor.1 < last_geometry(before.mirror()).0
                            &&& buffer.cursor.0 <= last_geometry(before.mirror()).1
                            &&& after.mirror() == before.mirror()
                        },
                        Activation::Negotiate => if usable(rows, cols) {
                            &&& step matches Ok(ScreenStep::Activate(request))
                            &&& request.is_pty(cols, rows)
                            &&& after.mirror() == resized(before.mirror(), rows, cols)
                        } else {
                            &&& step matches Err(e)
                            &&& e.is_invalid_size()
                            &&& after.mirror() == before.mirror()
                        },
                        Activation::Disconnected => {
                            &&& step matches Err(e)
                            &&& e.is_disconnected()
                            &&& after.mirror() == before.mirror()
                        },
                    }
                }
            },
    {
        match self.live_shell(token) {
            Ok(_) => {},
            Err(e) => {
                assert(old(self).shells().contains_key(token@) ==> old(self).shells()
                    =~= old(self).shells().insert(token@, old(self).shells()[token@]));
                return Err(e);
            },
        }
        match self.shells.get_mut(token) {
            Some(shell) => shell.screen(cols, rows),
            None => Err(Error::not_found()),
        }
    }

    /// Closes the shell that `token` addresses and takes it out of the
    /// registry, whether or not its connection is still filed. Hands back
    /// the channel-close to issue when the shell still owned its channel.
    /// Fails for an unknown token.
    pub fn close(&mut self, token: &ShellToken) -> (request: Result<Option<ChannelRequest>, Error>)
        requires
            old(self).wf(),
        ensures
            final(self).wf(),
            final(self).connections() == old(self).connections(),
            final(self).shells() == old(self).shells().remove(token@),
            match request {
                Ok(r) => old(self).shells().contains_key(token@) && r == if old(
                    self,
                ).shells()[token@].state().channel {
                    Some(ChannelRequest::Close)
                } else {
                    None
                },
                Err(e) => !old(self).shells().contains_key(token@) && e.is_not_found(),
            },
    {
        match self.shells.remove(token) {
            Some(shell) => {
                let mut shell = shell;
                Ok(shell.close())
            },
            None => Err(Error::not_found()),
        }
    }
}

} // verus!
