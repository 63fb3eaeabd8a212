//! The record of one session.
//!
//! The engine owns the negotiation; the bridge owns what it has to keep
//! straight around it: which configuration the session is bound to, which
//! adapters are installed at the moment, what the engine has told it about the
//! algorithms in use, and where a private-key operation stands.

use vstd::prelude::*;
use crate::config::Config;
use crate::enums::HashAlgorithm;
use crate::enums::Mode;
use crate::enums::SignatureAlgorithm;
use crate::enums::WakeHandle;
use crate::error::Error;

verus! {

/// The adapters a driven operation installs into a session, and takes out
/// again before it returns.
#[derive(Clone, Copy, Debug, PartialEq, Eq, Structural)]
pub struct IoHooks {
    pub receive_callback: bool,
    pub send_callback: bool,
    pub receive_context: bool,
    pub send_context: bool,
    pub waker: Option<WakeHandle>,
}

impl IoHooks {
    /// Nothing installed.
    pub open spec fn idle() -> IoHooks {
        IoHooks {
            receive_callback: false,
            send_callback: false,
            receive_context: false,
            send_context: false,
            waker: None,
        }
    }

    /// Both adapters, their context and this wake handle.
    pub open spec fn installed(waker: WakeHandle) -> IoHooks {
        IoHooks {
            receive_callback: true,
            send_callback: true,
            receive_context: true,
            send_context: true,
            waker: Some(waker),
        }
    }
}

/// What the engine has reported of the algorithms it settled on.
#[derive(Clone, Copy, Debug, PartialEq, Eq, Structural)]
pub struct Selection {
    pub signature: Option<SignatureAlgorithm>,
    pub hash: Option<HashAlgorithm>,
    pub client_signature: Option<SignatureAlgorithm>,
    pub client_hash: Option<HashAlgorithm>,
}

impl Selection {
    /// Nothing settled yet.
    pub open spec fn none() -> Selection {
        Selection { signature: None, hash: None, client_signature: None, client_hash: None }
    }
}

/// Where the private-key operation of a session stands.
#[derive(Debug, PartialEq, Eq)]
pub enum KeyExchange {
    /// The engine waits for no private-key result.
    Idle,
    /// The engine has raised the operation with this handle and is suspended
    /// until its output arrives.
    Awaiting { handle: usize },
    /// The output has been applied; the engine may resume.
    Answered { output: Vec<u8> },
}

/// [`KeyExchange`] as a mathematical value.
pub enum KeyExchangeView {
    Idle,
    Awaiting { handle: usize },
    Answered { output: Seq<u8> },
}

impl View for KeyExchange {
    type V = KeyExchangeView;

    open spec fn view(&self) -> KeyExchangeView {
        match *self {
            KeyExchange::Idle => KeyExchangeView::Idle,
            KeyExchange::Awaiting { handle } => KeyExchangeView::Awaiting { handle },
            KeyExchange::Answered { output } => KeyExchangeView::Answered { output: output@ },
        }
    }
}

/// A session as a mathematical value.
pub struct Session {
    pub mode: Mode,
    pub config: Option<Config>,
    pub usable: bool,
    pub server_name: Option<Seq<char>>,
    pub io: IoHooks,
    pub selection: Selection,
    pub key_exchange: KeyExchangeView,
}

impl Session {
    /// A session that has not been used: no adapter installed, nothing
    /// negotiated, no private-key operation in flight.
    pub open spec fn fresh(mode: Mode, config: Option<Config>) -> Session {
        Session {
            mode,
            config,
            usable: true,
            server_name: None,
            io: IoHooks::idle(),
            selection: Selection::none(),
            key_exchange: KeyExchangeView::Idle,
        }
    }

    /// Whether the session is in the state a reset leaves it in.
    pub open spec fn is_clean(self) -> bool {
        self == Session::fresh(self.mode, self.config)
    }

    /// The session after a reset: as new, but still bound to its
    /// configuration.
    pub open spec fn wiped(self) -> Session {
        Session::fresh(self.mode, self.config)
    }

    /// The session bound to `config`.
    pub open spec fn bound_to(self, config: Config) -> Session {
        Session { config: Some(config), ..self }
    }

    /// The session with these adapters.
    pub open spec fn with_io(self, io: IoHooks) -> Session {
        Session { io, ..self }
    }

    /// Whether no adapter, context or wake handle is installed.
    pub open spec fn io_idle(self) -> bool {
        self.io == IoHooks::idle()
    }
}

/// One session.
#[derive(Debug)]
pub struct Connection {
    mode: Mode,
    config: Option<Config>,
    usable: bool,
    server_name: Option<String>,
    io: IoHooks,
    selection: Selection,
    key_exchange: KeyExchange,
}

impl View for Connection {
    type V = Session;

    closed spec fn view(&self) -> Session {
        Session {
            mode: self.mode,
            config: self.config,
            usable: self.usable,
            server_name: match self.server_name {
                Some(name) => Some(name@),
                None => None,
            },
            io: self.io,
            selection: self.selection,
            key_exchange: self.key_exchange@,
        }
    }
}

/// Anything that can produce a session for one end of a negotiation.
pub trait Builder {
    /// What this builder promises of a session it produced for `mode`.
    spec fn builds(&self, mode: Mode, session: Session) -> bool;

    /// The errors with which this builder may decline to build for `mode`.
    spec fn declines(&self, mode: Mode, e: Error) -> bool;

    fn build_connection(&self, mode: Mode) -> (r: Result<Connection, Error>)
        ensures
            r matches Ok(conn) ==> self.builds(mode, conn@),
            r matches Err(e) ==> self.declines(mode, e),
    ;
}

impl Builder for Config {
    /// A configuration builds unused sessions bound to itself.
    open spec fn builds(&self, mode: Mode, session: Session) -> bool {
        session == Session::fresh(mode, Some(*self))
    }

    /// A configuration never declines.
    open spec fn declines(&self, mode: Mode, e: Error) -> bool {
        false
    }

    fn build_connection(&self, mode: Mode) -> (r: Result<Connection, Error>) {
        let mut conn = Connection::new(mode);
        conn.config = Some(*self);
        Ok(conn)
    }
}

impl Connection {
    /// A session that is bound to no configuration yet.
    pub fn new(mode: Mode) -> (conn: Connection)
        ensures
            conn@ == Session::fresh(mode, None),
    {
        Connection {
            mode,
            config: None,
            usable: true,
            server_name: None,
            io: IoHooks {
                receive_callback: false,
                send_callback: false,
                receive_context: false,
                send_context: false,
                waker: None,
            },
            selection: Selection {
                signature: None,
                hash: None,
                client_signature: None,
                client_hash: None,
            },
            key_exchange: KeyExchange::Idle,
        }
    }

    pub fn new_client() -> (conn: Connection)
        ensures
            conn@ == Session::fresh(Mode::Client, None),
    {
        Connection::new(Mode::Client)
    }

    pub fn new_server() -> (conn: Connection)
        ensures
            conn@ == Session::fresh(Mode::Server, None),
    {
        Connection::new(Mode::Server)
    }

    pub fn mode(&self) -> (mode: Mode)
        ensures
            mode == self@.mode,
    {
        self.mode
    }

    /// The configuration the session is bound to at this moment.
    pub fn config(&self) -> (config: Option<Config>)
        ensures
            config == self@.config,
    {
        self.config
    }

    pub fn is_usable(&self) -> (b: bool)
        ensures
            b == self@.usable,
    {
        self.usable
    }

    /// Records that the engine can no longer serve this session. From then
    /// on it can be neither reset nor bound to a configuration.
    pub fn mark_unusable(&mut self)
        ensures
            final(self)@ == (Session { usable: false, ..old(self)@ }),
    {
        self.usable = false;
    }

    /// Binds the session to `config`, whatever it was bound to before.
    pub fn set_config(&mut self, config: Config) -> (r: Result<(), Error>)
        ensures
            old(self)@.usable ==> r is Ok && final(self)@ == old(self)@.bound_to(config),
            !old(self)@.usable ==> r == Err::<(), Error>(Error::Unusable) && final(self)@
                == old(self)@,
    {
        if self.usable {
            self.config = Some(config);
            Ok(())
        } else {
            Err(Error::Unusable)
        }
    }

    /// Resets the session so that its memory can serve another negotiation.
    /// The mode and the configuration stay.
    pub fn wipe(&mut self) -> (r: Result<(), Error>)
        ensures
            old(self)@.usable ==> r is Ok && final(self)@ == old(self)@.wiped(),
            !old(self)@.usable ==> r == Err::<(), Error>(Error::Unusable) && final(self)@
                == old(self)@,
    {
        if self.usable {
            self.server_name = None;
            self.io = IoHooks {
                receive_callback: false,
                send_callback: false,
                receive_context: false,
                send_context: false,
                waker: None,
            };
            self.selection = Selection {
                signature: None,
                hash: None,
                client_signature: None,
                client_hash: None,
            };
            self.key_exchange = KeyExchange::Idle;
            Ok(())
        } else {
            Err(Error::Unusable)
        }
    }

    /// Names the server a client wants to reach.
    pub fn set_server_name(&mut self, name: &str) -> (r: Result<(), Error>)
        ensures
            old(self)@.usable ==> r is Ok && final(self)@ == (Session {
                server_name: Some(name@),
                ..old(self)@
            }),
            !old(self)@.usable ==> r == Err::<(), Error>(Error::Unusable) && final(self)@
                == old(self)@,
    {
        if self.usable {
            self.server_name = Some(name.to_string());
            Ok(())
        } else {
            Err(Error::Unusable)
        }
    }

    pub fn server_name(&self) -> (name: Option<&String>)
        ensures
            match name {
                Some(n) => self@.server_name == Some(n@),
                None => self@.server_name.is_none(),
            },
    {
        self.server_name.as_ref()
    }

    /// The adapters installed at this moment.
    pub fn io(&self) -> (io: IoHooks)
        ensures
            io == self@.io,
    {
        self.io
    }

    pub fn set_receive_callback(&mut self, installed: bool)
        ensures
            final(self)@ == old(self)@.with_io(
                IoHooks { receive_callback: installed, ..old(self)@.io },
            ),
    {
        self.io.receive_callback = installed;
    }

    pub fn set_send_callback(&mut self, installed: bool)
        ensures
            final(self)@ == old(self)@.with_io(
                IoHooks { send_callback: installed, ..old(self)@.io },
            ),
    {
        self.io.send_callback = installed;
    }

    pub fn set_receive_context(&mut self, installed: bool)
        ensures
            final(self)@ == old(self)@.with_io(
                IoHooks { receive_context: installed, ..old(self)@.io },
            ),
    {
        self.io.receive_context = installed;
    }

    pub fn set_send_context(&mut self, installed: bool)
        ensures
            final(self)@ == old(self)@.with_io(
                IoHooks { send_context: installed, ..old(self)@.io },
            ),
    {
        self.io.send_context = installed;
    }

    pub fn set_waker(&mut self, waker: Option<WakeHandle>)
        ensures
            final(self)@ == old(self)@.with_io(IoHooks { waker, ..old(self)@.io }),
    {
        self.io.waker = waker;
    }

    pub fn waker(&self) -> (waker: Option<WakeHandle>)
        ensures
            waker == self@.io.waker,
    {
        self.io.waker
    }

    /// Records what the engine reports of the algorithms it settled on.
    pub fn set_selection(&mut self, selection: Selection)
        ensures
            final(self)@ == (Session { selection, ..old(self)@ }),
    {
        self.selection = selection;
    }

    /// The signature algorithm of this connection. It is an error to ask
    /// before one has been settled on.
    pub fn selected_signature_algorithm(&self) -> (r: Result<SignatureAlgorithm, Error>)
        ensures
            match self@.selection.signature {
                Some(alg) => r == Ok::<SignatureAlgorithm, Error>(alg),
                None => r == Err::<SignatureAlgorithm, Error>(Error::InvalidInput),
            },
    {
        match self.selection.signature {
            Some(alg) => Ok(alg),
            None => Err(Error::InvalidInput),
        }
    }

    /// The hash algorithm of this connection. It is an error to ask before
    /// one has been settled on.
    pub fn selected_hash_algorithm(&self) -> (r: Result<HashAlgorithm, Error>)
        ensures
            match self@.selection.hash {
                Some(alg) => r == Ok::<HashAlgorithm, Error>(alg),
                None => r == Err::<HashAlgorithm, Error>(Error::InvalidInput),
            },
    {
        match self.selection.hash {
            Some(alg) => Ok(alg),
            None => Err(Error::InvalidInput),
        }
    }

    /// The signature algorithm the client chose for its own certificate, if
    /// it chose one.
    pub fn selected_client_signature_algorithm(&self) -> (r: Result<
        Option<SignatureAlgorithm>,
        Error,
    >)
        ensures
            r == Ok::<Option<SignatureAlgorithm>, Error>(self@.selection.client_signature),
    {
        Ok(self.selection.client_signature)
    }

    /// Where the private-key operation of this session stands.
    pub fn key_exchange(&self) -> (k: &KeyExchange)
        ensures
            k@ == self@.key_exchange,
    {
        &self.key_exchange
    }

    /// Records that the engine has raised the operation with this handle and
    /// is suspended until its output arrives. Only one operation can be in
    /// flight: while one is, another is refused.
    pub fn await_key_operation(&mut self, handle: usize) -> (r: Result<(), Error>)
        ensures
            old(self)@.key_exchange is Idle ==> r is Ok && final(self)@ == (Session {
                key_exchange: KeyExchangeView::Awaiting { handle },
                ..old(self)@
            }),
            !(old(self)@.key_exchange is Idle) ==> r == Err::<(), Error>(Error::InvalidInput)
                && final(self)@ == old(self)@,
    {
        match self.key_exchange {
            KeyExchange::Idle => {
                self.key_exchange = KeyExchange::Awaiting { handle };
                Ok(())
            },
            _ => Err(Error::InvalidInput),
        }
    }

    /// Hands the output of the operation with this handle to the engine,
    /// which may then resume. The engine takes an output only for the
    /// operation it is waiting for.
    pub fn apply_key_output(&mut self, handle: usize, output: Vec<u8>) -> (r: Result<(), Error>)
        ensures
            old(self)@.key_exchange == (KeyExchangeView::Awaiting { handle }) ==> r is Ok
                && final(self)@ == (Session {
                key_exchange: KeyExchangeView::Answered { output: output@ },
                ..old(self)@
            }),
            old(self)@.key_exchange != (KeyExchangeView::Awaiting { handle }) ==> r == Err::<
                (),
                Error,
            >(Error::InvalidInput) && final(self)@ == old(self)@,
    {
        let waiting = match self.key_exchange {
            KeyExchange::Awaiting { handle: h } => h == handle,
            _ => false,
        };
        if waiting {
            self.key_exchange = KeyExchange::Answered { output };
            Ok(())
        } else {
            Err(Error::InvalidInput)
        }
    }

    /// Takes the applied output out, for the engine to go on with. Without
    /// an applied output nothing changes.
    pub fn take_key_output(&mut self) -> (output: Option<Vec<u8>>)
        ensures
            match old(self)@.key_exchange {
                KeyExchangeView::Answered { output: bytes } => output matches Some(v) && v@
                    == bytes && final(self)@ == (Session {
                    key_exchange: KeyExchangeView::Idle,
                    ..old(self)@
                }),
                _ => output.is_none() && final(self)@ == old(self)@,
            },
    {
        let mut slot = KeyExchange::Idle;
        std::mem::swap(&mut self.key_exchange, &mut slot);
        match slot {
            KeyExchange::Answered { output } => Some(output),
            other => {
                self.key_exchange = other;
                None
            },
        }
    }

    /// The hash algorithm the client chose for its own certificate, if it
    /// chose one.
    pub fn selected_client_hash_algorithm(&self) -> (r: Result<Option<HashAlgorithm>, Error>)
        ensures
            r == Ok::<Option<HashAlgorithm>, Error>(self@.selection.client_hash),
    {
        Ok(self.selection.client_hash)
    }
}

} // verus!
