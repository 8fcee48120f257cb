//! The connection to the account's event stream: its credentials, and when it
//! is opened again.
use vstd::prelude::*;

use crate::config::Config;
use crate::evm::{address_error, fixed_hex, hex_decoded, parse_address};
use crate::text::ascii_lower;

verus! {

/// The pause after a failed try to connect, in seconds.
pub const RECONNECT_DELAY_SECS: u64 = 5;

/// How often it is tried to connect again.
pub const MAX_RECONNECT_ATTEMPTS: u32 = 10;

/// The 16 bytes of a UUID in five groups with hyphens between them.
pub open spec fn hyphenated_uuid(text: Seq<char>) -> Option<Seq<u8>> {
    if text.len() == 36 && text[8] == '-' && text[13] == '-' && text[18] == '-' && text[23]
        == '-' {
        hex_decoded(
            text.subrange(0, 8) + text.subrange(9, 13) + text.subrange(14, 18) + text.subrange(
                19,
                23,
            ) + text.subrange(24, 36),
        )
    } else {
        None
    }
}

/// The 16 bytes of a UUID: 32 hexadecimal digits, or five groups of them with
/// hyphens between them, plain, in braces or behind `urn:uuid:`.
pub open spec fn uuid_of(text: Seq<char>) -> Option<Seq<u8>> {
    if text.len() == 32 {
        hex_decoded(text)
    } else if text.len() == 36 {
        hyphenated_uuid(text)
    } else if text.len() == 38 && text[0] == '{' && text[37] == '}' {
        hyphenated_uuid(text.subrange(1, 37))
    } else if text.len() == 45 && text.take(9).map_values(|c: char| ascii_lower(c))
        == "urn:uuid:"@ {
        hyphenated_uuid(text.skip(9))
    } else {
        None
    }
}

/// What `Display` of `uuid`'s `Error` says of a text that is no UUID.
pub uninterp spec fn uuid_error(text: Seq<char>) -> Seq<char>;

/// Calls `uuid::Uuid::parse_str`. A text that is no UUID comes back as the text
/// of the error, which is only named.
#[verifier::external_body]
fn parse_uuid(text: &str) -> (r: Result<[u8; 16], String>)
    ensures
        match r {
            Ok(bytes) => uuid_of(text@) == Some(bytes@),
            Err(error) => uuid_of(text@) is None && error@ == uuid_error(text@),
        },
{
    uuid::Uuid::parse_str(text).map(|id| id.into_bytes()).map_err(|e| e.to_string())
}

/// Why there is no connection.
#[derive(Debug)]
pub enum ClientError {
    NoPrivateKey,
    /// What is wrong with the API key.
    InvalidApiKey(String),
    /// What is wrong with the address.
    InvalidAddress(String),
    ReconnectFailed,
}

impl ClientError {
    /// The error in words.
    pub open spec fn text(self) -> Seq<char> {
        match self {
            ClientError::NoPrivateKey => "private_key not found in config.polymarket"@,
            ClientError::InvalidApiKey(error) => error@,
            ClientError::InvalidAddress(error) => error@,
            ClientError::ReconnectFailed => "Failed to reconnect after 10 attempts"@,
        }
    }

    /// The error in words.
    pub fn message(&self) -> (r: String)
        ensures
            r@ == self.text(),
    {
        match self {
            ClientError::NoPrivateKey => "private_key not found in config.polymarket".to_owned(),
            ClientError::InvalidApiKey(error) => error.clone(),
            ClientError::InvalidAddress(error) => error.clone(),
            ClientError::ReconnectFailed => "Failed to reconnect after 10 attempts".to_owned(),
        }
    }
}

/// What the event stream is opened with.
#[derive(Debug)]
pub struct Session {
    pub api_key: [u8; 16],
    pub secret: String,
    pub passphrase: String,
    pub address: [u8; 20],
}

/// What is to be done about a lost connection.
#[derive(Debug, Clone, Copy, PartialEq, Eq, Structural)]
pub enum ReconnectStep {
    /// The program is being shut down; nothing is tried any more.
    Stop,
    /// This try is to be made.
    Try(u32),
    /// All tries failed.
    GiveUp,
}

/// What the loop around the handler of the event stream does next.
#[derive(Debug, Clone, Copy, PartialEq, Eq, Structural)]
pub enum LoopStep {
    /// A round of the loop starts.
    Round,
    /// There is no connection; one is to be opened before the handler runs.
    ReconnectFirst,
    /// The handler is to be run.
    RunHandler,
    /// Wait for [`RECONNECT_DELAY_SECS`].
    Pause,
    /// The handler failed; the connection is to be opened again.
    Reconnect,
    /// The loop has ended.
    Stop,
}

/// The connection to the account's event stream.
pub struct ClobClient {
    pub config: Config,
    pub connected: bool,
    pub shutdown: bool,
}

impl ClobClient {
    /// A client whose first try to connect went as told. It can do without a
    /// connection.
    pub fn new(config: Config, connected: bool) -> (r: Self)
        ensures
            r == (ClobClient { config, connected, shutdown: false }),
    {
        ClobClient { config, connected, shutdown: false }
    }

    /// The private key that the credentials are derived from.
    pub fn private_key(config: &Config) -> (r: Result<String, ClientError>)
        ensures
            r == (match config.polymarket.private_key {
                Some(key) => Ok::<String, ClientError>(key),
                None => Err(ClientError::NoPrivateKey),
            }),
    {
        match &config.polymarket.private_key {
            Some(key) => Ok(key.clone()),
            None => Err(ClientError::NoPrivateKey),
        }
    }

    /// What the event stream is opened with, given the credentials and the
    /// address that were derived from the private key.
    pub fn create_authenticated_client(
        api_key: &str,
        secret: String,
        passphrase: String,
        address: &str,
    ) -> (r: Result<Session, ClientError>)
        ensures
            match (uuid_of(api_key@), fixed_hex(address@, 20)) {
                (None, _) => r matches Err(ClientError::InvalidApiKey(error)) && error@
                    == uuid_error(api_key@),
                (Some(_), None) => r matches Err(ClientError::InvalidAddress(error)) && error@
                    == address_error(address@),
                (Some(key), Some(wallet)) => r matches Ok(session) && session.api_key@ == key
                    && session.secret == secret && session.passphrase == passphrase
                    && session.address@ == wallet,
            },
    {
        match parse_uuid(api_key) {
            Err(error) => Err(ClientError::InvalidApiKey(error)),
            Ok(key) => match parse_address(address) {
                Err(error) => Err(ClientError::InvalidAddress(error)),
                Ok(wallet) => Ok(Session { api_key: key, secret, passphrase, address: wallet }),
            },
        }
    }

    /// Notes that the program is being shut down.
    pub fn mark_shutdown(&mut self)
        ensures
            *final(self) == (ClobClient { shutdown: true, ..*old(self) }),
    {
        self.shutdown = true;
    }

    /// Whether the program is being shut down.
    pub fn is_shutdown(&self) -> (r: bool)
        ensures
            r == self.shutdown,
    {
        self.shutdown
    }

    /// What is to be done about a lost connection after so many tries.
    pub open spec fn reconnect_step(self, attempts: u32) -> ReconnectStep {
        if self.shutdown {
            ReconnectStep::Stop
        } else if attempts >= MAX_RECONNECT_ATTEMPTS {
            ReconnectStep::GiveUp
        } else {
            ReconnectStep::Try((attempts + 1) as u32)
        }
    }

    /// Says what is to be done about a lost connection after so many tries.
    pub fn reconnect(&self, attempts: u32) -> (r: ReconnectStep)
        ensures
            r == self.reconnect_step(attempts),
    {
        if self.is_shutdown() {
            ReconnectStep::Stop
        } else if attempts >= MAX_RECONNECT_ATTEMPTS {
            ReconnectStep::GiveUp
        } else {
            ReconnectStep::Try(attempts + 1)
        }
    }

    /// Notes that a connection was opened.
    pub fn reconnected(&mut self)
        ensures
            *final(self) == (ClobClient { connected: true, ..*old(self) }),
    {
        self.connected = true;
    }

    /// The client and the next step of the loop around the handler, once a step
    /// was carried out and failed or not. A handler that failed takes the
    /// connection with it.
    pub open spec fn stepped(self, step: LoopStep, failed: bool) -> (ClobClient, LoopStep) {
        match step {
            LoopStep::Round => (
                self,
                if self.shutdown {
                    LoopStep::Stop
                } else if self.connected {
                    LoopStep::RunHandler
                } else {
                    LoopStep::ReconnectFirst
                },
            ),
            LoopStep::ReconnectFirst => (
                self,
                if failed {
                    LoopStep::Pause
                } else {
                    LoopStep::RunHandler
                },
            ),
            LoopStep::RunHandler => if failed {
                (ClobClient { connected: false, ..self }, LoopStep::Reconnect)
            } else {
                (self, LoopStep::Stop)
            },
            LoopStep::Pause => (self, LoopStep::Round),
            LoopStep::Reconnect => (
                self,
                if failed {
                    LoopStep::Stop
                } else {
                    LoopStep::Round
                },
            ),
            LoopStep::Stop => (self, LoopStep::Stop),
        }
    }

    /// The next step of the loop around the handler, once a step was carried out
    /// and failed or not. The loop starts with a round.
    pub fn run_with_reconnect(&mut self, step: LoopStep, failed: bool) -> (r: LoopStep)
        ensures
            (*final(self), r) == old(self).stepped(step, failed),
    {
        match step {
            LoopStep::Round => if self.is_shutdown() {
                LoopStep::Stop
            } else if self.connected {
                LoopStep::RunHandler
            } else {
                LoopStep::ReconnectFirst
            },
            LoopStep::ReconnectFirst => if failed {
                LoopStep::Pause
            } else {
                LoopStep::RunHandler
            },
            LoopStep::RunHandler => if failed {
                self.connected = false;
                LoopStep::Reconnect
            } else {
                LoopStep::Stop
            },
            LoopStep::Pause => LoopStep::Round,
            LoopStep::Reconnect => if failed {
                LoopStep::Stop
            } else {
                LoopStep::Round
            },
            LoopStep::Stop => LoopStep::Stop,
        }
    }
}

/// What can happen while the loop around the handler runs.
pub enum LoopMove {
    /// The step was carried out; it failed or not.
    Carried(bool),
    /// A connection was opened.
    Opened,
    /// The program is being shut down.
    Shutdown,
}

impl ClobClient {
    /// The client and the step of the loop after a move.
    pub open spec fn moved(self, step: LoopStep, what: LoopMove) -> (ClobClient, LoopStep) {
        match what {
            LoopMove::Carried(failed) => self.stepped(step, failed),
            LoopMove::Opened => (ClobClient { connected: true, ..self }, step),
            LoopMove::Shutdown => (ClobClient { shutdown: true, ..self }, step),
        }
    }

    /// The client and the step of the loop after a series of moves.
    pub open spec fn looped(self, step: LoopStep, moves: Seq<LoopMove>) -> (ClobClient, LoopStep)
        decreases moves.len(),
    {
        if moves.len() == 0 {
            (self, step)
        } else {
            let (client, next) = self.moved(step, moves[0]);
            client.looped(next, moves.drop_first())
        }
    }

    /// How often the handler is started in a series of moves.
    pub open spec fn handler_starts(self, step: LoopStep, moves: Seq<LoopMove>) -> nat
        decreases moves.len(),
    {
        if moves.len() == 0 {
            0
        } else {
            let (client, next) = self.moved(step, moves[0]);
            let rest = client.handler_starts(next, moves.drop_first());
            if next == LoopStep::RunHandler && step != LoopStep::RunHandler {
                1 + rest
            } else {
                rest
            }
        }
    }
}

/// Whether the first step that is carried out in a series of moves fails.
pub open spec fn first_fails(moves: Seq<LoopMove>) -> Option<bool>
    decreases moves.len(),
{
    if moves.len() == 0 {
        None
    } else {
        match moves[0] {
            LoopMove::Carried(failed) => Some(failed),
            _ => first_fails(moves.drop_first()),
        }
    }
}

/// A loop that has ended stays so, and starts no handler.
proof fn lemma_ended(client: ClobClient, moves: Seq<LoopMove>)
    ensures
        client.looped(LoopStep::Stop, moves).1 == LoopStep::Stop,
        client.handler_starts(LoopStep::Stop, moves) == 0,
    decreases moves.len(),
{
    if moves.len() > 0 {
        lemma_ended(client.moved(LoopStep::Stop, moves[0]).0, moves.drop_first());
    }
}

/// Where the program is being shut down when a round of the loop starts, the
/// handler is not started any more, and the loop ends with the first step that
/// is carried out.
pub proof fn a_shutdown_ends_the_loop(client: ClobClient, moves: Seq<LoopMove>)
    requires
        client.shutdown,
    ensures
        client.handler_starts(LoopStep::Round, moves) == 0,
        first_fails(moves) is Some ==> client.looped(LoopStep::Round, moves).1 == LoopStep::Stop,
    decreases moves.len(),
{
    if moves.len() > 0 {
        let (after, next) = client.moved(LoopStep::Round, moves[0]);
        match moves[0] {
            LoopMove::Carried(_) => lemma_ended(after, moves.drop_first()),
            _ => a_shutdown_ends_the_loop(after, moves.drop_first()),
        }
    }
}

/// A handler that ended well ends the loop, whatever else happens: it is not
/// started again.
pub proof fn a_finished_handler_ends_the_loop(client: ClobClient, moves: Seq<LoopMove>)
    requires
        first_fails(moves) == Some(false),
    ensures
        client.looped(LoopStep::RunHandler, moves).1 == LoopStep::Stop,
        client.handler_starts(LoopStep::RunHandler, moves) == 0,
    decreases moves.len(),
{
    let (after, next) = client.moved(LoopStep::RunHandler, moves[0]);
    match moves[0] {
        LoopMove::Carried(_) => lemma_ended(after, moves.drop_first()),
        _ => a_finished_handler_ends_the_loop(after, moves.drop_first()),
    }
}

/// A handler that failed takes the connection with it and calls for another;
/// where none could be opened the loop ends, so that the handler is started
/// again only after a successful try to reconnect.
pub proof fn a_failed_handler_waits_for_a_connection(client: ClobClient, moves: Seq<LoopMove>)
    ensures
        client.stepped(LoopStep::RunHandler, true) == (
            ClobClient { connected: false, ..client },
            LoopStep::Reconnect,
        ),
        client.handler_starts(LoopStep::Reconnect, moves) > 0 ==> first_fails(moves) == Some(false),
        first_fails(moves) == Some(true) ==> client.looped(LoopStep::Reconnect, moves).1
            == LoopStep::Stop,
    decreases moves.len(),
{
    if moves.len() > 0 {
        let (after, next) = client.moved(LoopStep::Reconnect, moves[0]);
        match moves[0] {
            LoopMove::Carried(failed) => {
                if failed {
                    lemma_ended(after, moves.drop_first());
                }
            },
            _ => a_failed_handler_waits_for_a_connection(after, moves.drop_first()),
        }
    }
}

/// Each try to connect has its number, from one to ten; after the tenth there
/// is none; and none is made once the program is being shut down.
pub proof fn reconnect_tries_are_bounded(client: ClobClient, attempts: u32)
    ensures
        client.reconnect_step(attempts) matches ReconnectStep::Try(n) ==> n == attempts + 1
            && 1 <= n <= MAX_RECONNECT_ATTEMPTS && !client.shutdown,
        attempts >= MAX_RECONNECT_ATTEMPTS ==> !(client.reconnect_step(attempts) is Try),
        client.shutdown ==> client.reconnect_step(attempts) is Stop,
{
}

/// As long as the program is not being shut down the loop keeps at it: with a
/// connection a round runs the handler, without one it tries to connect first,
/// and runs the handler once that worked; where it did not, the next round comes
/// after a pause. A connection that was opened again after a failed handler
/// brings the next round. Only a handler takes the connection away, and only
/// where it failed.
pub proof fn the_loop_keeps_at_it(client: ClobClient, failed: bool)
    ensures
        !client.shutdown && client.connected ==> client.stepped(LoopStep::Round, failed).1
            == LoopStep::RunHandler,
        !client.shutdown && !client.connected ==> client.stepped(LoopStep::Round, failed).1
            == LoopStep::ReconnectFirst,
        client.stepped(LoopStep::ReconnectFirst, false).1 == LoopStep::RunHandler,
        client.stepped(LoopStep::ReconnectFirst, true).1 == LoopStep::Pause,
        client.stepped(LoopStep::Pause, failed).1 == LoopStep::Round,
        client.stepped(LoopStep::Reconnect, false).1 == LoopStep::Round,
        forall|step: LoopStep|
            #![trigger client.stepped(step, failed)]
            step != LoopStep::RunHandler || !failed ==> client.stepped(step, failed).0 == client,
{
}

/// It is tried to connect again until the tenth time, unless the program is
/// being shut down.
pub proof fn a_connection_is_tried_for_ten_times(client: ClobClient, attempts: u32)
    ensures
        !client.shutdown && attempts < 10 ==> client.reconnect_step(attempts)
            == ReconnectStep::Try((attempts + 1) as u32),
        !client.shutdown && attempts >= 10 ==> client.reconnect_step(attempts)
            == ReconnectStep::GiveUp,
        client.shutdown ==> client.reconnect_step(attempts) == ReconnectStep::Stop,
{
}

/// However a UUID is written, plain, with hyphens, in braces or behind its mark,
/// it is the bytes that its 32 digits spell.
pub proof fn a_uuid_is_its_digits(a: Seq<char>, b: Seq<char>, c: Seq<char>, d: Seq<char>, e: Seq<char>)
    requires
        a.len() == 8,
        b.len() == 4,
        c.len() == 4,
        d.len() == 4,
        e.len() == 12,
    ensures
        ({
            let plain = a + b + c + d + e;
            let dash = seq!['-'];
            let dashed = a + dash + b + dash + c + dash + d + dash + e;
            &&& uuid_of(plain) == hex_decoded(plain)
            &&& uuid_of(dashed) == hex_decoded(plain)
            &&& uuid_of(seq!['{'] + dashed + seq!['}']) == hex_decoded(plain)
            &&& uuid_of("urn:uuid:"@ + dashed) == hex_decoded(plain)
        }),
{
    let plain = a + b + c + d + e;
    let dash = seq!['-'];
    let dashed = a + dash + b + dash + c + dash + d + dash + e;
    assert(plain.len() == 32 && dashed.len() == 36);
    assert(dashed.subrange(0, 8) =~= a);
    assert(dashed.subrange(9, 13) =~= b);
    assert(dashed.subrange(14, 18) =~= c);
    assert(dashed.subrange(19, 23) =~= d);
    assert(dashed.subrange(24, 36) =~= e);
    assert(hyphenated_uuid(dashed) == hex_decoded(plain));
    let braced = seq!['{'] + dashed + seq!['}'];
    assert(braced.subrange(1, 37) =~= dashed);
    reveal_strlit("urn:uuid:");
    let marked = "urn:uuid:"@ + dashed;
    assert(marked.take(9).map_values(|c: char| ascii_lower(c)) =~= "urn:uuid:"@);
    assert(marked.skip(9) =~= dashed);
}

} // verus!
