//! The connector's session: the API credentials, and which REST clients have
//! been made from them. The first initialisation fixes the keys and asks for
//! every client; later ones change nothing and ask for none.

use vstd::prelude::*;

verus! {

/// The REST clients of the connector.
#[derive(Clone, Copy, Debug, PartialEq, Eq, Structural)]
pub enum ClientKind {
    /// Orders, positions and balances.
    Account,
    /// Exchange information.
    General,
    /// Market data.
    Market,
    /// The user data stream's listen key.
    UserStream,
}

/// The key kept after an initialisation that is given `given`: the key held
/// before, if there was one, else the one given.
pub open spec fn kept_key(held: Option<Seq<char>>, given: Seq<char>) -> Option<Seq<char>> {
    match held {
        Some(k) => Some(k),
        None => Some(given),
    }
}

/// The view of an optional key.
pub open spec fn key_view(key: Option<String>) -> Option<Seq<char>> {
    match key {
        Some(k) => Some(k@),
        None => None,
    }
}

/// The clients to make, and the keys to make each of them with.
pub struct ClientPlan {
    /// The API key to give every client.
    pub api_key: Option<String>,
    /// The secret key to give every client.
    pub secret_key: Option<String>,
    /// The clients still to make, in the order account, general, market, user stream.
    pub missing: Vec<ClientKind>,
}

/// The credentials of the connector, and which clients have been made.
pub struct Session {
    api_key: Option<String>,
    secret_key: Option<String>,
    account_made: bool,
    general_made: bool,
    market_made: bool,
    user_made: bool,
}

impl Session {
    /// The API key, once set.
    pub closed spec fn held_api_key(&self) -> Option<Seq<char>> {
        key_view(self.api_key)
    }

    /// The secret key, once set.
    pub closed spec fn held_secret_key(&self) -> Option<Seq<char>> {
        key_view(self.secret_key)
    }

    /// Whether the client `kind` has been made.
    pub closed spec fn made(&self, kind: ClientKind) -> bool {
        match kind {
            ClientKind::Account => self.account_made,
            ClientKind::General => self.general_made,
            ClientKind::Market => self.market_made,
            ClientKind::UserStream => self.user_made,
        }
    }

    /// The clients not made yet, in the order account, general, market, user stream.
    pub open spec fn missing_clients(&self) -> Seq<ClientKind> {
        (if self.made(ClientKind::Account) { Seq::empty() } else { seq![ClientKind::Account] })
            + (if self.made(ClientKind::General) { Seq::empty() } else { seq![ClientKind::General] })
            + (if self.made(ClientKind::Market) { Seq::empty() } else { seq![ClientKind::Market] })
            + (if self.made(ClientKind::UserStream) { Seq::empty() } else { seq![ClientKind::UserStream] })
    }

    /// Whether the session has been initialised: both keys are set and all four
    /// clients have been made.
    pub open spec fn is_ready(&self) -> bool {
        &&& self.held_api_key() is Some
        &&& self.held_secret_key() is Some
        &&& forall|k: ClientKind| #[trigger] self.made(k)
    }

    /// A session that has not been initialised.
    pub fn new() -> (res: Self)
        ensures
            res.held_api_key() is None,
            res.held_secret_key() is None,
            forall|k: ClientKind| !#[trigger] res.made(k),
    {
        Session {
            api_key: None,
            secret_key: None,
            account_made: false,
            general_made: false,
            market_made: false,
            user_made: false,
        }
    }

    /// The API key, once set.
    pub fn api_key(&self) -> (res: Option<&String>)
        ensures
            res is Some == self.held_api_key() is Some,
            res matches Some(k) ==> k@ == self.held_api_key()->0,
    {
        self.api_key.as_ref()
    }

    /// The secret key, once set.
    pub fn secret_key(&self) -> (res: Option<&String>)
        ensures
            res is Some == self.held_secret_key() is Some,
            res matches Some(k) ==> k@ == self.held_secret_key()->0,
    {
        self.secret_key.as_ref()
    }

    /// Whether the client `kind` has been made.
    pub fn is_made(&self, kind: ClientKind) -> (res: bool)
        ensures
            res == self.made(kind),
    {
        match kind {
            ClientKind::Account => self.account_made,
            ClientKind::General => self.general_made,
            ClientKind::Market => self.market_made,
            ClientKind::UserStream => self.user_made,
        }
    }
}

/// Initialises the session: each key is set only where it is still missing, so
/// the first initialisation fixes them. Answers the plan of the clients to make:
/// those not made yet, each to be made from the keys now held; they count as made
/// from now on.
pub fn init(session: &mut Session, api: &str, secret: &str) -> (plan: ClientPlan)
    ensures
        final(session).held_api_key() == kept_key(old(session).held_api_key(), api@),
        final(session).held_secret_key() == kept_key(old(session).held_secret_key(), secret@),
        key_view(plan.api_key) == final(session).held_api_key(),
        key_view(plan.secret_key) == final(session).held_secret_key(),
        plan.missing@ == old(session).missing_clients(),
        final(session).is_ready(),
{
    if session.api_key.is_none() {
        session.api_key = Some(String::from_str(api));
    }
    if session.secret_key.is_none() {
        session.secret_key = Some(String::from_str(secret));
    }
    let ghost before = *session;
    let mut missing: Vec<ClientKind> = Vec::new();
    if !session.account_made {
        missing.push(ClientKind::Account);
    }
    if !session.general_made {
        missing.push(ClientKind::General);
    }
    if !session.market_made {
        missing.push(ClientKind::Market);
    }
    if !session.user_made {
        missing.push(ClientKind::UserStream);
    }
    assert(missing@ =~= before.missing_clients());
    session.account_made = true;
    session.general_made = true;
    session.market_made = true;
    session.user_made = true;
    assert forall|k: ClientKind| #[trigger] session.made(k) by {}
    ClientPlan { api_key: session.api_key.clone(), secret_key: session.secret_key.clone(), missing }
}

/// Initialises `session` with the given keys, as the C++ caller does first;
/// answers `0`, with the plan of the clients to make, as `init` does.
pub fn init_from_cpp(session: &mut Session, api: &str, secret: &str) -> (res: (i32, ClientPlan))
    ensures
        res.0 == 0,
        final(session).held_api_key() == kept_key(old(session).held_api_key(), api@),
        final(session).held_secret_key() == kept_key(old(session).held_secret_key(), secret@),
        key_view(res.1.api_key) == final(session).held_api_key(),
        key_view(res.1.secret_key) == final(session).held_secret_key(),
        res.1.missing@ == old(session).missing_clients(),
        final(session).is_ready(),
{
    let plan = init(session, api, secret);
    (0, plan)
}

/// The first initialisation wins: initialising again, with any keys, keeps the
/// keys that the first one left.
pub proof fn first_init_wins(held: Option<Seq<char>>, first: Seq<char>, second: Seq<char>)
    ensures
        kept_key(kept_key(held, first), second) == kept_key(held, first),
        kept_key(kept_key(held, first), second) is Some,
{
}

/// An initialisation keeps the key held before, if there is one, and otherwise
/// keeps the given key whole: the same text, of the same length.
pub proof fn init_keeps_held_or_given_key(held: Seq<char>, given: Seq<char>)
    ensures
        kept_key(Some(held), given) == Some(held),
        kept_key(None, given) == Some(given),
        kept_key(None, given)->0.len() == given.len(),
        forall|i: int| 0 <= i < given.len() ==> kept_key(None, given)->0[i] == given[i],
{
}

/// Once a session is ready, an initialisation asks for no client.
pub proof fn ready_session_needs_no_client(session: Session)
    requires
        session.is_ready(),
    ensures
        session.missing_clients() == Seq::<ClientKind>::empty(),
{
    assert(session.made(ClientKind::Account));
    assert(session.made(ClientKind::General));
    assert(session.made(ClientKind::Market));
    assert(session.made(ClientKind::UserStream));
    assert(session.missing_clients() =~= Seq::<ClientKind>::empty());
}

} // verus!
