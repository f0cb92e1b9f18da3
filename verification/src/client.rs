//! Opening a client.
//!
//! A client is opened in three steps, and the two pieces of network work
//! between them are the caller's: [`Client::open`] validates the URI and says
//! which host to look up; [`Resolving::resolved`] takes the outcome of the
//! lookup and says which endpoint to probe; [`Probing::probed`] takes the
//! outcome of the probe and gives the client. Each step ends the bootstrap
//! with a [`ConnectFailure`] as soon as one is due.

use crate::endpoint::{Endpoint, IpAddress};
use crate::enums::ConnectFailure;
use crate::uri::{
    db_index, db_index_of, parse_uri, parsed_uri, parts_view, scheme, UriParts, UriView, DEFAULT_PORT,
};
use vstd::prelude::*;

verus! {

/// How long the probe may take when the caller sets no limit, in
/// milliseconds.
pub const PROBE_TIMEOUT_MS: u64 = 5000;

/// The outcome of looking a host up.
#[derive(Clone, Debug, PartialEq, Eq)]
pub enum Lookup {
    /// The lookup itself failed.
    Failed,
    /// The lookup succeeded with these addresses, in the order it gave them.
    Addresses(Vec<IpAddress>),
}

/// The mathematical model of a [`Lookup`].
pub enum LookupView {
    Failed,
    Addresses(Seq<IpAddress>),
}

impl View for Lookup {
    type V = LookupView;

    open spec fn view(&self) -> LookupView {
        match self {
            Lookup::Failed => LookupView::Failed,
            Lookup::Addresses(found) => LookupView::Addresses(found@),
        }
    }
}

/// A bootstrap that waits for the addresses of its host.
#[derive(Debug)]
pub struct Resolving {
    host: String,
    port: u16,
    db: i64,
    timeout_ms: u64,
}

/// The mathematical model of a [`Resolving`].
pub struct ResolvingView {
    /// The host to look up.
    pub host: Seq<char>,
    /// The port that the endpoint will have.
    pub port: u16,
    /// The database that the client will select.
    pub db: i64,
    /// The limit on the probe, in milliseconds.
    pub timeout_ms: u64,
}

impl View for Resolving {
    type V = ResolvingView;

    closed spec fn view(&self) -> ResolvingView {
        ResolvingView { host: self.host@, port: self.port, db: self.db, timeout_ms: self.timeout_ms }
    }
}

/// A bootstrap that waits for the outcome of its connectivity probe.
#[derive(Debug)]
pub struct Probing {
    endpoint: Endpoint,
    db: i64,
    timeout_ms: u64,
}

/// The mathematical model of a [`Probing`].
pub struct ProbingView {
    /// The endpoint to probe.
    pub endpoint: Endpoint,
    /// The database that the client will select.
    pub db: i64,
    /// The limit on the probe, in milliseconds.
    pub timeout_ms: u64,
}

impl View for Probing {
    type V = ProbingView;

    closed spec fn view(&self) -> ProbingView {
        ProbingView { endpoint: self.endpoint, db: self.db, timeout_ms: self.timeout_ms }
    }
}

/// A validated endpoint and the database selected on it. A client holds no
/// live connection; each connection is made from it afresh.
#[derive(Debug)]
pub struct Client {
    endpoint: Endpoint,
    db: i64,
}

/// The mathematical model of a [`Client`].
pub struct ClientView {
    pub endpoint: Endpoint,
    pub db: i64,
}

impl View for Client {
    type V = ClientView;

    closed spec fn view(&self) -> ClientView {
        ClientView { endpoint: self.endpoint, db: self.db }
    }
}

/// What a new connection is made from: the endpoint to connect to and the
/// database to select on it.
#[derive(Clone, Copy, Debug, PartialEq, Eq)]
pub struct ConnectionRequest {
    pub endpoint: Endpoint,
    pub db: i64,
}

/// The model of a step's result: the model of the state it reached, or the
/// failure as it is.
pub open spec fn viewed<T: View>(r: Result<T, ConnectFailure>) -> Result<T::V, ConnectFailure> {
    match r {
        Ok(state) => Ok(state@),
        Err(failure) => Err(failure),
    }
}

/// The first step: a URI that did not parse, or that has another scheme, is
/// invalid; any other asks for its host to be looked up.
pub open spec fn plan(parts: Option<UriView>, timeout_ms: u64) -> Result<
    ResolvingView,
    ConnectFailure,
> {
    match parts {
        None => Err(ConnectFailure::InvalidURI),
        Some(p) => if p.scheme != scheme() {
            Err(ConnectFailure::InvalidURI)
        } else {
            Ok(
                ResolvingView {
                    host: p.host_name(),
                    port: p.port_number(),
                    db: p.db(),
                    timeout_ms,
                },
            )
        },
    }
}

/// The second step: a failed lookup makes the URI invalid, a lookup without
/// addresses leaves the host not found, and any other gives the endpoint of
/// its first address.
pub open spec fn after_lookup(state: ResolvingView, lookup: LookupView) -> Result<
    ProbingView,
    ConnectFailure,
> {
    match lookup {
        LookupView::Failed => Err(ConnectFailure::InvalidURI),
        LookupView::Addresses(found) => if found.len() == 0 {
            Err(ConnectFailure::HostNotFound)
        } else {
            Ok(
                ProbingView {
                    endpoint: Endpoint { ip: found[0], port: state.port },
                    db: state.db,
                    timeout_ms: state.timeout_ms,
                },
            )
        },
    }
}

/// The third step: a probe that did not connect refuses the client, one that
/// did gives it.
pub open spec fn after_probe(state: ProbingView, connected: bool) -> Result<
    ClientView,
    ConnectFailure,
> {
    if connected {
        Ok(ClientView { endpoint: state.endpoint, db: state.db })
    } else {
        Err(ConnectFailure::ConnectionRefused)
    }
}

/// What opening a client comes to, from what the parser made of the URI, what
/// the lookup of its host gave and whether the probe connected. The checks
/// stand in the order in which they are made, and the first that fails
/// decides.
pub open spec fn open_outcome(parts: Option<UriView>, lookup: LookupView, connected: bool) -> Result<
    ClientView,
    ConnectFailure,
> {
    if parts is None {
        Err(ConnectFailure::InvalidURI)
    } else if parts->0.scheme != scheme() {
        Err(ConnectFailure::InvalidURI)
    } else if lookup is Failed {
        Err(ConnectFailure::InvalidURI)
    } else if lookup->Addresses_0.len() == 0 {
        Err(ConnectFailure::HostNotFound)
    } else if !connected {
        Err(ConnectFailure::ConnectionRefused)
    } else {
        Ok(
            ClientView {
                endpoint: Endpoint { ip: lookup->Addresses_0[0], port: parts->0.port_number() },
                db: parts->0.db(),
            },
        )
    }
}

impl Client {
    /// Begins to open a client for `uri`, with the default limit on the
    /// probe.
    pub fn open(uri: &str) -> (r: Result<Resolving, ConnectFailure>)
        ensures
            viewed(r) == plan(parsed_uri(uri@), PROBE_TIMEOUT_MS),
    {
        Client::open_with_timeout(uri, PROBE_TIMEOUT_MS)
    }

    /// Begins to open a client for `uri`; the probe will be given
    /// `timeout_ms` milliseconds.
    pub fn open_with_timeout(uri: &str, timeout_ms: u64) -> (r: Result<Resolving, ConnectFailure>)
        ensures
            viewed(r) == plan(parsed_uri(uri@), timeout_ms),
    {
        Client::open_parsed(parse_uri(uri), timeout_ms)
    }

    /// Begins to open a client from what the parser made of a URI: `None`
    /// where the text was no URI, its components where it was one.
    pub fn open_parsed(parts: Option<UriParts>, timeout_ms: u64) -> (r: Result<
        Resolving,
        ConnectFailure,
    >)
        ensures
            viewed(r) == plan(parts_view(parts), timeout_ms),
    {
        match parts {
            None => Err(ConnectFailure::InvalidURI),
            Some(p) => {
                let expected = "redis".to_owned();
                if !(p.scheme == expected) {
                    return Err(ConnectFailure::InvalidURI);
                }
                let port = match p.port {
                    Some(port) => port,
                    None => DEFAULT_PORT,
                };
                let db = db_index(p.path.as_str());
                let host = match p.host {
                    Some(host) => host,
                    None => String::new(),
                };
                Ok(Resolving { host, port, db, timeout_ms })
            },
        }
    }

    /// The endpoint that connections go to.
    pub fn endpoint(&self) -> (r: Endpoint)
        ensures
            r == self@.endpoint,
    {
        self.endpoint
    }

    /// The database that is selected on each connection.
    pub fn selected_db(&self) -> (r: i64)
        ensures
            r == self@.db,
    {
        self.db
    }

    /// Asks for a new connection: to the client's endpoint, with the client's
    /// database selected. The client is left as it is, so every call asks for
    /// the same, and for a connection of its own.
    pub fn get_connection(&self) -> (r: ConnectionRequest)
        ensures
            r.endpoint == self@.endpoint,
            r.db == self@.db,
    {
        ConnectionRequest { endpoint: self.endpoint, db: self.db }
    }
}

impl Resolving {
    /// The host whose addresses are waited for.
    pub fn host(&self) -> (r: &str)
        ensures
            r@ == self@.host,
    {
        self.host.as_str()
    }

    /// Goes on with the outcome of the lookup.
    pub fn resolved(self, lookup: Lookup) -> (r: Result<Probing, ConnectFailure>)
        ensures
            viewed(r) == after_lookup(self@, lookup@),
    {
        match lookup {
            Lookup::Failed => Err(ConnectFailure::InvalidURI),
            Lookup::Addresses(found) => {
                if found.len() == 0 {
                    Err(ConnectFailure::HostNotFound)
                } else {
                    Ok(
                        Probing {
                            endpoint: Endpoint { ip: found[0], port: self.port },
                            db: self.db,
                            timeout_ms: self.timeout_ms,
                        },
                    )
                }
            },
        }
    }
}

impl Probing {
    /// The endpoint to try a connection to.
    pub fn endpoint(&self) -> (r: Endpoint)
        ensures
            r == self@.endpoint,
    {
        self.endpoint
    }

    /// How long the attempt may take, in milliseconds.
    pub fn timeout_ms(&self) -> (r: u64)
        ensures
            r == self@.timeout_ms,
    {
        self.timeout_ms
    }

    /// Ends the bootstrap with the outcome of the probe: whether a
    /// connection to the endpoint was made within the limit.
    pub fn probed(self, connected: bool) -> (r: Result<Client, ConnectFailure>)
        ensures
            viewed(r) == after_probe(self@, connected),
    {
        if connected {
            Ok(Client { endpoint: self.endpoint, db: self.db })
        } else {
            Err(ConnectFailure::ConnectionRefused)
        }
    }
}

/// The three steps, taken one after the other, come to `open_outcome`: a step
/// that fails ends the bootstrap with its failure, and the steps after it
/// are not taken.
pub proof fn lemma_steps_make_outcome(
    parts: Option<UriView>,
    timeout_ms: u64,
    lookup: LookupView,
    connected: bool,
)
    ensures
        open_outcome(parts, lookup, connected) == match plan(parts, timeout_ms) {
            Err(failure) => Err(failure),
            Ok(resolving) => match after_lookup(resolving, lookup) {
                Err(failure) => Err(failure),
                Ok(probing) => after_probe(probing, connected),
            },
        },
{
}

/// A URI with a scheme other than the expected one is invalid, whatever the
/// network would have answered; no lookup is asked for.
pub proof fn lemma_other_scheme_is_invalid(
    parts: UriView,
    timeout_ms: u64,
    lookup: LookupView,
    connected: bool,
)
    requires
        parts.scheme != scheme(),
    ensures
        plan(Some(parts), timeout_ms) == Err::<ResolvingView, ConnectFailure>(
            ConnectFailure::InvalidURI,
        ),
        open_outcome(Some(parts), lookup, connected) == Err::<ClientView, ConnectFailure>(
            ConnectFailure::InvalidURI,
        ),
{
}

/// A text that is no URI is invalid at the first step: the bootstrap ends
/// before it has asked for any network work.
pub proof fn lemma_malformed_is_invalid(timeout_ms: u64, lookup: LookupView, connected: bool)
    ensures
        plan(None, timeout_ms) == Err::<ResolvingView, ConnectFailure>(ConnectFailure::InvalidURI),
        open_outcome(None, lookup, connected) == Err::<ClientView, ConnectFailure>(
            ConnectFailure::InvalidURI,
        ),
{
}

/// A host whose lookup succeeds without an address is not found.
pub proof fn lemma_no_address_is_host_not_found(parts: UriView, connected: bool)
    requires
        parts.scheme == scheme(),
    ensures
        open_outcome(Some(parts), LookupView::Addresses(Seq::empty()), connected) == Err::<
            ClientView,
            ConnectFailure,
        >(ConnectFailure::HostNotFound),
{
}

/// The connection is refused exactly when the probe was asked for and did not
/// connect: never before an endpoint was there to probe.
pub proof fn lemma_refused_iff_probe_failed(
    parts: Option<UriView>,
    lookup: LookupView,
    connected: bool,
)
    ensures
        open_outcome(parts, lookup, connected) == Err::<ClientView, ConnectFailure>(
            ConnectFailure::ConnectionRefused,
        ) <==> {
            &&& parts matches Some(p)
            &&& p.scheme == scheme()
            &&& lookup matches LookupView::Addresses(found)
            &&& found.len() > 0
            &&& !connected
        },
{
}

/// The probe is given the limit that the first step was given.
pub proof fn lemma_probe_keeps_timeout(parts: Option<UriView>, timeout_ms: u64, lookup: LookupView)
    ensures
        plan(parts, timeout_ms) matches Ok(resolving) ==> (after_lookup(resolving, lookup) matches Ok(
            probing,
        ) ==> probing.timeout_ms == timeout_ms),
{
}

/// A client is opened exactly when the URI is valid, the lookup gave an
/// address and the probe connected. It then holds the first address, the
/// URI's port or else the default, and the database that the path
/// selects.
pub proof fn lemma_opened_client(parts: Option<UriView>, lookup: LookupView, connected: bool)
    ensures
        open_outcome(parts, lookup, connected) is Ok <==> {
            &&& parts matches Some(p)
            &&& p.scheme == scheme()
            &&& lookup matches LookupView::Addresses(found)
            &&& found.len() > 0
            &&& connected
        },
        open_outcome(parts, lookup, connected) matches Ok(client) ==> {
            &&& client.endpoint.ip == lookup->Addresses_0[0]
            &&& client.endpoint.port == parts->0.port_number()
            &&& parts->0.port is None ==> client.endpoint.port == DEFAULT_PORT
            &&& client.db == db_index_of(parts->0.path)
        },
{
}

} // verus!
