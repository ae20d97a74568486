//! Which addresses the server tries to listen on, and what it tells of the one it found.

use vstd::prelude::*;

use crate::plugin_server::{PluginServerStatus, StatusView};
use crate::text;
use crate::text::CharClass;

verus! {

pub const STARTUP_RECEIVER_DROPPED: &'static str = "plugin server startup receiver dropped";

pub const DEFAULT_BIND_HOST: &'static str = "127.0.0.1";

pub const DEFAULT_BIND_PORT: u64 = 50051;

pub const AUTO_BIND_PORT_COUNT: u64 = 20;

/// The address of a port on the host that is used where none is named.
pub open spec fn default_address(port: int) -> Seq<char> {
    DEFAULT_BIND_HOST@ + ":"@ + text::decimal(port as nat)
}

/// The addresses of the first ports of the range that is tried where none is named.
pub open spec fn default_addresses(count: nat) -> Seq<Seq<char>> {
    Seq::new(count, |i: int| default_address(DEFAULT_BIND_PORT + i))
}

/// The addresses to try, in their order: the one that is named, or one for each port of a
/// fixed range.
pub open spec fn address_candidates(bind_address: Option<Seq<char>>) -> Seq<Seq<char>> {
    match bind_address {
        Some(address) if text::trimmed(address).len() > 0 => seq![text::trimmed(address)],
        _ => default_addresses(AUTO_BIND_PORT_COUNT as nat),
    }
}

/// The addresses that a server tries, in their order.
pub fn bind_address_candidates(bind_address: Option<&str>) -> (r: Vec<String>)
    ensures
        text::texts(r@) == address_candidates(text::text_ref(bind_address)),
{
    if let Some(bind_address) = bind_address {
        let named = text::trim(bind_address);
        if !named.is_empty() {
            let mut addresses: Vec<String> = Vec::new();
            addresses.push(named.to_owned());
            assert(text::texts(addresses@) =~= seq![text::trimmed(bind_address@)]);
            return addresses;
        }
    }
    let mut addresses: Vec<String> = Vec::new();
    let mut i: u64 = 0;
    while i < AUTO_BIND_PORT_COUNT
        invariant
            i <= AUTO_BIND_PORT_COUNT,
            text::texts(addresses@) == default_addresses(i as nat),
        decreases AUTO_BIND_PORT_COUNT - i,
    {
        let port = text::decimal_text(DEFAULT_BIND_PORT + i);
        let address = text::concat3(DEFAULT_BIND_HOST, ":", &port);
        let ghost before = addresses@;
        addresses.push(address);
        assert(text::texts(addresses@) =~= text::texts(before).push(
            default_address(DEFAULT_BIND_PORT + i),
        ));
        i = i + 1;
        assert(text::texts(addresses@) =~= default_addresses(i as nat));
    }
    addresses
}

/// The URL of the server that listens on an address.
pub open spec fn url_of(ip: Seq<char>, port: u16) -> Seq<char> {
    "http://"@ + ip + ":"@ + text::decimal(port as nat) + "/mcp"@
}

/// The status of the server that listens on an address, before it is in the registry.
pub fn listening_status(ip: &str, port: u16) -> (r: PluginServerStatus)
    ensures
        r@ == (StatusView { mcp_url: url_of(ip@, port), registry_path: None }),
{
    let port = text::decimal_text(port as u64);
    let mcp_url = text::concat3("http://", ip, ":").concat(&port).concat("/mcp");
    PluginServerStatus { mcp_url, registry_path: None }
}

/// What a search for an address knows: which addresses there are, how many of them did not
/// bind, what the last of those said, and whether the next one did bind.
pub struct BindView {
    pub addresses: Seq<Seq<char>>,
    pub failed: nat,
    pub last_error: Option<Seq<char>>,
    pub bound: bool,
}

impl BindView {
    pub open spec fn begun(addresses: Seq<Seq<char>>) -> BindView {
        BindView { addresses, failed: 0, last_error: None, bound: false }
    }

    /// The address to try next, unless one did bind or none is left.
    pub open spec fn wanted(self) -> Option<Seq<char>> {
        if !self.bound && self.failed < self.addresses.len() {
            Some(self.addresses[self.failed as int])
        } else {
            None
        }
    }

    /// What is known after the attempt on the address that was wanted.
    pub open spec fn after(self, attempt: Result<(), Seq<char>>) -> BindView {
        match (self.wanted(), attempt) {
            (None, _) => self,
            (Some(_), Ok(())) => BindView { bound: true, ..self },
            (Some(address), Err(error)) => BindView {
                failed: self.failed + 1,
                last_error: Some(address + ": "@ + error),
                ..self
            },
        }
    }

    /// What is known after a row of attempts.
    pub open spec fn run(self, attempts: Seq<Result<(), Seq<char>>>) -> BindView
        decreases attempts.len(),
    {
        if attempts.len() == 0 {
            self
        } else {
            self.run(attempts.drop_last()).after(attempts.last())
        }
    }

    /// Whether an address did bind, or what is told where none did.
    pub open spec fn result(self) -> Result<(), Seq<char>> {
        if self.bound {
            Ok(())
        } else {
            Err(
                match self.last_error {
                    Some(error) => "failed to bind MCP server"@ + "; last error: "@ + error,
                    None => "failed to bind MCP server"@,
                },
            )
        }
    }
}

/// A search for an address that can be listened on.
pub struct BindSequence {
    addresses: Vec<String>,
    failed: usize,
    last_error: Option<String>,
    bound: bool,
}

impl View for BindSequence {
    type V = BindView;

    closed spec fn view(&self) -> BindView {
        BindView {
            addresses: text::texts(self.addresses@),
            failed: self.failed as nat,
            last_error: text::text_of(self.last_error),
            bound: self.bound,
        }
    }
}

impl BindSequence {
    /// A search that has tried nothing yet.
    pub fn new(addresses: Vec<String>) -> (r: Self)
        ensures
            r@ == BindView::begun(text::texts(addresses@)),
    {
        BindSequence { addresses, failed: 0, last_error: None, bound: false }
    }

    /// The address to try next.
    pub fn wanted(&self) -> (r: Option<&str>)
        ensures
            text::text_ref(r) == self@.wanted(),
    {
        if !self.bound && self.failed < self.addresses.len() {
            Some(self.addresses[self.failed].as_str())
        } else {
            None
        }
    }

    /// Takes in how the attempt on the address that was wanted ended.
    pub fn record(&mut self, attempt: Result<(), String>)
        ensures
            final(self)@ == old(self)@.after(text::outcome_of(attempt)),
    {
        if self.bound || self.failed >= self.addresses.len() {
            return;
        }
        match attempt {
            Ok(()) => {
                self.bound = true;
            },
            Err(error) => {
                self.last_error = Some(
                    text::concat3(self.addresses[self.failed].as_str(), ": ", &error),
                );
                self.failed = self.failed + 1;
            },
        }
    }

    /// Whether an address did bind.
    pub fn result(&self) -> (r: Result<(), String>)
        ensures
            text::outcome_of(r) == self@.result(),
    {
        if self.bound {
            return Ok(());
        }
        match &self.last_error {
            Some(error) => Err(
                text::concat3("failed to bind MCP server", "; last error: ", error),
            ),
            None => Err("failed to bind MCP server".to_owned()),
        }
    }
}

/// The addresses are tried one after the other: after a number of failures the next one is
/// wanted, and what is told is the error of the last.
pub proof fn addresses_are_tried_in_their_order(
    addresses: Seq<Seq<char>>,
    attempts: Seq<Result<(), Seq<char>>>,
)
    requires
        attempts.len() <= addresses.len(),
        forall|i: int| 0 <= i < attempts.len() ==> (#[trigger] attempts[i]) is Err,
    ensures
        ({
            let search = BindView::begun(addresses).run(attempts);
            &&& search.addresses == addresses
            &&& search.failed == attempts.len()
            &&& search.wanted() == (if attempts.len() < addresses.len() {
                Some(addresses[attempts.len() as int])
            } else {
                None
            })
            &&& search.after(Ok(())).bound == (attempts.len() < addresses.len())
            &&& search.after(Ok(())).failed == attempts.len()
            &&& search.result() == Err::<(), Seq<char>>(
                if attempts.len() == 0 {
                    "failed to bind MCP server"@
                } else {
                    "failed to bind MCP server"@ + "; last error: "@ + (addresses[attempts.len()
                        - 1] + ": "@ + attempts.last()->Err_0)
                },
            )
        }),
    decreases attempts.len(),
{
    if attempts.len() > 0 {
        addresses_are_tried_in_their_order(addresses, attempts.drop_last());
    }
}

/// An address that is named is the only one that is tried, without the space around it; what
/// is only space names none.
pub proof fn a_named_address_is_the_only_one(
    before: Seq<char>,
    address: Seq<char>,
    after: Seq<char>,
)
    requires
        forall|i: int| 0 <= i < before.len() ==> text::is_space(#[trigger] before[i]),
        forall|i: int| 0 <= i < after.len() ==> text::is_space(#[trigger] after[i]),
        address.len() > 0 ==> !text::is_space(address[0]) && !text::is_space(address.last()),
    ensures
        address.len() > 0 ==> address_candidates(Some(before + address + after)) == seq![address],
        address.len() == 0 ==> address_candidates(Some(before + address + after))
            == address_candidates(None),
{
    let k = CharClass::Space;
    assert forall|i: int| 0 <= i < before.len() implies k.has(#[trigger] before[i]) by {
        assert(text::is_space(before[i]));
    }
    assert forall|i: int| 0 <= i < after.len() implies k.has(#[trigger] after[i]) by {
        assert(text::is_space(after[i]));
    }
    text::stripping_takes_off_what_stands_around(before, address, after, k);
}

/// Where no address is named, twenty ports of the local host are tried, from the first
/// upwards, each of them once.
pub proof fn twenty_ports_are_tried_upwards(i: int, j: int)
    requires
        0 <= i < 20,
        0 <= j < 20,
    ensures
        address_candidates(None).len() == 20,
        address_candidates(None)[i] == "127.0.0.1:"@ + text::decimal((50051 + i) as nat),
        text::number_of(address_candidates(None)[i].skip(10)) == 50051 + i,
        i != j ==> address_candidates(None)[i] != address_candidates(None)[j],
{
    lemma_default_address(i);
    lemma_default_address(j);
}

proof fn lemma_default_address(i: int)
    requires
        0 <= i < 20,
    ensures
        default_address(50051 + i) == "127.0.0.1:"@ + text::decimal((50051 + i) as nat),
        text::number_of(default_address(50051 + i).skip(10)) == 50051 + i,
{
    reveal_strlit("127.0.0.1:");
    reveal_strlit("127.0.0.1");
    reveal_strlit(":");
    assert("127.0.0.1:"@ =~= "127.0.0.1"@ + ":"@);
    text::digits_read_as_their_number((50051 + i) as nat);
    assert(default_address(50051 + i).skip(10) =~= text::decimal((50051 + i) as nat));
}

/// The URL of a server holds its address and its port, and names the endpoint.
pub proof fn a_url_names_the_endpoint(ip: Seq<char>, port: u16)
    ensures
        ({
            let url = url_of(ip, port);
            let digits = url.subrange(8 + ip.len() as int, url.len() - 4);
            &&& url.take(7) == "http://"@
            &&& url.subrange(7, 7 + ip.len() as int) == ip
            &&& url[7 + ip.len() as int] == ':'
            &&& text::number_of(digits) == port
            &&& text::is_number(digits)
            &&& url.skip(url.len() - 4) == "/mcp"@
        }),
{
    reveal_strlit("http://");
    reveal_strlit(":");
    reveal_strlit("/mcp");
    let url = url_of(ip, port);
    let digits = text::decimal(port as nat);
    text::digits_read_as_their_number(port as nat);
    assert(url.take(7) =~= "http://"@);
    assert(url.subrange(7, 7 + ip.len() as int) =~= ip);
    assert(url.subrange(8 + ip.len() as int, url.len() - 4) =~= digits);
    assert(url.skip(url.len() - 4) =~= "/mcp"@);
}

/// The first attempt that binds ends the search: nothing is wanted after it, and later attempts
/// change nothing. The same holds where no address is left.
pub proof fn the_first_that_binds_ends_the_search(
    search: BindView,
    attempt: Result<(), Seq<char>>,
)
    ensures
        search.wanted() is Some ==> {
            &&& search.after(Ok(())).result() is Ok
            &&& search.after(Ok(())).wanted() is None
            &&& search.after(Ok(())).after(attempt) == search.after(Ok(()))
        },
        search.wanted() is None ==> search.after(attempt) == search,
        search.bound <==> search.result() is Ok,
        search.bound ==> search.wanted() is None,
{
}

} // verus!
