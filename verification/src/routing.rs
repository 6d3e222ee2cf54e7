use rand::Rng;
use rand::SeedableRng;
use vstd::prelude::*;
use crate::text::{chars_of, contains_text, occurs_in};

verus! {

/// One of the two backends that the gateway balances between.
#[derive(Clone, Copy, Debug, PartialEq, Eq, Structural)]
pub enum Server {
    Primary,
    Canary,
}

impl Server {
    /// The backend that is not `self`.
    pub open spec fn spec_other(self) -> Server {
        match self {
            Server::Primary => Server::Canary,
            Server::Canary => Server::Primary,
        }
    }

    /// The backend that is not `self`: where a refused connection falls back to.
    pub fn other(self) -> (s: Server)
        ensures
            s == self.spec_other(),
    {
        match self {
            Server::Primary => Server::Canary,
            Server::Canary => Server::Primary,
        }
    }

    pub open spec fn label_view(self) -> Seq<char> {
        match self {
            Server::Primary => "primary"@,
            Server::Canary => "canary"@,
        }
    }

    /// The label under which metrics of this backend are kept.
    pub fn label(self) -> (s: &'static str)
        ensures
            s@ == self.label_view(),
    {
        match self {
            Server::Primary => "primary",
            Server::Canary => "canary",
        }
    }
}

/// Which backends answered the last health check.
#[derive(Clone, Copy, Debug, PartialEq, Eq, Structural)]
pub struct ServerStatus {
    pub primary_online: bool,
    pub canary_online: bool,
}

impl ServerStatus {
    pub open spec fn online(self, server: Server) -> bool {
        match server {
            Server::Primary => self.primary_online,
            Server::Canary => self.canary_online,
        }
    }

    /// Whether `server` answered the last health check.
    pub fn is_online(&self, server: Server) -> (b: bool)
        ensures
            b == self.online(server),
    {
        match server {
            Server::Primary => self.primary_online,
            Server::Canary => self.canary_online,
        }
    }

    /// A status as it was before any health check: both backends offline.
    pub fn offline() -> (s: ServerStatus)
        ensures
            !s.primary_online,
            !s.canary_online,
    {
        ServerStatus { primary_online: false, canary_online: false }
    }

    /// The value of a backend's status gauge: 1 when online, 0 when not.
    pub fn gauge_value(&self, server: Server) -> (v: i64)
        ensures
            v == (if self.online(server) { 1int } else { 0int }),
    {
        if self.is_online(server) {
            1
        } else {
            0
        }
    }
}

/// Where the two backends are and how much traffic goes to the canary.
#[derive(Debug)]
pub struct GatewayConfig {
    pub primary_addr: String,
    pub canary_addr: String,
    pub canary_percentage: u8,
}

pub struct GatewayConfigView {
    pub primary_addr: Seq<char>,
    pub canary_addr: Seq<char>,
    pub canary_percentage: u8,
}

impl GatewayConfigView {
    pub open spec fn addr(self, server: Server) -> Seq<char> {
        match server {
            Server::Primary => self.primary_addr,
            Server::Canary => self.canary_addr,
        }
    }
}

impl View for GatewayConfig {
    type V = GatewayConfigView;

    open spec fn view(&self) -> GatewayConfigView {
        GatewayConfigView {
            primary_addr: self.primary_addr@,
            canary_addr: self.canary_addr@,
            canary_percentage: self.canary_percentage,
        }
    }
}

impl Clone for GatewayConfig {
    fn clone(&self) -> (c: Self)
        ensures
            c@ == self@,
    {
        GatewayConfig {
            primary_addr: self.primary_addr.clone(),
            canary_addr: self.canary_addr.clone(),
            canary_percentage: self.canary_percentage,
        }
    }
}

impl GatewayConfig {
    /// The configuration the gateway starts with, before one is loaded:
    /// no addresses and no canary traffic.
    pub fn empty() -> (c: GatewayConfig)
        ensures
            c@.primary_addr == Seq::<char>::empty(),
            c@.canary_addr == Seq::<char>::empty(),
            c@.canary_percentage == 0,
    {
        GatewayConfig { primary_addr: String::new(), canary_addr: String::new(), canary_percentage: 0 }
    }

    /// The address of `server`.
    pub fn address(&self, server: Server) -> (a: String)
        ensures
            a@ == self@.addr(server),
    {
        match server {
            Server::Primary => self.primary_addr.clone(),
            Server::Canary => self.canary_addr.clone(),
        }
    }
}

/// The backend a request goes to, given which backends are online, the
/// canary percentage and a draw `roll` from `0..100`: with both online, the
/// canary when the draw is below the percentage and the primary otherwise;
/// with one online, that one; with none, no backend.
pub open spec fn route_for(status: ServerStatus, percentage: u8, roll: u8) -> Option<Server> {
    if status.primary_online && status.canary_online {
        if roll < percentage {
            Some(Server::Canary)
        } else {
            Some(Server::Primary)
        }
    } else if status.primary_online {
        Some(Server::Primary)
    } else if status.canary_online {
        Some(Server::Canary)
    } else {
        None
    }
}

/// Decides the backend of a request for a given draw `roll`.
pub fn plan_route(config: &GatewayConfig, status: ServerStatus, roll: u8) -> (r: Option<Server>)
    ensures
        r == route_for(status, config.canary_percentage, roll),
{
    if status.primary_online && status.canary_online {
        if roll < config.canary_percentage {
            Some(Server::Canary)
        } else {
            Some(Server::Primary)
        }
    } else if status.primary_online {
        Some(Server::Primary)
    } else if status.canary_online {
        Some(Server::Canary)
    } else {
        None
    }
}

/// A uniform draw from `0..bound`.
///
/// Trusted: calls rand's `Rng::gen_range(0..bound)` on `rand::thread_rng()`.
/// By rand's documentation the result lies in the range, and the call panics
/// only on an empty range, which `requires` rules out; which value comes out
/// is chance and is not stated. `thread_rng` panics if the operating system
/// gives no entropy.
#[verifier::external_body]
pub(crate) fn draw_below(bound: u8) -> (r: u8)
    requires
        bound > 0,
    ensures
        r < bound,
{
    rand::thread_rng().gen_range(0..bound)
}

/// Whatever the draw, the backend chosen is one that is online.
pub proof fn law_route_only_to_online(status: ServerStatus, percentage: u8, roll: u8)
    ensures
        route_for(status, percentage, roll) matches Some(s) ==> status.online(s),
{
}

/// No backend is chosen exactly when both are offline.
pub proof fn law_route_none_iff_all_offline(status: ServerStatus, percentage: u8, roll: u8)
    ensures
        route_for(status, percentage, roll) is None <==> (!status.primary_online
            && !status.canary_online),
{
}

/// With both backends online, a canary percentage of 0 sends every request to
/// the primary and one of 100 or more sends every request to the canary.
pub proof fn law_route_percentage_bounds(status: ServerStatus, percentage: u8, roll: u8)
    requires
        status.primary_online,
        status.canary_online,
        roll < 100,
    ensures
        percentage == 0 ==> route_for(status, percentage, roll) == Some(Server::Primary),
        percentage >= 100 ==> route_for(status, percentage, roll) == Some(Server::Canary),
{
}

/// The configuration of the direct proxy, which pipes a connection's bytes to
/// one backend.
#[derive(Debug)]
pub struct Config {
    pub primary_addr: String,
    pub canary_addr: String,
    pub canary_percentage: u8,
}

impl Clone for Config {
    fn clone(&self) -> (c: Self)
        ensures
            c.primary_addr@ == self.primary_addr@,
            c.canary_addr@ == self.canary_addr@,
            c.canary_percentage == self.canary_percentage,
    {
        Config {
            primary_addr: self.primary_addr.clone(),
            canary_addr: self.canary_addr.clone(),
            canary_percentage: self.canary_percentage,
        }
    }
}

/// Which backends the direct proxy's availability checkers last found
/// reachable.
#[derive(Clone, Copy, Debug, PartialEq, Eq, Structural)]
pub struct ServiceAvailability {
    pub primary_available: bool,
    pub canary_available: bool,
}

impl ServiceAvailability {
    /// Nothing found reachable yet.
    pub fn new() -> (a: ServiceAvailability)
        ensures
            !a.primary_available,
            !a.canary_available,
    {
        ServiceAvailability { primary_available: false, canary_available: false }
    }

    /// Records the outcome of a check of `addr`: an address that holds the
    /// text `primary` is the primary's, any other the canary's.
    pub fn update_availability(&mut self, addr: &str, available: bool)
        ensures
            occurs_in("primary"@, addr@) ==> final(self).primary_available == available
                && final(self).canary_available == old(self).canary_available,
            !occurs_in("primary"@, addr@) ==> final(self).canary_available == available
                && final(self).primary_available == old(self).primary_available,
    {
        let text = chars_of(addr);
        let pattern = chars_of("primary");
        if contains_text(&text, &pattern) {
            self.primary_available = available;
        } else {
            self.canary_available = available;
        }
    }
}

/// The backend the direct proxy picks for a draw `roll`: the
/// canary when the draw is below the percentage and the canary is available;
/// otherwise the primary when it is available; otherwise none.
pub open spec fn direct_route_for(
    availability: ServiceAvailability,
    percentage: u8,
    roll: u8,
) -> Option<Server> {
    if roll < percentage && availability.canary_available {
        Some(Server::Canary)
    } else if availability.primary_available {
        Some(Server::Primary)
    } else {
        None
    }
}

/// Decides the backend of a connection to the direct proxy for a given draw
/// `roll`.
pub fn plan_direct_route(config: &Config, availability: ServiceAvailability, roll: u8) -> (r: Option<
    Server,
>)
    ensures
        r == direct_route_for(availability, config.canary_percentage, roll),
{
    if roll < config.canary_percentage && availability.canary_available {
        Some(Server::Canary)
    } else if availability.primary_available {
        Some(Server::Primary)
    } else {
        None
    }
}

/// A uniform draw from `0..bound` from a freshly seeded ChaCha generator.
///
/// Trusted: calls rand's `Rng::gen_range(0..bound)` on
/// `rand_chacha::ChaChaRng::from_entropy()`. By rand's documentation the
/// result lies in the range, and the call panics only on an empty range,
/// which `requires` rules out; which value comes out is chance and is not
/// stated. `from_entropy` panics if the operating system gives no entropy.
#[verifier::external_body]
fn draw_below_chacha(bound: u8) -> (r: u8)
    requires
        bound > 0,
    ensures
        r < bound,
{
    rand_chacha::ChaChaRng::from_entropy().gen_range(0..bound)
}

/// Decides the backend of a connection to the direct proxy with a fresh
/// random draw.
pub fn choose_direct_route(config: &Config, availability: ServiceAvailability) -> (r: Option<Server>)
    ensures
        exists|roll: u8|
            roll < 100 && r == direct_route_for(availability, config.canary_percentage, roll),
{
    let roll = draw_below_chacha(100);
    plan_direct_route(config, availability, roll)
}


/// With both backends online, a request goes to the canary exactly when the
/// draw is below the canary percentage, and to the primary otherwise.
pub proof fn law_route_splits_by_draw(percentage: u8, roll: u8)
    ensures
        route_for(ServerStatus { primary_online: true, canary_online: true }, percentage, roll)
            == (Some(Server::Canary)) <==> roll < percentage,
        route_for(ServerStatus { primary_online: true, canary_online: true }, percentage, roll)
            == (Some(Server::Primary)) <==> roll >= percentage,
{
}

/// With one backend online, every request goes to it, whatever the
/// percentage and the draw.
pub proof fn law_route_single_online(percentage: u8, roll: u8)
    ensures
        route_for(ServerStatus { primary_online: true, canary_online: false }, percentage, roll)
            == Some(Server::Primary),
        route_for(ServerStatus { primary_online: false, canary_online: true }, percentage, roll)
            == Some(Server::Canary),
{
}

/// The direct proxy takes the canary exactly when the draw is below the
/// percentage and the canary is available; it has no backend exactly when
/// it does not take the canary and the primary is unavailable; otherwise it
/// takes the primary. So an available primary always serves a connection
/// that the canary does not.
pub proof fn law_direct_route(availability: ServiceAvailability, percentage: u8, roll: u8)
    ensures
        direct_route_for(availability, percentage, roll) == Some(Server::Canary) <==> (roll
            < percentage && availability.canary_available),
        direct_route_for(availability, percentage, roll) is None <==> (!availability.primary_available
            && !(roll < percentage && availability.canary_available)),
        availability.primary_available && !(roll < percentage && availability.canary_available)
            ==> direct_route_for(availability, percentage, roll) == Some(Server::Primary),
        availability.primary_available && !availability.canary_available ==> direct_route_for(
            availability,
            percentage,
            roll,
        ) == Some(Server::Primary),
{
}

} // verus!
