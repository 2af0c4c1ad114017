//! Core of a standalone HTTP service that translates comic pages: which requests are admitted,
//! what each one asks for step by step, and how it is answered.
//!
//! An exchange, in [`exchange`], is a state machine. It is told what happened, and says what is
//! to be done next; [`steps`] and [`runs`] state what
//! holds of every step and of every exchange. The page at its centre is
//! another such machine, in [`translate`].
use vstd::prelude::*;

pub mod cli;
pub mod config;
pub mod error;
pub mod exchange;
pub mod handlers;
pub mod health;
pub mod json;
pub mod page;
pub mod reply;
pub mod runs;
pub mod state;
pub mod steps;
pub mod text;
pub mod translate;

verus! {

/// Hard cap on request bodies, 64 MiB; comic page scans fit well under this.
pub const MAX_UPLOAD_BYTES: usize = 67108864;

/// The HTTP methods that the service answers to.
#[derive(Clone, Copy, PartialEq, Eq, Structural)]
pub enum Method {
    Get,
    Post,
}

/// What the service offers.
#[derive(Clone, Copy, PartialEq, Eq, Structural)]
pub enum Endpoint {
    Translate,
    TranslatePath,
    Health,
}

/// Where an endpoint is found.
pub struct Route {
    pub path: &'static str,
    pub method: Method,
    pub endpoint: Endpoint,
}

/// The path and the method of an endpoint.
pub open spec fn location_of(endpoint: Endpoint) -> (Seq<char>, Method) {
    match endpoint {
        Endpoint::Translate => ("/translate"@, Method::Post),
        Endpoint::TranslatePath => ("/translate-path"@, Method::Post),
        Endpoint::Health => ("/health"@, Method::Get),
    }
}

/// Whether `route` leads to its endpoint.
pub open spec fn leads_right(route: Route) -> bool {
    (route.path@, route.method) == location_of(route.endpoint)
}

/// The routes of the service: one to each endpoint.
pub fn router() -> (r: Vec<Route>)
    ensures
        r@.len() == 3,
        r@[0].endpoint == Endpoint::Translate,
        r@[1].endpoint == Endpoint::TranslatePath,
        r@[2].endpoint == Endpoint::Health,
        forall|i: int| 0 <= i < 3 ==> leads_right(#[trigger] r@[i]),
        r@[0].path@ == "/translate"@ && r@[0].method == Method::Post,
        r@[1].path@ == "/translate-path"@ && r@[1].method == Method::Post,
        r@[2].path@ == "/health"@ && r@[2].method == Method::Get,
{
    let mut routes: Vec<Route> = Vec::new();
    routes.push(
        Route { path: "/translate", method: Method::Post, endpoint: Endpoint::Translate },
    );
    routes.push(
        Route { path: "/translate-path", method: Method::Post, endpoint: Endpoint::TranslatePath },
    );
    routes.push(Route { path: "/health", method: Method::Get, endpoint: Endpoint::Health });
    routes
}

/// A path leads to one endpoint at most.
pub proof fn endpoints_have_paths_of_their_own(a: Endpoint, b: Endpoint)
    requires
        location_of(a).0 == location_of(b).0,
    ensures
        a == b,
{
    reveal_strlit("/translate");
    reveal_strlit("/translate-path");
    reveal_strlit("/health");
    assert("/translate"@.len() == 10 && "/translate-path"@.len() == 15 && "/health"@.len() == 7);
}

} // verus!
