//! What the HTTP service around the sources is made of: where each source
//! is served, and the headers that every response carries.

use crate::aggregate::Source;
use vstd::prelude::*;

verus! {

/// The path under which the sources are served.
pub const SCRAPE_BASE: &'static str = "/shows/scrape";

/// The path, below `SCRAPE_BASE`, of the list source.
pub const FOOPEE_PATH: &'static str = "/foopee";

/// The path, below `SCRAPE_BASE`, of the table source.
pub const NINETEEN_HZ_PATH: &'static str = "/19hz";

/// The path under which static files are served.
pub const FILES_BASE: &'static str = "/shows";

/// The directory that holds the static files, beside the program's own
/// sources.
pub const FILES_DIR: &'static str = "public";

/// What answers the requests of a mount.
#[derive(Clone, Copy, Debug, PartialEq, Eq, Structural)]
pub enum Endpoint {
    /// The shows of a source, scraped anew for each request.
    Scrape(Source),
    /// The files of a directory.
    Files,
}

/// One thing that the service serves: `path` is the route below `base`
/// for a source, and the directory for files.
#[derive(Clone, Copy, Debug)]
pub struct Mount {
    pub base: &'static str,
    pub path: &'static str,
    pub endpoint: Endpoint,
}

/// One header of a response.
#[derive(Clone, Copy, Debug)]
pub struct Header {
    pub name: &'static str,
    pub value: &'static str,
}

/// When a fairing acts.
#[derive(Clone, Copy, Debug, PartialEq, Eq, Structural)]
pub enum Kind {
    /// On every response, before it is sent.
    Response,
}

/// What a fairing says of itself.
#[derive(Clone, Copy, Debug)]
pub struct Info {
    pub name: &'static str,
    pub kind: Kind,
}

/// The fairing that opens the service to pages of any origin.
#[derive(Clone, Copy, Debug)]
pub struct CORS;

/// The headers that `CORS` sets, as pairs of name and value, in the order
/// it sets them.
pub open spec fn cors_headers() -> Seq<(Seq<char>, Seq<char>)> {
    seq![
        ("Access-Control-Allow-Origin"@, "*"@),
        ("Access-Control-Allow-Methods"@, "POST, GET, PATCH, OPTIONS"@),
        ("Access-Control-Allow-Headers"@, "*"@),
        ("Access-Control-Allow-Credentials"@, "true"@),
    ]
}

/// Name and value of each header.
pub open spec fn headers_view(headers: Seq<Header>) -> Seq<(Seq<char>, Seq<char>)> {
    headers.map_values(|h: Header| (h.name@, h.value@))
}

/// The mounts of the service as base, path and endpoint, in the order
/// they are mounted.
pub open spec fn mounts() -> Seq<(Seq<char>, Seq<char>, Endpoint)> {
    seq![
        (SCRAPE_BASE@, FOOPEE_PATH@, Endpoint::Scrape(Source::List)),
        (SCRAPE_BASE@, NINETEEN_HZ_PATH@, Endpoint::Scrape(Source::Table)),
        (FILES_BASE@, FILES_DIR@, Endpoint::Files),
    ]
}

/// Base, path and endpoint of each mount.
pub open spec fn mounts_view(mounts: Seq<Mount>) -> Seq<(Seq<char>, Seq<char>, Endpoint)> {
    mounts.map_values(|m: Mount| (m.base@, m.path@, m.endpoint))
}

impl CORS {
    /// The fairing's name, and that it acts on responses.
    pub fn info(&self) -> (r: Info)
        ensures
            r.name@ == "Add CORS headers to responses"@,
            r.kind == Kind::Response,
    {
        Info { name: "Add CORS headers to responses", kind: Kind::Response }
    }

    /// The headers to set on a response, each replacing what the response
    /// had under that name.
    pub fn on_response(&self) -> (r: Vec<Header>)
        ensures
            headers_view(r@) == cors_headers(),
    {
        let mut r: Vec<Header> = Vec::new();
        r.push(Header { name: "Access-Control-Allow-Origin", value: "*" });
        r.push(Header { name: "Access-Control-Allow-Methods", value: "POST, GET, PATCH, OPTIONS" });
        r.push(Header { name: "Access-Control-Allow-Headers", value: "*" });
        r.push(Header { name: "Access-Control-Allow-Credentials", value: "true" });
        r
    }
}

/// What the service mounts: the two sources, then the static files. The
/// fairing `CORS` is attached to all of it.
pub fn rocket() -> (r: (CORS, Vec<Mount>))
    ensures
        mounts_view(r.1@) == mounts(),
{
    let mut plan: Vec<Mount> = Vec::new();
    plan.push(
        Mount { base: SCRAPE_BASE, path: FOOPEE_PATH, endpoint: Endpoint::Scrape(Source::List) },
    );
    plan.push(
        Mount {
            base: SCRAPE_BASE,
            path: NINETEEN_HZ_PATH,
            endpoint: Endpoint::Scrape(Source::Table),
        },
    );
    plan.push(Mount { base: FILES_BASE, path: FILES_DIR, endpoint: Endpoint::Files });
    (CORS, plan)
}

} // verus!
