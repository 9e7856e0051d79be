use show_scraper::aggregate::Source;
use show_scraper::server::{rocket, Endpoint, Kind, CORS};

#[test]
fn cors_names_itself_and_acts_on_responses() {
    let info = CORS.info();
    assert_eq!(info.name, "Add CORS headers to responses");
    assert_eq!(info.kind, Kind::Response);
}

#[test]
fn cors_sets_four_headers() {
    let headers: Vec<(&str, &str)> = CORS.on_response().iter().map(|h| (h.name, h.value)).collect();
    assert_eq!(
        headers,
        vec![
            ("Access-Control-Allow-Origin", "*"),
            ("Access-Control-Allow-Methods", "POST, GET, PATCH, OPTIONS"),
            ("Access-Control-Allow-Headers", "*"),
            ("Access-Control-Allow-Credentials", "true"),
        ]
    );
}

#[test]
fn rocket_mounts_both_sources_and_the_files() {
    let (_cors, mounts) = rocket();
    let plan: Vec<(&str, &str, Endpoint)> =
        mounts.iter().map(|m| (m.base, m.path, m.endpoint)).collect();
    assert_eq!(
        plan,
        vec![
            ("/shows/scrape", "/foopee", Endpoint::Scrape(Source::List)),
            ("/shows/scrape", "/19hz", Endpoint::Scrape(Source::Table)),
            ("/shows", "public", Endpoint::Files),
        ]
    );
}
