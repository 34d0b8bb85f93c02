use ota_update::error::UpdateError;
use ota_update::release::{Asset, Release};
use ota_update::sequencer::{
    plan_for, plan_update, Command, Download, Observation, Stage, UpdateConfig, UpdateSequencer,
};
use ota_update::version::Version;

fn asset(content_type: &str, name: &str) -> Asset {
    Asset {
        url: format!("https://example/{}", name),
        name: String::from(name),
        content_type: String::from(content_type),
        size: 1,
    }
}

fn firmware(name: &str) -> Asset {
    asset("application/octet-stream", name)
}

fn release(tag: &str, prerelease: bool, assets: Vec<Asset>) -> Release {
    Release { tag_name: String::from(tag), prerelease, assets }
}

fn config(running: &str, include_prerelease: bool) -> UpdateConfig {
    UpdateConfig {
        running_version: String::from(running),
        feed_url: String::from("https://example/releases"),
        include_prerelease,
    }
}

#[test]
fn nothing_newer_nothing_planned() {
    let feed = vec![
        release("1.0.0", false, vec![firmware("a.bin")]),
        release("0.9.0", false, vec![firmware("b.bin")]),
        release("1.0.0-rc.1", true, vec![firmware("c.bin")]),
    ];
    for policy in [false, true] {
        let plan = plan_update(&config("1.0.0", policy), &feed);
        assert_eq!(plan.downloads, vec![]);
        assert_eq!(plan.outcome, Ok(()));
    }
}

#[test]
fn empty_feed_completes_normally() {
    let plan = plan_update(&config("1.0.0", false), &vec![]);
    assert_eq!(plan.downloads, vec![]);
    assert_eq!(plan.outcome, Ok(()));
}

#[test]
fn every_eligible_release_contributes_its_firmware() {
    let feed = vec![
        release("1.2.0", false, vec![asset("text/plain", "notes.bin"), firmware("x.bin"), firmware("y.bin")]),
        release("0.5.0", false, vec![firmware("old.bin")]),
        release("1.1.0", false, vec![firmware("z.bin"), firmware("z.elf")]),
        release("2.0.0", false, vec![]),
    ];
    let plan = plan_update(&config("1.0.0", false), &feed);
    assert_eq!(
        plan.downloads,
        vec![
            Download { release: 0, asset: 1 },
            Download { release: 0, asset: 2 },
            Download { release: 2, asset: 0 }
        ]
    );
    assert_eq!(plan.outcome, Ok(()));
}

#[test]
fn prerelease_policy_filters_releases() {
    let feed = vec![
        release("1.1.0-beta.1", true, vec![firmware("beta.bin")]),
        release("1.0.1", false, vec![firmware("stable.bin")]),
    ];
    let off = plan_update(&config("1.0.0", false), &feed);
    assert_eq!(off.downloads, vec![Download { release: 1, asset: 0 }]);
    let on = plan_update(&config("1.0.0", true), &feed);
    assert_eq!(
        on.downloads,
        vec![Download { release: 0, asset: 0 }, Download { release: 1, asset: 0 }]
    );
}

#[test]
fn flag_decides_not_the_tag() {
    let feed = vec![
        release("1.1.0-beta.1", false, vec![firmware("a.bin")]),
        release("1.2.0", true, vec![firmware("b.bin")]),
    ];
    let plan = plan_update(&config("1.0.0", false), &feed);
    assert_eq!(plan.downloads, vec![Download { release: 0, asset: 0 }]);
}

#[test]
fn malformed_running_version_ends_before_any_release() {
    let feed = vec![release("9.9.9", false, vec![firmware("a.bin")])];
    let plan = plan_update(&config("one", false), &feed);
    assert_eq!(plan.downloads, vec![]);
    assert_eq!(plan.outcome, Err(UpdateError::VersionFormat));
}

#[test]
fn malformed_tag_ends_the_evaluation_where_it_stands() {
    let feed = vec![
        release("1.1.0", false, vec![firmware("a.bin")]),
        release("v1.2.0", false, vec![firmware("b.bin")]),
        release("1.3.0", false, vec![firmware("c.bin")]),
    ];
    let plan = plan_update(&config("1.0.0", false), &feed);
    assert_eq!(plan.downloads, vec![Download { release: 0, asset: 0 }]);
    assert_eq!(plan.outcome, Err(UpdateError::VersionFormat));
}

#[test]
fn malformed_tag_of_a_prerelease_is_still_an_error() {
    let feed = vec![release("nightly", true, vec![firmware("a.bin")])];
    let plan = plan_update(&config("1.0.0", false), &feed);
    assert_eq!(plan.downloads, vec![]);
    assert_eq!(plan.outcome, Err(UpdateError::VersionFormat));
}

#[test]
fn plan_for_takes_a_parsed_version() {
    let running = Version::parse("1.0.0-rc.1").unwrap();
    let feed = vec![
        release("1.0.0-rc.2", false, vec![firmware("a.bin")]),
        release("1.0.0-alpha", false, vec![firmware("b.bin")]),
        release("1.0.0", false, vec![firmware("c.bin")]),
    ];
    let plan = plan_for(&running, &feed, false);
    assert_eq!(
        plan.downloads,
        vec![Download { release: 0, asset: 0 }, Download { release: 2, asset: 0 }]
    );
    assert_eq!(plan.outcome, Ok(()));
}

/// A scripted server: what each asset address answers with.
struct Server {
    answers: Vec<(&'static str, Result<(u16, Option<&'static str>), ()>)>,
    asked: Vec<String>,
    flashes: usize,
    flash_error: UpdateError,
}

impl Server {
    fn new(answers: Vec<(&'static str, Result<(u16, Option<&'static str>), ()>)>) -> Server {
        Server { answers, asked: Vec::new(), flashes: 0, flash_error: UpdateError::Flash }
    }
}

/// Runs a whole check for a given feed observation. A flash always comes
/// back with the server's flash error, as if the device could not restart.
fn run(mut cfg: UpdateConfig, feed: Observation, server: &mut Server) -> Result<(), UpdateError> {
    cfg.feed_url = String::from("https://example/feed");
    let (mut sequencer, mut command) = UpdateSequencer::start(cfg);
    let mut feed = Some(feed);
    loop {
        let observed = match command {
            Command::FetchFeed(url) => {
                assert_eq!(url, "https://example/feed");
                feed.take().expect("the feed is fetched once")
            }
            Command::Send(request) => {
                assert_eq!(request.accept, "application/octet-stream");
                server.asked.push(request.url.clone());
                let answer = server.answers.iter().find(|a| a.0 == request.url).expect("known address");
                match answer.1 {
                    Err(()) => Observation::FetchFailed,
                    Ok((status, location)) => {
                        Observation::Response { status, location: location.map(String::from) }
                    }
                }
            }
            Command::FlashBody => {
                server.flashes += 1;
                Observation::FlashFailed(server.flash_error)
            }
            Command::Finish(result) => return result,
        };
        command = sequencer.advance(observed);
    }
}

fn one_newer_release() -> Observation {
    Observation::Feed(vec![
        release("0.9.0", false, vec![firmware("old.bin")]),
        release("1.1.0", false, vec![asset("text/plain", "notes.txt"), firmware("fw.bin")]),
        release("1.2.0", false, vec![firmware("later.bin")]),
    ])
}

#[test]
fn check_without_newer_release_requests_and_flashes_nothing() {
    let mut server = Server::new(vec![]);
    let feed = Observation::Feed(vec![
        release("1.0.0", false, vec![firmware("a.bin")]),
        release("0.1.0", false, vec![firmware("b.bin")]),
    ]);
    assert_eq!(run(config("1.0.0", false), feed, &mut server), Ok(()));
    assert_eq!(server.asked.len(), 0);
    assert_eq!(server.flashes, 0);
}

#[test]
fn check_downloads_first_eligible_firmware_directly() {
    let mut server = Server::new(vec![("https://example/fw.bin", Ok((200, None)))]);
    let result = run(config("1.0.0", false), one_newer_release(), &mut server);
    assert_eq!(result, Err(UpdateError::Flash));
    assert_eq!(server.asked, vec!["https://example/fw.bin"]);
    assert_eq!(server.flashes, 1);
}

#[test]
fn check_follows_one_redirect_then_flashes() {
    let mut server = Server::new(vec![
        ("https://example/fw.bin", Ok((302, Some("https://example/real.bin")))),
        ("https://example/real.bin", Ok((302, Some("https://example/again.bin")))),
    ]);
    let result = run(config("1.0.0", false), one_newer_release(), &mut server);
    assert_eq!(result, Err(UpdateError::Flash));
    assert_eq!(server.asked, vec!["https://example/fw.bin", "https://example/real.bin"]);
    assert_eq!(server.flashes, 1);
}

#[test]
fn check_fails_on_redirect_without_location() {
    let mut server = Server::new(vec![("https://example/fw.bin", Ok((302, None)))]);
    let result = run(config("1.0.0", false), one_newer_release(), &mut server);
    assert_eq!(result, Err(UpdateError::MissingRedirectTarget));
    assert_eq!(server.asked.len(), 1);
    assert_eq!(server.flashes, 0);
}

#[test]
fn check_fails_on_transport_errors() {
    let mut server = Server::new(vec![("https://example/fw.bin", Err(()))]);
    let result = run(config("1.0.0", false), one_newer_release(), &mut server);
    assert_eq!(result, Err(UpdateError::Network));
    assert_eq!(server.flashes, 0);

    let mut server = Server::new(vec![
        ("https://example/fw.bin", Ok((302, Some("https://example/real.bin")))),
        ("https://example/real.bin", Err(())),
    ]);
    let result = run(config("1.0.0", false), one_newer_release(), &mut server);
    assert_eq!(result, Err(UpdateError::Network));
    assert_eq!(server.flashes, 0);

    let mut server = Server::new(vec![]);
    assert_eq!(
        run(config("1.0.0", false), Observation::FetchFailed, &mut server),
        Err(UpdateError::Network)
    );
    assert_eq!(
        run(config("1.0.0", false), Observation::FeedMalformed, &mut server),
        Err(UpdateError::JsonParse)
    );
}

#[test]
fn check_reports_the_flash_error_and_tries_nothing_else() {
    let mut server = Server::new(vec![("https://example/fw.bin", Ok((200, None)))]);
    server.flash_error = UpdateError::Network;
    let result = run(config("1.0.0", false), one_newer_release(), &mut server);
    assert_eq!(result, Err(UpdateError::Network));
    assert_eq!(server.asked.len(), 1);
    assert_eq!(server.flashes, 1);
}

#[test]
fn check_reports_version_format_errors() {
    let mut server = Server::new(vec![]);
    assert_eq!(
        run(config("latest", false), one_newer_release(), &mut server),
        Err(UpdateError::VersionFormat)
    );
    let feed = Observation::Feed(vec![
        release("1.0.0", false, vec![firmware("a.bin")]),
        release("release-2", false, vec![firmware("b.bin")]),
    ]);
    assert_eq!(run(config("1.0.0", false), feed, &mut server), Err(UpdateError::VersionFormat));
    assert_eq!(server.asked.len(), 0);
}

#[test]
fn finished_check_stays_finished() {
    let (mut sequencer, _) = UpdateSequencer::start(config("1.0.0", false));
    assert!(matches!(sequencer.advance(Observation::Feed(vec![])), Command::Finish(Ok(()))));
    assert_eq!(sequencer.stage, Stage::Completed);
    assert!(matches!(sequencer.advance(Observation::FetchFailed), Command::Finish(Ok(()))));
    assert_eq!(sequencer.stage, Stage::Completed);

    let (mut sequencer, _) = UpdateSequencer::start(config("1.0.0", false));
    sequencer.advance(Observation::FeedMalformed);
    assert_eq!(sequencer.stage, Stage::Failed(UpdateError::JsonParse));
    assert!(matches!(
        sequencer.advance(Observation::Feed(vec![])),
        Command::Finish(Err(UpdateError::JsonParse))
    ));
}

#[test]
fn observation_of_the_wrong_kind_fails_the_check() {
    let (mut sequencer, _) = UpdateSequencer::start(config("1.0.0", false));
    assert!(matches!(
        sequencer.advance(Observation::Response { status: 200, location: None }),
        Command::Finish(Err(UpdateError::Network))
    ));
    let (mut sequencer, _) = UpdateSequencer::start(config("1.0.0", false));
    sequencer.advance(one_newer_release());
    assert_eq!(sequencer.stage, Stage::Downloading);
    sequencer.advance(Observation::Response { status: 200, location: None });
    assert_eq!(sequencer.stage, Stage::Flashing);
    assert!(matches!(
        sequencer.advance(Observation::Response { status: 200, location: None }),
        Command::Finish(Err(UpdateError::Flash))
    ));
}
