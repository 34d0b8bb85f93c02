use vstd::prelude::*;
use crate::error::UpdateError;
use crate::release::{Asset, Release, firmware_positions, positions_of, is_firmware_asset, lemma_firmware_positions_in_range};
use crate::redirect::{AssetRequest, Resolution, REDIRECT_STATUS, accept_value, asset_request, resolve};
use crate::version::{Version, VersionView, eligible, newer, semver_parse};

verus! {

/// What an update check is run with.
#[derive(Clone, Debug)]
pub struct UpdateConfig {
    /// The version that the running image declares.
    pub running_version: String,
    /// Where the release feed is fetched from.
    pub feed_url: String,
    /// Whether releases marked as pre-releases may be installed.
    pub include_prerelease: bool,
}

/// One asset to download and flash: the position of its release in the feed
/// and its own position among that release's assets.
#[derive(Clone, Copy, Debug, PartialEq, Eq, Structural)]
pub struct Download {
    pub release: usize,
    pub asset: usize,
}

/// The outcome of evaluating a release feed: the update attempts to make, in
/// order, and how the check ends if none of them restarts the device.
#[derive(Debug)]
pub struct UpdatePlan {
    pub downloads: Vec<Download>,
    pub outcome: Result<(), UpdateError>,
}

/// The mathematical content of an [`UpdatePlan`]: the downloads as pairs of
/// release and asset position, and the error that ends the check, if any.
pub ghost struct PlanView {
    pub downloads: Seq<(int, int)>,
    pub error: Option<UpdateError>,
}

impl View for UpdatePlan {
    type V = PlanView;

    open spec fn view(&self) -> PlanView {
        PlanView {
            downloads: self.downloads@.map_values(|d: Download| (d.release as int, d.asset as int)),
            error: match self.outcome {
                Ok(_) => None,
                Err(e) => Some(e),
            },
        }
    }
}

/// The downloads that the release at position `index` contributes when it is
/// eligible: one for each of its firmware images, in feed order.
pub open spec fn release_downloads(index: int, assets: Seq<Asset>) -> Seq<(int, int)> {
    firmware_positions(assets).map_values(|a: int| (index, a))
}

/// The plan for a feed. Releases are taken in feed order; every eligible one
/// contributes its firmware images; a tag that is no semantic version ends
/// the evaluation with an error, after what came before it.
pub open spec fn planned(running: VersionView, releases: Seq<Release>, include_prerelease: bool)
    -> PlanView
    decreases releases.len(),
{
    if releases.len() == 0 {
        PlanView { downloads: Seq::empty(), error: None }
    } else {
        let before = planned(running, releases.drop_last(), include_prerelease);
        let last = releases.last();
        if before.error is Some {
            before
        } else {
            match semver_parse(last.tag_name@) {
                None => PlanView {
                    downloads: before.downloads,
                    error: Some(UpdateError::VersionFormat),
                },
                Some(v) => if eligible(v, running, last.prerelease, include_prerelease) {
                    PlanView {
                        downloads: before.downloads + release_downloads(
                            releases.len() - 1,
                            last.assets@,
                        ),
                        error: None,
                    }
                } else {
                    before
                },
            }
        }
    }
}

/// The plan for a feed when the running version is still text: a running
/// version that is no semantic version ends the check before any release is
/// looked at.
pub open spec fn planned_from_text(
    running: Seq<char>,
    releases: Seq<Release>,
    include_prerelease: bool,
) -> PlanView {
    match semver_parse(running) {
        None => PlanView { downloads: Seq::empty(), error: Some(UpdateError::VersionFormat) },
        Some(v) => planned(v, releases, include_prerelease),
    }
}

/// Once the evaluation has ended with an error, further releases change
/// nothing.
proof fn lemma_error_ends_plan(
    running: VersionView,
    releases: Seq<Release>,
    k: int,
    include_prerelease: bool,
)
    requires
        0 <= k <= releases.len(),
        planned(running, releases.take(k), include_prerelease).error is Some,
    ensures
        planned(running, releases, include_prerelease) == planned(
            running,
            releases.take(k),
            include_prerelease,
        ),
    decreases releases.len(),
{
    if k == releases.len() {
        assert(releases.take(k) =~= releases);
    } else {
        assert(releases.drop_last().take(k) =~= releases.take(k));
        lemma_error_ends_plan(running, releases.drop_last(), k, include_prerelease);
    }
}

/// Evaluates a release feed against the running version.
pub fn plan_for(running: &Version, releases: &Vec<Release>, include_prerelease: bool) -> (plan:
    UpdatePlan)
    ensures
        plan@ == planned(running@, releases@, include_prerelease),
{
    let mut downloads: Vec<Download> = Vec::new();
    let mut i: usize = 0;
    let ghost view_of = |d: Download| (d.release as int, d.asset as int);
    assert(releases@.take(0) =~= Seq::<Release>::empty());
    assert(downloads@.map_values(view_of) =~= Seq::<(int, int)>::empty());
    while i < releases.len()
        invariant
            i <= releases.len(),
            view_of == |d: Download| (d.release as int, d.asset as int),
            planned(running@, releases@.take(i as int), include_prerelease) == (PlanView {
                downloads: downloads@.map_values(view_of),
                error: None,
            }),
        decreases releases.len() - i,
    {
        assert(releases@.take(i + 1).drop_last() =~= releases@.take(i as int));
        assert(releases@.take(i + 1).last() == releases@[i as int]);
        let release = &releases[i];
        match Version::parse(release.tag_name.as_str()) {
            Err(e) => {
                let plan = UpdatePlan { downloads, outcome: Err(e) };
                proof {
                    lemma_error_ends_plan(running@, releases@, i + 1, include_prerelease);
                }
                return plan;
            },
            Ok(v) => {
                if v.is_eligible_over(running, release.prerelease, include_prerelease) {
                    let found = release.firmware_assets();
                    let ghost base = downloads@.map_values(view_of);
                    let ghost wanted = release_downloads(i as int, release.assets@);
                    let mut j: usize = 0;
                    assert(wanted.take(0) =~= Seq::<(int, int)>::empty());
                    assert(base + wanted.take(0) =~= base);
                    while j < found.len()
                        invariant
                            j <= found.len(),
                            view_of == |d: Download| (d.release as int, d.asset as int),
                            positions_of(found@) == firmware_positions(release.assets@),
                            wanted == release_downloads(i as int, release.assets@),
                            downloads@.map_values(view_of) == base + wanted.take(j as int),
                        decreases found.len() - j,
                    {
                        let ghost so_far = downloads@;
                        assert(positions_of(found@)[j as int] == found@[j as int] as int);
                        downloads.push(Download { release: i, asset: found[j] });
                        assert(downloads@.map_values(view_of) =~= so_far.map_values(view_of).push(
                            (i as int, found@[j as int] as int),
                        ));
                        assert(wanted.take(j + 1) =~= wanted.take(j as int).push(wanted[j as int]));
                        assert(base + wanted.take(j + 1) =~= (base + wanted.take(j as int)).push(
                            wanted[j as int],
                        ));
                        j = j + 1;
                    }
                    assert(positions_of(found@).len() == found@.len());
                    assert(wanted.take(j as int) =~= wanted);
                }
            },
        }
        i = i + 1;
    }
    assert(releases@.take(i as int) =~= releases@);
    UpdatePlan { downloads, outcome: Ok(()) }
}

/// Evaluates a release feed for a configured device: parses the running
/// version, then plans as [`plan_for`] does.
pub fn plan_update(config: &UpdateConfig, releases: &Vec<Release>) -> (plan: UpdatePlan)
    ensures
        plan@ == planned_from_text(config.running_version@, releases@, config.include_prerelease),
{
    match Version::parse(config.running_version.as_str()) {
        Err(e) => {
            let plan = UpdatePlan { downloads: Vec::new(), outcome: Err(e) };
            assert(plan@.downloads =~= Seq::<(int, int)>::empty());
            plan
        },
        Ok(running) => plan_for(&running, releases, config.include_prerelease),
    }
}

/// No-op safety: when no release of the feed is strictly newer than the
/// running version, nothing is downloaded, so no write session is opened
/// and the device is not restarted.
pub proof fn law_nothing_newer_nothing_planned(
    running: VersionView,
    releases: Seq<Release>,
    include_prerelease: bool,
)
    requires
        forall|i: int|
            0 <= i < releases.len() ==> (#[trigger] semver_parse(releases[i].tag_name@)
                matches Some(v) ==> !newer(v, running)),
    ensures
        planned(running, releases, include_prerelease).downloads.len() == 0,
    decreases releases.len(),
{
    if releases.len() > 0 {
        let before = releases.drop_last();
        assert forall|i: int| 0 <= i < before.len() implies (#[trigger] semver_parse(
            before[i].tag_name@,
        ) matches Some(v) ==> !newer(v, running)) by {
            assert(before[i] == releases[i]);
        }
        law_nothing_newer_nothing_planned(running, before, include_prerelease);
        let last = releases[releases.len() - 1];
        assert(semver_parse(last.tag_name@) matches Some(v) ==> !newer(v, running));
    }
}

/// Every planned download names a firmware image of a release of the feed
/// whose tag is a semantic version and which is eligible.
pub proof fn law_planned_downloads_are_eligible(
    running: VersionView,
    releases: Seq<Release>,
    include_prerelease: bool,
    k: int,
)
    requires
        0 <= k < planned(running, releases, include_prerelease).downloads.len(),
    ensures
        ({
            let d = planned(running, releases, include_prerelease).downloads[k];
            &&& 0 <= d.0 < releases.len()
            &&& semver_parse(releases[d.0].tag_name@) matches Some(v) && eligible(
                v,
                running,
                releases[d.0].prerelease,
                include_prerelease,
            )
            &&& 0 <= d.1 < releases[d.0].assets@.len()
            &&& is_firmware_asset(
                releases[d.0].assets@[d.1].content_type@,
                releases[d.0].assets@[d.1].name@,
            )
        }),
    decreases releases.len(),
{
    if releases.len() > 0 {
        let before = planned(running, releases.drop_last(), include_prerelease);
        if k < before.downloads.len() {
            law_planned_downloads_are_eligible(running, releases.drop_last(), include_prerelease, k);
        } else {
            let own = release_downloads(releases.len() - 1, releases.last().assets@);
            let at = k - before.downloads.len();
            assert(own[at].1 == firmware_positions(releases.last().assets@)[at]);
            lemma_firmware_positions_in_range(releases.last().assets@, at);
        }
    }
}

/// Where an update check stands: which outside work is pending.
#[derive(Clone, Copy, Debug, PartialEq, Eq, Structural)]
pub enum Stage {
    /// Waiting for the release feed.
    CheckingFeed,
    /// Waiting for the first response to an asset request.
    Downloading,
    /// Waiting for the response to the one request that follows a redirect.
    Redirected,
    /// The body of the last response is being flashed. A flash that succeeds
    /// restarts the device, so only its failure is ever observed.
    Flashing,
    /// The check completed without anything to install.
    Completed,
    /// The check failed.
    Failed(UpdateError),
}

/// What the caller observed of the work that was pending.
#[derive(Debug)]
pub enum Observation {
    /// The feed was fetched and holds these releases.
    Feed(Vec<Release>),
    /// The feed was fetched and its body is not a release feed.
    FeedMalformed,
    /// The pending request failed in transport.
    FetchFailed,
    /// A response arrived, with this status and `Location` header.
    Response { status: u16, location: Option<String> },
    /// Flashing came back, with this error.
    FlashFailed(UpdateError),
}

/// What the caller has to do next.
#[derive(Debug)]
pub enum Command {
    /// Fetch the release feed from this address.
    FetchFeed(String),
    /// Send this request without following redirects.
    Send(AssetRequest),
    /// Stream the body of the last response into the inactive partition.
    FlashBody,
    /// End the check with this result.
    Finish(Result<(), UpdateError>),
}

/// The mathematical content of an [`Observation`].
pub ghost enum ObservationView {
    Feed(Seq<Release>),
    FeedMalformed,
    FetchFailed,
    Response { status: u16, location: Option<Seq<char>> },
    FlashFailed(UpdateError),
}

/// The mathematical content of a [`Command`].
pub ghost enum CommandView {
    FetchFeed(Seq<char>),
    Send { url: Seq<char>, accept: Seq<char> },
    FlashBody,
    Finish(Option<UpdateError>),
}

impl View for Observation {
    type V = ObservationView;

    open spec fn view(&self) -> ObservationView {
        match *self {
            Observation::Feed(releases) => ObservationView::Feed(releases@),
            Observation::FeedMalformed => ObservationView::FeedMalformed,
            Observation::FetchFailed => ObservationView::FetchFailed,
            Observation::Response { status, location } => ObservationView::Response {
                status,
                location: match location {
                    Some(l) => Some(l@),
                    None => None,
                },
            },
            Observation::FlashFailed(e) => ObservationView::FlashFailed(e),
        }
    }
}

impl View for Command {
    type V = CommandView;

    open spec fn view(&self) -> CommandView {
        match *self {
            Command::FetchFeed(url) => CommandView::FetchFeed(url@),
            Command::Send(request) => CommandView::Send {
                url: request.url@,
                accept: request.accept@,
            },
            Command::FlashBody => CommandView::FlashBody,
            Command::Finish(result) => CommandView::Finish(
                match result {
                    Ok(_) => None,
                    Err(e) => Some(e),
                },
            ),
        }
    }
}

/// The check ends with the error `e`.
pub open spec fn failing(e: UpdateError) -> (Stage, CommandView) {
    (Stage::Failed(e), CommandView::Finish(Some(e)))
}

/// What follows the arrival of the feed: the first planned download is
/// requested; where nothing is planned the check ends as the plan says.
pub open spec fn after_feed(plan: PlanView, releases: Seq<Release>) -> (Stage, CommandView) {
    if plan.downloads.len() > 0 {
        let first = plan.downloads[0];
        (
            Stage::Downloading,
            CommandView::Send {
                url: releases[first.0].assets@[first.1].url@,
                accept: accept_value(),
            },
        )
    } else {
        match plan.error {
            None => (Stage::Completed, CommandView::Finish(None)),
            Some(e) => failing(e),
        }
    }
}

/// The stage and the command that follow `observed` in `stage`, for a device
/// that runs the version `running` under the given pre-release policy.
///
/// Every failure is final, and so is an observation that does not answer
/// the pending work: it counts as a failure of that work.
pub open spec fn transition(
    running: Seq<char>,
    include_prerelease: bool,
    stage: Stage,
    observed: ObservationView,
) -> (Stage, CommandView) {
    match stage {
        Stage::CheckingFeed => match observed {
            ObservationView::Feed(releases) => after_feed(
                planned_from_text(running, releases, include_prerelease),
                releases,
            ),
            ObservationView::FeedMalformed => failing(UpdateError::JsonParse),
            _ => failing(UpdateError::Network),
        },
        Stage::Downloading => match observed {
            ObservationView::Response { status, location } => if status != REDIRECT_STATUS {
                (Stage::Flashing, CommandView::FlashBody)
            } else {
                match location {
                    Some(target) => (
                        Stage::Redirected,
                        CommandView::Send { url: target, accept: accept_value() },
                    ),
                    None => failing(UpdateError::MissingRedirectTarget),
                }
            },
            _ => failing(UpdateError::Network),
        },
        Stage::Redirected => match observed {
            ObservationView::Response { .. } => (Stage::Flashing, CommandView::FlashBody),
            _ => failing(UpdateError::Network),
        },
        Stage::Flashing => match observed {
            ObservationView::FlashFailed(e) => failing(e),
            _ => failing(UpdateError::Flash),
        },
        Stage::Completed => (Stage::Completed, CommandView::Finish(None)),
        Stage::Failed(e) => failing(e),
    }
}

/// One update check: the configuration it runs with and where it stands.
#[derive(Debug)]
pub struct UpdateSequencer {
    pub config: UpdateConfig,
    pub stage: Stage,
}

impl UpdateSequencer {
    /// Begins a check. The first command is to fetch the release feed.
    pub fn start(config: UpdateConfig) -> (r: (UpdateSequencer, Command))
        ensures
            r.0.config == config,
            r.0.stage == Stage::CheckingFeed,
            r.1@ == CommandView::FetchFeed(config.feed_url@),
    {
        let url = config.feed_url.clone();
        (UpdateSequencer { config, stage: Stage::CheckingFeed }, Command::FetchFeed(url))
    }

    /// The command that follows the arrival of the feed, with the stage it
    /// leads to.
    fn on_feed(&self, releases: &Vec<Release>) -> (r: (Stage, Command))
        ensures
            (r.0, r.1@) == after_feed(
                planned_from_text(
                    self.config.running_version@,
                    releases@,
                    self.config.include_prerelease,
                ),
                releases@,
            ),
    {
        let plan = plan_update(&self.config, releases);
        if plan.downloads.len() > 0 {
            let first = plan.downloads[0];
            proof {
                let running = semver_parse(self.config.running_version@);
                assert(running is Some);
                assert(plan@.downloads[0] == (first.release as int, first.asset as int));
                law_planned_downloads_are_eligible(
                    running.unwrap(),
                    releases@,
                    self.config.include_prerelease,
                    0,
                );
            }
            let asset = &releases[first.release].assets[first.asset];
            (Stage::Downloading, Command::Send(asset_request(asset.url.as_str())))
        } else {
            match plan.outcome {
                Ok(_) => (Stage::Completed, Command::Finish(Ok(()))),
                Err(e) => (Stage::Failed(e), Command::Finish(Err(e))),
            }
        }
    }

    /// Takes what was observed of the pending work and returns what to do
    /// next.
    pub fn advance(&mut self, observed: Observation) -> (command: Command)
        ensures
            final(self).config == old(self).config,
            (final(self).stage, command@) == transition(
                old(self).config.running_version@,
                old(self).config.include_prerelease,
                old(self).stage,
                observed@,
            ),
    {
        let stage = self.stage;
        let (next, command) = match (stage, observed) {
            (Stage::CheckingFeed, Observation::Feed(releases)) => self.on_feed(&releases),
            (Stage::CheckingFeed, Observation::FeedMalformed) => fail(UpdateError::JsonParse),
            (Stage::CheckingFeed, _) => fail(UpdateError::Network),
            (Stage::Downloading, Observation::Response { status, location }) => {
                let decision = match &location {
                    Some(target) => resolve(status, Some(target.as_str())),
                    None => resolve(status, None),
                };
                match decision {
                    Ok(Resolution::UseBody) => (Stage::Flashing, Command::FlashBody),
                    Ok(Resolution::Follow(request)) => (Stage::Redirected, Command::Send(request)),
                    Err(e) => fail(e),
                }
            },
            (Stage::Downloading, _) => fail(UpdateError::Network),
            (Stage::Redirected, Observation::Response { .. }) => (
                Stage::Flashing,
                Command::FlashBody,
            ),
            (Stage::Redirected, _) => fail(UpdateError::Network),
            (Stage::Flashing, Observation::FlashFailed(e)) => fail(e),
            (Stage::Flashing, _) => fail(UpdateError::Flash),
            (Stage::Completed, _) => (Stage::Completed, Command::Finish(Ok(()))),
            (Stage::Failed(e), _) => fail(e),
        };
        self.stage = next;
        command
    }
}

/// Ends the check with the error `e`.
fn fail(e: UpdateError) -> (r: (Stage, Command))
    ensures
        (r.0, r.1@) == failing(e),
{
    (Stage::Failed(e), Command::Finish(Err(e)))
}

/// The stage of a fresh check after `observations` were made in order.
pub open spec fn stage_after(
    running: Seq<char>,
    include_prerelease: bool,
    observations: Seq<ObservationView>,
) -> Stage
    decreases observations.len(),
{
    if observations.len() == 0 {
        Stage::CheckingFeed
    } else {
        transition(
            running,
            include_prerelease,
            stage_after(running, include_prerelease, observations.drop_last()),
            observations.last(),
        ).0
    }
}

/// How far a stage is into the check: the feed, the first request, the one
/// redirect, the flash, the end.
pub open spec fn progress(stage: Stage) -> int {
    match stage {
        Stage::CheckingFeed => 0,
        Stage::Downloading => 1,
        Stage::Redirected => 2,
        Stage::Flashing => 3,
        Stage::Completed | Stage::Failed(_) => 4,
    }
}

/// Every observation moves the check forward, so a check is over after at
/// most four of them: the feed, at most two responses, since one redirect
/// is followed and no more, and the failure of the flash.
pub proof fn law_check_ends_within_four(
    running: Seq<char>,
    include_prerelease: bool,
    observations: Seq<ObservationView>,
)
    ensures
        progress(stage_after(running, include_prerelease, observations)) >= if observations.len()
            < 4 {
            observations.len() as int
        } else {
            4
        },
    decreases observations.len(),
{
    if observations.len() > 0 {
        law_check_ends_within_four(running, include_prerelease, observations.drop_last());
    }
}

/// No-op safety of the whole check: when no release of the feed is strictly
/// newer than the running version, the feed is answered by ending the
/// check. No asset is requested and nothing is flashed.
pub proof fn law_nothing_newer_check_ends(
    running: Seq<char>,
    releases: Seq<Release>,
    include_prerelease: bool,
)
    requires
        semver_parse(running) matches Some(r) ==> forall|i: int|
            0 <= i < releases.len() ==> (#[trigger] semver_parse(releases[i].tag_name@)
                matches Some(v) ==> !newer(v, r)),
    ensures
        transition(
            running,
            include_prerelease,
            Stage::CheckingFeed,
            ObservationView::Feed(releases),
        ).1 is Finish,
{
    if semver_parse(running) is Some {
        law_nothing_newer_nothing_planned(
            semver_parse(running).unwrap(),
            releases,
            include_prerelease,
        );
    }
}

/// Flashing is commanded only in answer to a response to an asset request,
/// an asset is requested only for a feed or for a redirect, and a check
/// that is over stays as it ended.
pub proof fn law_flash_follows_response(
    running: Seq<char>,
    include_prerelease: bool,
    stage: Stage,
    observed: ObservationView,
)
    ensures
        transition(running, include_prerelease, stage, observed).1 is FlashBody ==> observed
            is Response && (stage is Downloading || stage is Redirected),
        transition(running, include_prerelease, stage, observed).1 is Send ==> (stage
            is CheckingFeed && observed is Feed) || (stage is Downloading && observed
            is Response),
        (stage is Failed || stage is Completed) ==> transition(
            running,
            include_prerelease,
            stage,
            observed,
        ).0 == stage,
{
}

} // verus!
