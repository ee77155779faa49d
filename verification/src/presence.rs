use crate::config::RETRY_DELAY;
use crate::resources::{ROBLOX_ICON_URL, ROBLOX_STUDIO_ICON_URL};
use crate::roblox::{AuthInfo, PlaceInfo, PlaceInfoView, PresenceType, RemoteError, UserPresence};
use crate::utils::{ActivityInfo, ActivityInfoView, Button, Config, ConfigView, DiscordClient};
use vstd::prelude::*;

verus! {

/// What the loop remembers between cycles: the status and the universe last
/// seen, and when the session on display began (seconds since the epoch).
#[derive(Debug, Clone, Copy, PartialEq, Eq, Structural)]
pub struct TransitionState {
    pub last_status: PresenceType,
    pub last_container_id: i64,
    pub session_start: u64,
}

/// The universe that a snapshot names as the game being played, if any.
pub open spec fn container_of(snapshot: UserPresence) -> Option<i64> {
    if snapshot.presence_type == PresenceType::InGame {
        snapshot.universe_id
    } else {
        None
    }
}

/// Whether a snapshot starts a new session: its status differs from the last
/// one, or it names another game than the last one.
pub open spec fn spec_resets(state: TransitionState, snapshot: UserPresence) -> bool {
    snapshot.presence_type != state.last_status || (container_of(snapshot) is Some && container_of(
        snapshot,
    )->0 != state.last_container_id)
}

/// The state after the very first snapshot, seen at time `now`.
pub open spec fn spec_first(snapshot: UserPresence, now: u64) -> TransitionState {
    TransitionState {
        last_status: snapshot.presence_type,
        last_container_id: match container_of(snapshot) {
            Some(c) => c,
            None => 0,
        },
        session_start: now,
    }
}

/// The state after a further snapshot, seen at time `now`.
pub open spec fn spec_observe(state: TransitionState, snapshot: UserPresence, now: u64) -> TransitionState {
    TransitionState {
        last_status: snapshot.presence_type,
        last_container_id: match container_of(snapshot) {
            Some(c) => c,
            None => state.last_container_id,
        },
        session_start: if spec_resets(state, snapshot) {
            now
        } else {
            state.session_start
        },
    }
}

/// The state after a snapshot, whether or not one was seen before.
pub open spec fn spec_track(previous: Option<TransitionState>, snapshot: UserPresence, now: u64) -> TransitionState {
    match previous {
        Some(state) => spec_observe(state, snapshot, now),
        None => spec_first(snapshot, now),
    }
}

/// The state after the first `n` snapshots of a stream, the `i`-th of them
/// seen at `times[i]`; `None` before any.
pub open spec fn replay(snapshots: Seq<UserPresence>, times: Seq<u64>, n: nat) -> Option<TransitionState>
    decreases n,
{
    if n == 0 {
        None
    } else {
        Some(spec_track(replay(snapshots, times, (n - 1) as nat), snapshots[n - 1], times[n - 1]))
    }
}

impl TransitionState {
    /// The state after the very first snapshot.
    pub fn first(snapshot: &UserPresence, now: u64) -> (r: TransitionState)
        ensures
            r == spec_first(*snapshot, now),
    {
        let mut container: i64 = 0;
        if snapshot.presence_type == PresenceType::InGame {
            if let Some(c) = snapshot.universe_id {
                container = c;
            }
        }
        TransitionState {
            last_status: snapshot.presence_type,
            last_container_id: container,
            session_start: now,
        }
    }

    /// Whether `snapshot` starts a new session.
    pub fn resets(&self, snapshot: &UserPresence) -> (r: bool)
        ensures
            r == spec_resets(*self, *snapshot),
    {
        if snapshot.presence_type != self.last_status {
            return true;
        }
        if snapshot.presence_type == PresenceType::InGame {
            if let Some(c) = snapshot.universe_id {
                return c != self.last_container_id;
            }
        }
        false
    }

    /// The state after a further snapshot: the session's start moves to `now`
    /// exactly when the snapshot starts a new session.
    pub fn observe(&self, snapshot: &UserPresence, now: u64) -> (r: TransitionState)
        ensures
            r == spec_observe(*self, *snapshot, now),
    {
        let mut container: i64 = self.last_container_id;
        if snapshot.presence_type == PresenceType::InGame {
            if let Some(c) = snapshot.universe_id {
                container = c;
            }
        }
        TransitionState {
            last_status: snapshot.presence_type,
            last_container_id: container,
            session_start: if self.resets(snapshot) {
                now
            } else {
                self.session_start
            },
        }
    }
}

/// The state after a snapshot, whether or not one was seen before.
pub fn track(previous: Option<TransitionState>, snapshot: &UserPresence, now: u64) -> (r: TransitionState)
    ensures
        r == spec_track(previous, *snapshot, now),
{
    match previous {
        Some(state) => state.observe(snapshot, now),
        None => TransitionState::first(snapshot, now),
    }
}

/// What a cycle sets out to do once the presence is known.
#[derive(Debug, Clone, Copy, PartialEq, Eq)]
pub enum Plan {
    /// Show that the user browses the website.
    Website,
    /// Look up the place and the universe's icon, then show the game.
    Game { place_id: i64, universe_id: i64 },
    /// Look up the place, then show that it is being developed.
    Studio { place_id: i64 },
    /// Show that an unknown place is being developed.
    StudioUnknown,
    /// Leave what is shown as it is.
    Skip,
    /// Clear both clients.
    Clear,
}

/// The plan for a snapshot under a configuration. A category that is switched
/// off is cleared like an offline user. A game whose place or universe is not
/// named cannot be looked up, so the cycle is skipped.
pub open spec fn spec_plan(cfg: ConfigView, snapshot: UserPresence) -> Plan {
    if snapshot.presence_type == PresenceType::Online && cfg.website {
        Plan::Website
    } else if snapshot.presence_type == PresenceType::InGame && cfg.player {
        if snapshot.place_id is Some && snapshot.universe_id is Some {
            Plan::Game { place_id: snapshot.place_id->0, universe_id: snapshot.universe_id->0 }
        } else {
            Plan::Skip
        }
    } else if snapshot.presence_type == PresenceType::InStudio && cfg.studio {
        match snapshot.place_id {
            Some(place_id) => Plan::Studio { place_id },
            None => Plan::StudioUnknown,
        }
    } else {
        Plan::Clear
    }
}

/// Chooses the plan for a snapshot.
pub fn plan(cfg: &Config, snapshot: &UserPresence) -> (r: Plan)
    ensures
        r == spec_plan(cfg@, *snapshot),
{
    if snapshot.presence_type == PresenceType::Online && cfg.website {
        Plan::Website
    } else if snapshot.presence_type == PresenceType::InGame && cfg.player {
        match (snapshot.place_id, snapshot.universe_id) {
            (Some(place_id), Some(universe_id)) => Plan::Game { place_id, universe_id },
            _ => Plan::Skip,
        }
    } else if snapshot.presence_type == PresenceType::InStudio && cfg.studio {
        match snapshot.place_id {
            Some(place_id) => Plan::Studio { place_id },
            None => Plan::StudioUnknown,
        }
    } else {
        Plan::Clear
    }
}

/// How a cycle goes on after the presence lookup.
#[derive(Debug, Clone, Copy, PartialEq, Eq)]
pub enum Step {
    /// The lookup failed: wait `delay` seconds and ask again; nothing changes.
    Retry { delay: u64 },
    /// The lookup succeeded: `state` is the new state, `plan` what to do.
    Dispatch { state: TransitionState, plan: Plan },
}

/// The step that follows a presence lookup.
pub open spec fn spec_begin_cycle(
    previous: Option<TransitionState>,
    cfg: ConfigView,
    fetched: Result<UserPresence, RemoteError>,
    now: u64,
) -> Step {
    match fetched {
        Ok(snapshot) => Step::Dispatch {
            state: spec_track(previous, snapshot, now),
            plan: spec_plan(cfg, snapshot),
        },
        Err(_) => Step::Retry { delay: RETRY_DELAY },
    }
}

/// Decides how a cycle goes on after the presence lookup.
pub fn begin_cycle(
    previous: Option<TransitionState>,
    cfg: &Config,
    fetched: &Result<UserPresence, RemoteError>,
    now: u64,
) -> (r: Step)
    ensures
        r == spec_begin_cycle(previous, cfg@, *fetched, now),
{
    match fetched {
        Ok(snapshot) => Step::Dispatch { state: track(previous, snapshot, now), plan: plan(cfg, snapshot) },
        Err(_) => Step::Retry { delay: RETRY_DELAY },
    }
}

/// Whether the step after a presence lookup depends on the time: it does where
/// the lookup succeeded and the snapshot is the first one or starts a new
/// session.
pub open spec fn spec_needs_clock(
    previous: Option<TransitionState>,
    fetched: Result<UserPresence, RemoteError>,
) -> bool {
    match fetched {
        Ok(snapshot) => match previous {
            Some(state) => spec_resets(state, snapshot),
            None => true,
        },
        Err(_) => false,
    }
}

/// Decides whether the clock has to be read before `begin_cycle`.
pub fn needs_clock(previous: Option<TransitionState>, fetched: &Result<UserPresence, RemoteError>) -> (r: bool)
    ensures
        r == spec_needs_clock(previous, *fetched),
{
    match fetched {
        Ok(snapshot) => match previous {
            Some(state) => state.resets(snapshot),
            None => true,
        },
        Err(_) => false,
    }
}

/// How the program goes on after an identity lookup at startup.
#[derive(Debug, Clone, Copy, PartialEq, Eq)]
pub enum Startup {
    /// The lookup failed: wait `delay` seconds and ask again.
    Retry { delay: u64 },
    /// The user is known: start polling.
    Ready { user_id: i64 },
}

/// Decides how the program goes on after an identity lookup.
pub fn after_identity(result: &Result<AuthInfo, RemoteError>) -> (r: Startup)
    ensures
        r == match *result {
            Ok(info) => Startup::Ready { user_id: info.id },
            Err(_) => Startup::Retry { delay: RETRY_DELAY },
        },
{
    match result {
        Ok(info) => Startup::Ready { user_id: info.id },
        Err(_) => Startup::Retry { delay: RETRY_DELAY },
    }
}

/// The session's start as Discord takes it: the same 64 bits read as a signed
/// number.
pub open spec fn spec_elapsed(start: u64) -> i64 {
    if start <= i64::MAX {
        start as i64
    } else {
        (start - 0x1_0000_0000_0000_0000) as i64
    }
}

/// Converts the session's start to the signed number that Discord takes.
pub fn elapsed_of(start: u64) -> (r: i64)
    ensures
        r == spec_elapsed(start),
{
    if start <= 0x7fff_ffff_ffff_ffff {
        start as i64
    } else {
        let low: u64 = start - 0x8000_0000_0000_0000;
        (low as i64) + i64::MIN
    }
}

/// What a cycle does to the two Discord clients.
#[derive(Debug, Clone, PartialEq, Eq)]
pub enum Action {
    /// Show `info` on the client it names.
    Publish { info: ActivityInfo },
    /// Clear the activity of both clients.
    Clear,
    /// Do nothing.
    Skip,
}

/// An `Action` with the activity taken by its view.
pub enum ActionView {
    Publish { info: ActivityInfoView },
    Clear,
    Skip,
}

impl View for Action {
    type V = ActionView;

    open spec fn view(&self) -> ActionView {
        match *self {
            Action::Publish { info } => ActionView::Publish { info: info@ },
            Action::Clear => ActionView::Clear,
            Action::Skip => ActionView::Skip,
        }
    }
}

/// The activity shown while the user browses the website.
pub open spec fn website_info(start: u64) -> ActivityInfoView {
    ActivityInfoView {
        discord_client: DiscordClient::Player,
        details: "Browsing"@,
        state: "Website"@,
        big_icon_url: ROBLOX_ICON_URL@,
        small_icon_url: Seq::empty(),
        buttons: Seq::empty(),
        elapsed: spec_elapsed(start),
    }
}

/// The activity shown while the user plays `place`, whose icon is at `icon`.
pub open spec fn game_info(place: PlaceInfoView, icon: Seq<char>, start: u64) -> ActivityInfoView {
    ActivityInfoView {
        discord_client: DiscordClient::Player,
        details: "Playing"@,
        state: place.name,
        big_icon_url: icon,
        small_icon_url: ROBLOX_ICON_URL@,
        buttons: seq![("Game Page"@, place.url)],
        elapsed: spec_elapsed(start),
    }
}

/// The activity shown while the user develops `place`.
pub open spec fn studio_info(place: PlaceInfoView, start: u64) -> ActivityInfoView {
    ActivityInfoView {
        discord_client: DiscordClient::Studio,
        details: "Developing"@,
        state: place.name,
        big_icon_url: ROBLOX_STUDIO_ICON_URL@,
        small_icon_url: Seq::empty(),
        buttons: seq![("Game Page"@, place.url)],
        elapsed: spec_elapsed(start),
    }
}

/// The activity shown while the user develops a place that Roblox did not name.
pub open spec fn studio_unknown_info(start: u64) -> ActivityInfoView {
    ActivityInfoView {
        discord_client: DiscordClient::Studio,
        details: "Developing"@,
        state: "Unknown"@,
        big_icon_url: ROBLOX_STUDIO_ICON_URL@,
        small_icon_url: Seq::empty(),
        buttons: Seq::empty(),
        elapsed: spec_elapsed(start),
    }
}

/// What a lookup gave, if it was made and succeeded.
pub open spec fn place_found(place: Option<Result<PlaceInfo, RemoteError>>) -> Option<PlaceInfoView> {
    match place {
        Some(Ok(p)) => Some(p@),
        _ => None,
    }
}

/// What an icon lookup gave, if it was made and succeeded.
pub open spec fn icon_found(icon: Option<Result<String, RemoteError>>) -> Option<Seq<char>> {
    match icon {
        Some(Ok(url)) => Some(url@),
        _ => None,
    }
}

/// What a cycle does, given its plan, what the lookups that the plan asked
/// for gave, and the session's start. A game is shown only if both lookups
/// succeeded and a named place in Studio only if its lookup did; otherwise
/// the cycle is skipped.
pub open spec fn spec_act(
    plan: Plan,
    place: Option<PlaceInfoView>,
    icon: Option<Seq<char>>,
    start: u64,
) -> ActionView {
    match plan {
        Plan::Website => ActionView::Publish { info: website_info(start) },
        Plan::Game { .. } => if place is Some && icon is Some {
            ActionView::Publish { info: game_info(place->0, icon->0, start) }
        } else {
            ActionView::Skip
        },
        Plan::Studio { .. } => if place is Some {
            ActionView::Publish { info: studio_info(place->0, start) }
        } else {
            ActionView::Skip
        },
        Plan::StudioUnknown => ActionView::Publish { info: studio_unknown_info(start) },
        Plan::Skip => ActionView::Skip,
        Plan::Clear => ActionView::Clear,
    }
}

/// A list with the one button that leads to the game's page.
fn game_page_button(url: String) -> (r: Vec<Button>)
    ensures
        r@.len() == 1,
        r@[0].label@ == "Game Page"@,
        r@[0].url == url,
{
    let mut buttons: Vec<Button> = Vec::new();
    buttons.push(Button { label: "Game Page".to_owned(), url });
    buttons
}

/// Builds the activity for the website.
pub fn website_activity(start: u64) -> (r: ActivityInfo)
    ensures
        r@ == website_info(start),
{
    let r = ActivityInfo {
        discord_client: DiscordClient::Player,
        details: "Browsing".to_owned(),
        state: "Website".to_owned(),
        big_icon_url: ROBLOX_ICON_URL.to_owned(),
        small_icon_url: String::new(),
        buttons: Vec::new(),
        elapsed: elapsed_of(start),
    };
    assert(r@.buttons =~= Seq::empty());
    r
}

/// Builds the activity for a game.
pub fn game_activity(place: PlaceInfo, icon: String, start: u64) -> (r: ActivityInfo)
    ensures
        r@ == game_info(place@, icon@, start),
{
    let PlaceInfo { name, url } = place;
    let r = ActivityInfo {
        discord_client: DiscordClient::Player,
        details: "Playing".to_owned(),
        state: name,
        big_icon_url: icon,
        small_icon_url: ROBLOX_ICON_URL.to_owned(),
        buttons: game_page_button(url),
        elapsed: elapsed_of(start),
    };
    assert(r@.buttons =~= seq![("Game Page"@, place.url@)]);
    r
}

/// Builds the activity for a place that is being developed.
pub fn studio_activity(place: PlaceInfo, start: u64) -> (r: ActivityInfo)
    ensures
        r@ == studio_info(place@, start),
{
    let PlaceInfo { name, url } = place;
    let r = ActivityInfo {
        discord_client: DiscordClient::Studio,
        details: "Developing".to_owned(),
        state: name,
        big_icon_url: ROBLOX_STUDIO_ICON_URL.to_owned(),
        small_icon_url: String::new(),
        buttons: game_page_button(url),
        elapsed: elapsed_of(start),
    };
    assert(r@.buttons =~= seq![("Game Page"@, place.url@)]);
    r
}

/// Builds the activity for an unnamed place that is being developed.
pub fn studio_unknown_activity(start: u64) -> (r: ActivityInfo)
    ensures
        r@ == studio_unknown_info(start),
{
    let r = ActivityInfo {
        discord_client: DiscordClient::Studio,
        details: "Developing".to_owned(),
        state: "Unknown".to_owned(),
        big_icon_url: ROBLOX_STUDIO_ICON_URL.to_owned(),
        small_icon_url: String::new(),
        buttons: Vec::new(),
        elapsed: elapsed_of(start),
    };
    assert(r@.buttons =~= Seq::empty());
    r
}

/// Decides what a cycle does to the Discord clients. `place` and `icon` are
/// what the lookups gave; `None` stands for a lookup that was not made.
pub fn act(
    plan: Plan,
    place: Option<Result<PlaceInfo, RemoteError>>,
    icon: Option<Result<String, RemoteError>>,
    start: u64,
) -> (r: Action)
    ensures
        r@ == spec_act(plan, place_found(place), icon_found(icon), start),
{
    match plan {
        Plan::Website => Action::Publish { info: website_activity(start) },
        Plan::Game { .. } => match (place, icon) {
            (Some(Ok(p)), Some(Ok(url))) => Action::Publish { info: game_activity(p, url, start) },
            _ => Action::Skip,
        },
        Plan::Studio { .. } => match place {
            Some(Ok(p)) => Action::Publish { info: studio_activity(p, start) },
            _ => Action::Skip,
        },
        Plan::StudioUnknown => Action::Publish { info: studio_unknown_activity(start) },
        Plan::Skip => Action::Skip,
        Plan::Clear => Action::Clear,
    }
}

/// A stream whose snapshots all have the same status and the same universe
/// sets the session's start once, at the first snapshot, and keeps it: after
/// any number `n >= 1` of its snapshots the start is the first one's time.
pub proof fn lemma_constant_stream_keeps_start(snapshots: Seq<UserPresence>, times: Seq<u64>, n: nat)
    requires
        snapshots.len() == times.len(),
        1 <= n <= snapshots.len(),
        forall|i: int|
            0 <= i < snapshots.len() ==> (#[trigger] snapshots[i]).presence_type
                == snapshots[0].presence_type && snapshots[i].universe_id
                == snapshots[0].universe_id,
    ensures
        replay(snapshots, times, n) == Some(spec_first(snapshots[0], times[0])),
    decreases n,
{
    if n > 1 {
        lemma_constant_stream_keeps_start(snapshots, times, (n - 1) as nat);
        assert(snapshots[n - 1].presence_type == snapshots[0].presence_type);
    } else {
        assert(replay(snapshots, times, 0) is None);
    }
}

/// Where the status of snapshot `k` differs from that of the snapshot before
/// it, the session's start after snapshot `k` is the time of snapshot `k`,
/// whatever it was before.
pub proof fn lemma_status_change_restarts(snapshots: Seq<UserPresence>, times: Seq<u64>, k: nat)
    requires
        snapshots.len() == times.len(),
        1 <= k < snapshots.len(),
        snapshots[k as int].presence_type != snapshots[k - 1].presence_type,
    ensures
        replay(snapshots, times, k + 1) is Some,
        replay(snapshots, times, k + 1)->0.session_start == times[k as int],
{
    let before = replay(snapshots, times, k);
    assert(before == Some(
        spec_track(replay(snapshots, times, (k - 1) as nat), snapshots[k - 1], times[k - 1]),
    ));
    assert(before->0.last_status == snapshots[k - 1].presence_type);
    assert(replay(snapshots, times, k + 1) == Some(
        spec_track(before, snapshots[k as int], times[k as int]),
    ));
}

/// Where snapshot `k` and the snapshot before it are both in a game, but in
/// different universes, the session's start after snapshot `k` is the time of
/// snapshot `k`, though the status did not change.
pub proof fn lemma_game_change_restarts(snapshots: Seq<UserPresence>, times: Seq<u64>, k: nat)
    requires
        snapshots.len() == times.len(),
        1 <= k < snapshots.len(),
        snapshots[k - 1].presence_type == PresenceType::InGame,
        snapshots[k as int].presence_type == PresenceType::InGame,
        snapshots[k - 1].universe_id is Some,
        snapshots[k as int].universe_id is Some,
        snapshots[k - 1].universe_id != snapshots[k as int].universe_id,
    ensures
        replay(snapshots, times, k + 1) is Some,
        replay(snapshots, times, k + 1)->0.session_start == times[k as int],
{
    let before = replay(snapshots, times, k);
    assert(before == Some(
        spec_track(replay(snapshots, times, (k - 1) as nat), snapshots[k - 1], times[k - 1]),
    ));
    assert(before->0.last_container_id == snapshots[k - 1].universe_id->0);
    assert(replay(snapshots, times, k + 1) == Some(
        spec_track(before, snapshots[k as int], times[k as int]),
    ));
}

/// A snapshot that starts no new session leaves the session's start as it was.
pub proof fn lemma_start_is_stable(state: TransitionState, snapshot: UserPresence, now: u64)
    requires
        !spec_resets(state, snapshot),
    ensures
        spec_observe(state, snapshot, now) == state,
{
}

/// Where the clock need not be read, the step after a presence lookup is the
/// same whatever time is handed in.
pub proof fn lemma_time_is_unused_without_restart(
    previous: Option<TransitionState>,
    cfg: ConfigView,
    fetched: Result<UserPresence, RemoteError>,
    a: u64,
    b: u64,
)
    requires
        !spec_needs_clock(previous, fetched),
    ensures
        spec_begin_cycle(previous, cfg, fetched, a) == spec_begin_cycle(previous, cfg, fetched, b),
{
}

/// With the player category switched off, a snapshot in a game is never shown:
/// whatever the lookups would give, both clients are cleared.
pub proof fn lemma_disabled_player_clears(
    cfg: ConfigView,
    snapshot: UserPresence,
    place: Option<PlaceInfoView>,
    icon: Option<Seq<char>>,
    start: u64,
)
    requires
        !cfg.player,
        snapshot.presence_type == PresenceType::InGame,
    ensures
        spec_plan(cfg, snapshot) == Plan::Clear,
        spec_act(spec_plan(cfg, snapshot), place, icon, start) == ActionView::Clear,
{
}

/// A cycle never shows a category that is switched off.
pub proof fn lemma_disabled_is_never_shown(
    cfg: ConfigView,
    snapshot: UserPresence,
    place: Option<PlaceInfoView>,
    icon: Option<Seq<char>>,
    start: u64,
)
    ensures
        spec_act(spec_plan(cfg, snapshot), place, icon, start) is Publish ==> match snapshot.presence_type {
            PresenceType::Online => cfg.website,
            PresenceType::InGame => cfg.player,
            PresenceType::InStudio => cfg.studio,
            PresenceType::Offline => false,
        },
{
}

} // verus!
