use crate::presence::{Action, ActionView, Plan, spec_act};
use crate::roblox::PlaceInfoView;
use crate::utils::{ActivityInfo, ActivityInfoView, DiscordClient};
use vstd::prelude::*;

verus! {

/// What the two Discord clients show: for each, an activity or nothing.
#[derive(Debug, Clone, PartialEq, Eq)]
pub struct Shown {
    pub player: Option<ActivityInfo>,
    pub studio: Option<ActivityInfo>,
}

/// A `Shown` with each activity taken by its view.
pub struct ShownView {
    pub player: Option<ActivityInfoView>,
    pub studio: Option<ActivityInfoView>,
}

impl View for Shown {
    type V = ShownView;

    open spec fn view(&self) -> ShownView {
        ShownView {
            player: match self.player {
                Some(info) => Some(info@),
                None => None,
            },
            studio: match self.studio {
                Some(info) => Some(info@),
                None => None,
            },
        }
    }
}

/// What is shown after an action: publishing replaces the activity of the
/// client that the activity names and leaves the other client alone, clearing
/// empties both, and skipping changes nothing.
pub open spec fn shown_after(shown: ShownView, action: ActionView) -> ShownView {
    match action {
        ActionView::Publish { info } => match info.discord_client {
            DiscordClient::Player => ShownView { player: Some(info), ..shown },
            DiscordClient::Studio => ShownView { studio: Some(info), ..shown },
        },
        ActionView::Clear => ShownView { player: None, studio: None },
        ActionView::Skip => shown,
    }
}

/// Follows what the clients show through one action.
pub fn show(shown: Shown, action: Action) -> (r: Shown)
    ensures
        r@ == shown_after(shown@, action@),
{
    let Shown { player, studio } = shown;
    match action {
        Action::Publish { info } => match info.discord_client {
            DiscordClient::Player => Shown { player: Some(info), studio },
            DiscordClient::Studio => Shown { player, studio: Some(info) },
        },
        Action::Clear => Shown { player: None, studio: None },
        Action::Skip => Shown { player, studio },
    }
}

/// Doing the same action twice in a row shows what doing it once shows.
pub proof fn lemma_repeat_shows_the_same(shown: ShownView, action: ActionView)
    ensures
        shown_after(shown_after(shown, action), action) == shown_after(shown, action),
{
}

/// Where the place lookup for a game fails, the cycle neither publishes nor
/// clears: what was shown before stays as it was.
pub proof fn lemma_failed_lookup_keeps_shown(
    shown: ShownView,
    place_id: i64,
    universe_id: i64,
    icon: Option<Seq<char>>,
    start: u64,
)
    ensures
        spec_act(Plan::Game { place_id, universe_id }, None::<PlaceInfoView>, icon, start)
            == ActionView::Skip,
        shown_after(
            shown,
            spec_act(Plan::Game { place_id, universe_id }, None::<PlaceInfoView>, icon, start),
        ) == shown,
{
}

} // verus!
