use vstd::prelude::*;

verus! {

/// Icon shown for the Roblox website and as the small icon while playing.
pub const ROBLOX_ICON_URL: &'static str = "https://images.rbxcdn.com/7bba321f4d8328683d6e59487ce514eb";

/// Icon shown while developing in Roblox Studio.
pub const ROBLOX_STUDIO_ICON_URL: &'static str = "https://images.rbxcdn.com/3b43a5c16ec359053fef735551716fc5.ico";

} // verus!
