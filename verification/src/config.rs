use vstd::prelude::*;

verus! {

/// Roblox Player Discord application id.
pub const PLAYER_DISCORD_APP_ID: &'static str = "1040069190322749481";

/// Roblox Studio Discord application id.
pub const STUDIO_DISCORD_APP_ID: &'static str = "1040435667483775047";

/// How often to update Discord activity presence status.
/// In seconds.
pub const FREQUENCY_OF_STATUS_UPDATES: u64 = 10;

/// How long to wait before asking Roblox again after a failed request.
/// In seconds.
pub const RETRY_DELAY: u64 = 2;

/// Name of a file where program configuration will be read from.
pub const CONFIG_FILE_NAME: &'static str = "stateye.config";

} // verus!
