use vstd::prelude::*;
use vstd::string::*;

verus! {

/// Program configuration.
#[derive(Debug)]
pub struct Config {
    pub token: String,
    pub website: bool,
    pub player: bool,
    pub studio: bool,
}

/// What a `Config` holds, with the token as a sequence of characters.
pub struct ConfigView {
    pub token: Seq<char>,
    pub website: bool,
    pub player: bool,
    pub studio: bool,
}

impl View for Config {
    type V = ConfigView;

    open spec fn view(&self) -> ConfigView {
        ConfigView {
            token: self.token@,
            website: self.website,
            player: self.player,
            studio: self.studio,
        }
    }
}

/// The configuration used when no file is found: every category enabled, no token.
pub open spec fn default_config() -> ConfigView {
    ConfigView { token: Seq::empty(), website: true, player: true, studio: true }
}

/// How many characters of `s` stand between `from` and the first `c` at or after
/// `from`, looking no further than `to`.
pub open spec fn gap(s: Seq<char>, c: char, from: int, to: int) -> nat
    decreases to - from,
{
    if from >= to || from < 0 || to > s.len() {
        0
    } else if s[from] == c {
        0
    } else {
        1 + gap(s, c, from + 1, to)
    }
}

/// The meaning of a boolean setting: only the exact text `true` enables.
pub open spec fn spec_str_to_bool(s: Seq<char>) -> bool {
    s == "true"@
}

/// The configuration after one line (without its line ending) has been read.
/// A line without `=` changes nothing; otherwise the text before the first `=`
/// is the key and the text after it the value. Unknown keys change nothing.
pub open spec fn apply_line(line: Seq<char>, cfg: ConfigView) -> ConfigView {
    let e = gap(line, '=', 0, line.len() as int) as int;
    if e >= line.len() {
        cfg
    } else {
        let key = line.subrange(0, e);
        let value = line.subrange(e + 1, line.len() as int);
        if key == "token"@ {
            ConfigView { token: value, ..cfg }
        } else if key == "player"@ {
            ConfigView { player: spec_str_to_bool(value), ..cfg }
        } else if key == "studio"@ {
            ConfigView { studio: spec_str_to_bool(value), ..cfg }
        } else if key == "website"@ {
            ConfigView { website: spec_str_to_bool(value), ..cfg }
        } else {
            cfg
        }
    }
}

/// Where the line that starts at `pos` ends: at the next line feed, or one
/// character earlier when a carriage return stands directly before that line feed.
pub open spec fn line_end(text: Seq<char>, pos: int) -> int {
    let nl = pos + gap(text, '\n', pos, text.len() as int);
    if nl < text.len() && nl > pos && text[nl - 1] == '\r' {
        nl - 1
    } else {
        nl
    }
}

/// Where the line after the one that starts at `pos` starts: behind the next
/// line feed.
pub open spec fn next_line(text: Seq<char>, pos: int) -> int {
    pos + gap(text, '\n', pos, text.len() as int) + 1
}

/// The configuration after every line of `text` from `pos` on has been read, in order.
pub open spec fn apply_lines(text: Seq<char>, pos: int, cfg: ConfigView) -> ConfigView
    decreases text.len() - pos,
{
    if pos < 0 || pos >= text.len() {
        cfg
    } else {
        let line = text.subrange(pos, line_end(text, pos));
        let next = next_line(text, pos);
        if next > text.len() {
            apply_line(line, cfg)
        } else {
            apply_lines(text, next, apply_line(line, cfg))
        }
    }
}

/// The configuration that a whole file's text stands for.
pub open spec fn config_of(text: Seq<char>) -> ConfigView {
    apply_lines(text, 0, default_config())
}

/// The configuration chosen for what was found on disk: the text's meaning, or
/// the defaults where there was no file.
pub open spec fn spec_get_config(contents: Option<Seq<char>>) -> ConfigView {
    match contents {
        Some(text) => config_of(text),
        None => default_config(),
    }
}

/// Whether two texts hold the same characters.
fn same_text(a: &str, b: &str) -> (r: bool)
    ensures
        r == (a@ == b@),
{
    let x = a.to_owned();
    let y = b.to_owned();
    x == y
}

/// Converts string bool to actual bool: `"true"` gives `true`, anything else `false`.
pub fn str_to_bool(str: &str) -> (r: bool)
    ensures
        r == spec_str_to_bool(str@),
{
    same_text(str, "true")
}

/// The index of the first `c` in `s` between `from` and `to`, or `to` if there is none.
fn find_char(s: &str, c: char, from: usize, to: usize) -> (r: usize)
    requires
        from <= to <= s@.len(),
    ensures
        r == from + gap(s@, c, from as int, to as int),
        from <= r <= to,
{
    let mut j: usize = from;
    while j < to
        invariant
            from <= j <= to <= s@.len(),
            from + gap(s@, c, from as int, to as int) == j + gap(s@, c, j as int, to as int),
        decreases to - j,
    {
        if s.get_char(j) == c {
            return j;
        }
        j = j + 1;
    }
    j
}

/// Reads one line of a configuration file into `cfg`.
pub fn read_line(line: &str, cfg: Config) -> (r: Config)
    ensures
        r@ == apply_line(line@, cfg@),
{
    let n: usize = line.unicode_len();
    let e: usize = find_char(line, '=', 0, n);
    if e >= n {
        return cfg;
    }
    let key = line.substring_char(0, e);
    let value = line.substring_char(e + 1, n);
    let mut cfg = cfg;
    if same_text(key, "token") {
        cfg.token = value.to_owned();
    } else if same_text(key, "player") {
        cfg.player = str_to_bool(value);
    } else if same_text(key, "studio") {
        cfg.studio = str_to_bool(value);
    } else if same_text(key, "website") {
        cfg.website = str_to_bool(value);
    }
    cfg
}

/// Reads the text of a configuration file: one `key=value` pair per line, the
/// keys `token`, `player`, `studio` and `website`; everything else is ignored.
pub fn parse_config(text: &str) -> (r: Config)
    ensures
        r@ == config_of(text@),
{
    let n: usize = text.unicode_len();
    let mut cfg = Config { token: String::new(), website: true, player: true, studio: true };
    let mut pos: usize = 0;
    while pos < n
        invariant
            n == text@.len(),
            pos <= n,
            apply_lines(text@, pos as int, cfg@) == config_of(text@),
        decreases n - pos,
    {
        let nl: usize = find_char(text, '\n', pos, n);
        let mut end: usize = nl;
        if nl < n && nl > pos {
            if text.get_char(nl - 1) == '\r' {
                end = nl - 1;
            }
        }
        let line = text.substring_char(pos, end);
        cfg = read_line(line, cfg);
        if nl < n {
            pos = nl + 1;
        } else {
            pos = n;
        }
    }
    cfg
}

/// Generates the program configuration from what was read of the config file;
/// `None` stands for a file that could not be read and gives the defaults.
pub fn get_config(contents: Option<&str>) -> (r: Config)
    ensures
        r@ == spec_get_config(
            match contents {
                Some(text) => Some(text@),
                None => None,
            },
        ),
{
    match contents {
        Some(text) => parse_config(text),
        None => Config { token: String::new(), website: true, player: true, studio: true },
    }
}

#[verifier::external_type_specification]
#[verifier::external_body]
pub struct ExSystemTime(std::time::SystemTime);

/// `std::time::SystemTime::now`: the system clock's reading. Nothing is claimed
/// of it: each call may give another.
#[verifier::external_body]
fn system_now() -> (t: std::time::SystemTime) {
    std::time::SystemTime::now()
}

/// `std::time::SystemTime::duration_since`, measured from `UNIX_EPOCH`: the time
/// elapsed since the epoch, or `None` where the reading lies before it. Nothing
/// more is claimed.
#[verifier::external_body]
fn since_unix_epoch(t: &std::time::SystemTime) -> (d: Option<std::time::Duration>) {
    t.duration_since(std::time::UNIX_EPOCH).ok()
}

/// The time elapsed since the Unix epoch, or `None` where the system clock
/// stands before it.
pub fn get_epoch_time() -> (r: Option<std::time::Duration>) {
    let start = system_now();
    since_unix_epoch(&start)
}

/// One of the two Discord applications under which an activity is shown.
#[derive(Debug, Clone, Copy, PartialEq, Eq, Structural)]
pub enum DiscordClient {
    Player,
    Studio,
}

/// A labelled link shown under an activity.
#[derive(Debug, Clone, PartialEq, Eq)]
pub struct Button {
    pub label: String,
    pub url: String,
}

/// What is to be shown as an activity; an empty text stands for "nothing".
#[derive(Debug, Clone, PartialEq, Eq)]
pub struct ActivityInfo {
    pub discord_client: DiscordClient,
    pub details: String,
    pub state: String,
    pub big_icon_url: String,
    pub small_icon_url: String,
    pub buttons: Vec<Button>,
    pub elapsed: i64,
}

/// What an `ActivityInfo` holds, texts as sequences of characters and each
/// button as its label and its url.
pub struct ActivityInfoView {
    pub discord_client: DiscordClient,
    pub details: Seq<char>,
    pub state: Seq<char>,
    pub big_icon_url: Seq<char>,
    pub small_icon_url: Seq<char>,
    pub buttons: Seq<(Seq<char>, Seq<char>)>,
    pub elapsed: i64,
}

impl View for ActivityInfo {
    type V = ActivityInfoView;

    open spec fn view(&self) -> ActivityInfoView {
        ActivityInfoView {
            discord_client: self.discord_client,
            details: self.details@,
            state: self.state@,
            big_icon_url: self.big_icon_url@,
            small_icon_url: self.small_icon_url@,
            buttons: Seq::new(
                self.buttons@.len(),
                |i: int| (self.buttons@[i].label@, self.buttons@[i].url@),
            ),
            elapsed: self.elapsed,
        }
    }
}

/// The two images of an activity, each present or not.
#[derive(Debug, Clone, PartialEq, Eq)]
pub struct Assets {
    pub large_image: Option<String>,
    pub small_image: Option<String>,
}

/// An activity as the Discord client takes it: every part but the state and
/// the start of the session may be absent.
#[derive(Debug, Clone, PartialEq, Eq)]
pub struct Activity {
    pub state: String,
    pub details: Option<String>,
    pub assets: Option<Assets>,
    pub buttons: Option<Vec<Button>>,
    pub start: i64,
}

/// The activity sent for `info`: empty texts and an empty list of buttons are
/// left out, and the assets are left out where both icons are.
pub open spec fn spec_set_activity(info: ActivityInfo) -> Activity {
    Activity {
        state: info.state,
        details: if info.details@.len() == 0 {
            None
        } else {
            Some(info.details)
        },
        assets: if info.big_icon_url@.len() == 0 && info.small_icon_url@.len() == 0 {
            None
        } else {
            Some(
                Assets {
                    large_image: if info.big_icon_url@.len() == 0 {
                        None
                    } else {
                        Some(info.big_icon_url)
                    },
                    small_image: if info.small_icon_url@.len() == 0 {
                        None
                    } else {
                        Some(info.small_icon_url)
                    },
                },
            )
        },
        buttons: if info.buttons@.len() == 0 {
            None
        } else {
            Some(info.buttons)
        },
        start: info.elapsed,
    }
}

/// Builds the activity to send to `activity_info.discord_client`.
pub fn set_activity(activity_info: ActivityInfo) -> (r: Activity)
    ensures
        r == spec_set_activity(activity_info),
{
    let ActivityInfo { discord_client: _, details, state, big_icon_url, small_icon_url, buttons, elapsed } =
        activity_info;
    let no_big = big_icon_url.as_str().is_empty();
    let no_small = small_icon_url.as_str().is_empty();
    let no_details = details.as_str().is_empty();
    let no_buttons = buttons.len() == 0;
    let large_image = if no_big { None } else { Some(big_icon_url) };
    let small_image = if no_small { None } else { Some(small_icon_url) };
    Activity {
        state,
        details: if no_details { None } else { Some(details) },
        assets: if no_big && no_small { None } else { Some(Assets { large_image, small_image }) },
        buttons: if no_buttons { None } else { Some(buttons) },
        start: elapsed,
    }
}

} // verus!
