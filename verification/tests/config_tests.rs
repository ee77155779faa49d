use stateye::config::{CONFIG_FILE_NAME, FREQUENCY_OF_STATUS_UPDATES, RETRY_DELAY};
use stateye::utils::{get_config, parse_config, read_line, str_to_bool, Config};

fn defaults() -> Config {
    Config { token: String::new(), website: true, player: true, studio: true }
}

#[test]
fn str_to_bool_accepts_only_exact_true() {
    assert!(str_to_bool("true"));
    assert!(!str_to_bool("false"));
    assert!(!str_to_bool("yes"));
    assert!(!str_to_bool("True"));
    assert!(!str_to_bool("true "));
    assert!(!str_to_bool(" true"));
    assert!(!str_to_bool(""));
    assert!(!str_to_bool("tru"));
    assert!(!str_to_bool("truee"));
}

#[test]
fn missing_file_gives_defaults() {
    let cfg = get_config(None);
    assert_eq!(cfg.token, "");
    assert!(cfg.website);
    assert!(cfg.player);
    assert!(cfg.studio);
}

#[test]
fn empty_file_gives_defaults() {
    let cfg = get_config(Some(""));
    assert_eq!(cfg.token, "");
    assert!(cfg.website && cfg.player && cfg.studio);
}

#[test]
fn three_flags_with_a_non_strict_value() {
    let cfg = get_config(Some("website=false\nstudio=yes\nplayer=true"));
    assert!(!cfg.website);
    assert!(!cfg.studio);
    assert!(cfg.player);
    assert_eq!(cfg.token, "");
}

#[test]
fn token_is_everything_after_the_first_separator() {
    let cfg = parse_config("token=.ROBLOSECURITY=abc=def\n");
    assert_eq!(cfg.token, ".ROBLOSECURITY=abc=def");
    assert!(cfg.website && cfg.player && cfg.studio);
}

#[test]
fn lines_without_separator_and_unknown_keys_are_ignored() {
    let cfg = parse_config("\n\nhello world\ncolour=blue\nplayer=false\n\n=true\nPlayer=true\n");
    assert!(!cfg.player);
    assert!(cfg.website);
    assert!(cfg.studio);
    assert_eq!(cfg.token, "");
}

#[test]
fn carriage_return_before_line_feed_is_dropped() {
    let cfg = parse_config("website=true\r\nplayer=false\r\ntoken=abc\r\n");
    assert!(cfg.website);
    assert!(!cfg.player);
    assert_eq!(cfg.token, "abc");
}

#[test]
fn carriage_return_at_the_very_end_stays_in_the_value() {
    let cfg = parse_config("token=abc\nstudio=true\r");
    assert!(!cfg.studio);
    assert_eq!(cfg.token, "abc");
    let cfg = parse_config("token=abc\r");
    assert_eq!(cfg.token, "abc\r");
}

#[test]
fn later_lines_override_earlier_ones() {
    let cfg = parse_config("player=false\nplayer=true\ntoken=a\ntoken=b");
    assert!(cfg.player);
    assert_eq!(cfg.token, "b");
}

#[test]
fn keys_and_values_are_not_trimmed() {
    let cfg = parse_config("player =false\nstudio= true\nwebsite=false");
    assert!(cfg.player);
    assert!(!cfg.studio);
    assert!(!cfg.website);
}

#[test]
fn non_ascii_text_is_read_by_characters() {
    let cfg = parse_config("ключ=значение\ntoken=päßwörd✓\nstudio=false");
    assert_eq!(cfg.token, "päßwörd✓");
    assert!(!cfg.studio);
}

#[test]
fn empty_value_disables_a_flag_and_empties_the_token() {
    let cfg = parse_config("token=x\ntoken=\nwebsite=");
    assert_eq!(cfg.token, "");
    assert!(!cfg.website);
}

#[test]
fn read_line_changes_one_field() {
    let cfg = read_line("studio=false", defaults());
    assert!(!cfg.studio);
    assert!(cfg.player && cfg.website);
    let cfg = read_line("no separator here", defaults());
    assert!(cfg.studio && cfg.player && cfg.website);
    assert_eq!(cfg.token, "");
    let cfg = read_line("token=t", cfg);
    assert_eq!(cfg.token, "t");
}

#[test]
fn get_config_agrees_with_parse_config() {
    let text = "website=false\ntoken=q\n";
    let a = get_config(Some(text));
    let b = parse_config(text);
    assert_eq!(a.token, b.token);
    assert_eq!(a.website, b.website);
    assert_eq!(a.player, b.player);
    assert_eq!(a.studio, b.studio);
}

#[test]
fn constants_have_their_values() {
    assert_eq!(FREQUENCY_OF_STATUS_UPDATES, 10);
    assert_eq!(RETRY_DELAY, 2);
    assert_eq!(CONFIG_FILE_NAME, "stateye.config");
}
