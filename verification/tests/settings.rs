use ytdlp_output_rs::handler::Handler;
use ytdlp_output_rs::policy::AuthorizationPolicy;
use ytdlp_output_rs::settings::{
    choose_guild_ids, parse_guild_ids, parse_u64, Environment, Settings, SettingsError,
};

fn file() -> Settings {
    Settings {
        discord_token: "from-file".to_string(),
        output_dir: "downloads".to_string(),
        guild_ids: Some(vec![1, 2]),
        channel_id: Some(3),
        cookies_path: None,
    }
}

fn empty() -> Environment {
    Environment {
        discord_token: None,
        guild_ids: None,
        channel_id: None,
        cookies_path: None,
        default_cookies_found: false,
    }
}

#[test]
fn numbers_by_cases() {
    assert_eq!(parse_u64("0"), Some(0));
    assert_eq!(parse_u64("7"), Some(7));
    assert_eq!(parse_u64("+7"), Some(7));
    assert_eq!(parse_u64("007"), Some(7));
    assert_eq!(parse_u64("123456789012345678"), Some(123456789012345678));
    assert_eq!(parse_u64("18446744073709551615"), Some(u64::MAX));
    assert_eq!(parse_u64("18446744073709551616"), None);
    assert_eq!(parse_u64("99999999999999999999"), None);
    assert_eq!(parse_u64("184467440737095516150"), None);
    assert_eq!(parse_u64(""), None);
    assert_eq!(parse_u64("+"), None);
    assert_eq!(parse_u64("-1"), None);
    assert_eq!(parse_u64("++1"), None);
    assert_eq!(parse_u64("1+"), None);
    assert_eq!(parse_u64(" 1"), None);
    assert_eq!(parse_u64("1 "), None);
    assert_eq!(parse_u64("1_000"), None);
    assert_eq!(parse_u64("0x10"), None);
    assert_eq!(parse_u64("1.0"), None);
    assert_eq!(parse_u64("\u{661}"), None);
    assert_eq!(parse_u64("\u{ff11}"), None);
}

#[test]
fn numbers_agree_with_the_standard_library() {
    for text in [
        "", "+", "-", "0", "+0", "-0", "1", "01", "+01", "12a", "a12", "1 2", "18446744073709551615",
        "18446744073709551616", "+18446744073709551615", "000000000000000000000000018446744073709551615",
        "27670116110564327424", "/", ":", "9", "\n1",
    ] {
        assert_eq!(parse_u64(text), text.parse::<u64>().ok(), "{:?}", text);
    }
}

#[test]
fn server_list_from_a_json_array() {
    assert_eq!(parse_guild_ids("[123456789,987654321]"), Ok(vec![123456789, 987654321]));
    assert_eq!(parse_guild_ids("  [ 1 , 2,3 ]\n"), Ok(vec![1, 2, 3]));
    assert_eq!(parse_guild_ids("[]"), Ok(vec![]));
    assert_eq!(parse_guild_ids("[18446744073709551615]"), Ok(vec![u64::MAX]));
}

#[test]
fn server_list_from_a_single_number() {
    assert_eq!(parse_guild_ids("42"), Ok(vec![42]));
    assert_eq!(parse_guild_ids(" 42\n"), Ok(vec![42]));
    assert_eq!(parse_guild_ids("+42"), Ok(vec![42]));
    assert_eq!(parse_guild_ids("0042"), Ok(vec![42]));
}

#[test]
fn server_list_that_is_neither_is_an_error() {
    for text in ["", "   ", "abc", "1,2", "[1,2", "[1,-2]", "[1.5]", "[\"1\"]", "{\"a\":1}", "[18446744073709551616]", "-4", "4 2", "null"] {
        assert_eq!(parse_guild_ids(text), Err(SettingsError::InvalidGuildIds), "{:?}", text);
    }
}

#[test]
fn json_reading_wins_over_the_number() {
    assert_eq!(choose_guild_ids(Some(vec![1, 2]), Some(9)), Ok(vec![1, 2]));
    assert_eq!(choose_guild_ids(Some(vec![]), Some(9)), Ok(vec![]));
    assert_eq!(choose_guild_ids(Some(vec![5]), None), Ok(vec![5]));
    assert_eq!(choose_guild_ids(None, Some(9)), Ok(vec![9]));
    assert_eq!(choose_guild_ids(None, None), Err(SettingsError::InvalidGuildIds));
}

#[test]
fn error_in_words() {
    assert_eq!(
        SettingsError::InvalidGuildIds.message(),
        "GUILD_IDS must be either a single numeric ID or a JSON array, e.g. [123456789,987654321]"
    );
}

#[test]
fn empty_environment_changes_nothing() {
    assert_eq!(Settings::from_env_and_file(file(), empty()), Ok(file()));
}

#[test]
fn environment_overrides_the_file() {
    let env = Environment {
        discord_token: Some("from-env".to_string()),
        guild_ids: Some(" [7, 8] ".to_string()),
        channel_id: Some("9".to_string()),
        cookies_path: Some("/tmp/cookies.txt".to_string()),
        default_cookies_found: true,
    };
    assert_eq!(
        Settings::from_env_and_file(file(), env),
        Ok(Settings {
            discord_token: "from-env".to_string(),
            output_dir: "downloads".to_string(),
            guild_ids: Some(vec![7, 8]),
            channel_id: Some(9),
            cookies_path: Some("/tmp/cookies.txt".to_string()),
        })
    );
}

#[test]
fn unreadable_server_list_is_an_error() {
    let env = Environment { guild_ids: Some("all of them".to_string()), ..empty() };
    assert_eq!(Settings::from_env_and_file(file(), env), Err(SettingsError::InvalidGuildIds));
    let env = Environment {
        discord_token: Some("t".to_string()),
        guild_ids: Some("".to_string()),
        channel_id: Some("9".to_string()),
        ..empty()
    };
    assert_eq!(Settings::from_env_and_file(file(), env), Err(SettingsError::InvalidGuildIds));
}

#[test]
fn unreadable_channel_is_passed_over() {
    for raw in ["", " 9", "nine", "-1", "18446744073709551616"] {
        let env = Environment { channel_id: Some(raw.to_string()), ..empty() };
        assert_eq!(Settings::from_env_and_file(file(), env), Ok(file()), "{:?}", raw);
    }
    let env = Environment { channel_id: Some("+9".to_string()), ..empty() };
    assert_eq!(Settings::from_env_and_file(file(), env).unwrap().channel_id, Some(9));
}

#[test]
fn cookie_file_falls_back_to_the_default_one() {
    let env = Environment { default_cookies_found: true, ..empty() };
    assert_eq!(
        Settings::from_env_and_file(file(), env).unwrap().cookies_path,
        Some("config/cookies.txt".to_string())
    );
    let named = Settings { cookies_path: Some("mine.txt".to_string()), ..file() };
    let env = Environment { default_cookies_found: true, ..empty() };
    assert_eq!(Settings::from_env_and_file(named, env).unwrap().cookies_path, Some("mine.txt".to_string()));
    let named = Settings { cookies_path: Some("mine.txt".to_string()), ..file() };
    let env = Environment { cookies_path: Some("theirs.txt".to_string()), ..empty() };
    assert_eq!(Settings::from_env_and_file(named, env).unwrap().cookies_path, Some("theirs.txt".to_string()));
    assert_eq!(Settings::from_env_and_file(file(), empty()).unwrap().cookies_path, None);
}

#[test]
fn single_number_in_the_environment_makes_a_list_of_one() {
    let env = Environment { guild_ids: Some("123456789".to_string()), ..empty() };
    assert_eq!(Settings::from_env_and_file(file(), env).unwrap().guild_ids, Some(vec![123456789]));
}

#[test]
fn settings_set_up_the_handler() {
    assert_eq!(
        file().handler(),
        Handler {
            policy: AuthorizationPolicy { allowed_guilds: Some(vec![1, 2]), allowed_channel: Some(3) },
            output_dir: "downloads".to_string(),
            cookies_path: None,
        }
    );
    let open = Settings { guild_ids: None, channel_id: None, cookies_path: Some("c".to_string()), ..file() };
    assert_eq!(
        open.handler(),
        Handler {
            policy: AuthorizationPolicy { allowed_guilds: None, allowed_channel: None },
            output_dir: "downloads".to_string(),
            cookies_path: Some("c".to_string()),
        }
    );
}
