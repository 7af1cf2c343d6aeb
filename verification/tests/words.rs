use denim::config::auth::AuthConfig;
use denim::config::date_locale::{
    CalendarAlgorithm, DateLocaleConfig, DateLocaleConfigInterchange, HourCycle,
};
use denim::data::user::{session_secret, User, UserKind};
use denim::error::DenimError;
use denim::hub::Hub;
use denim::routes::sse::SseEvent;
use denim::text::{bytes_at_most, lines_trimmed, text_at_most};
use std::collections::HashMap;

#[test]
fn lines_are_split_and_trimmed_as_std_does() {
    for text in [
        "",
        "\n",
        "apple",
        "apple\n",
        "apple\nbanana",
        " apple \r\n\tbanana\r\n\r\ncherry  ",
        "\n\n",
        "a\n\nb\n",
        "  \n x y \n",
        "one\u{a0}\ntwo\u{3000}",
        "tail\r",
        "\u{2028}odd\u{85}",
    ] {
        let expected: Vec<String> = text.lines().map(str::trim).map(str::to_string).collect();
        assert_eq!(lines_trimmed(text), expected, "{text:?}");
        let mut by_length: HashMap<usize, Vec<String>> = HashMap::new();
        for word in &expected {
            by_length.entry(word.len()).or_default().push(word.clone());
        }
        assert_eq!(AuthConfig::words(text), by_length, "{text:?}");
    }
}

#[test]
fn words_of_a_file_make_passwords() {
    let words = AuthConfig::words("pear\n  apple\nmelon  \n\nkiwi\n");
    assert_eq!(words.len(), 3);
    assert_eq!(words[&4], vec!["pear", "kiwi"]);
    assert_eq!(words[&5], vec!["apple", "melon"]);
    assert_eq!(words[&0], vec![""]);
    assert_eq!(AuthConfig::count_words(&words, 4), 2);
    assert_eq!(AuthConfig::count_words(&words, 6), 0);
    assert_eq!(AuthConfig::compose(&words, 4, 1, 12).unwrap(), "kiwi_12");
    let config = AuthConfig { word_len_range: 5..6, numbers_range: 10..11 };
    let password = config.generate(&words).unwrap();
    assert!(password == "apple_10" || password == "melon_10");
}

fn stored(hour_cycle: &str, calendar: &str) -> DateLocaleConfigInterchange {
    DateLocaleConfigInterchange {
        tz: "Europe/London".into(),
        locale: "en-GB".into(),
        hour_cycle: hour_cycle.into(),
        calendar_algorithm: calendar.into(),
    }
}

#[test]
fn date_settings_are_read_in_order() {
    let config = DateLocaleConfig::new(stored("h12", "hebrew"), None, None).unwrap();
    assert_eq!(config.timezone, "Europe/London");
    assert_eq!(config.locale, "en-GB");
    assert_eq!(config.hour_cycle, HourCycle::H12);
    assert_eq!(config.calendar_algorithm, CalendarAlgorithm::Hebrew);
    let back = config.interchange();
    assert_eq!(
        (back.tz.as_str(), back.locale.as_str(), back.hour_cycle.as_str(), back.calendar_algorithm.as_str()),
        ("Europe/London", "en-GB", "h12", "hebrew")
    );
    assert!(matches!(
        DateLocaleConfig::new(stored("x", "y"), Some("no zone".into()), Some("no locale".into())),
        Err(DenimError::InvalidTimezone { tz, source }) if tz == "Europe/London" && source == "no zone"
    ));
    assert!(matches!(
        DateLocaleConfig::new(stored("x", "y"), None, Some("no locale".into())),
        Err(DenimError::InvalidLocale { provided, .. }) if provided == "en-GB"
    ));
    assert!(matches!(
        DateLocaleConfig::new(stored("x", "y"), None, None),
        Err(DenimError::InvalidHourCycle { provided }) if provided == "x"
    ));
    assert!(matches!(
        DateLocaleConfig::new(stored("h23", "y"), None, None),
        Err(DenimError::InvalidCalendarAlgorithm { provided }) if provided == "y"
    ));
}

#[test]
fn session_is_tied_to_token_or_hash() {
    let mut user = User {
        id: 1,
        first_name: "A".into(),
        pref_name: None,
        surname: "B".into(),
        email: "a@example.org".into(),
        bcrypt_hashed_password: None,
        access_token: None,
        current_password_is_default: false,
        kind: UserKind::User,
    };
    assert_eq!(user.session_auth_secret(), None);
    user.bcrypt_hashed_password = Some("hash".into());
    assert_eq!(user.session_auth_secret(), Some("hash"));
    user.access_token = Some("token".into());
    assert_eq!(user.session_auth_secret(), Some("token"));
}

#[test]
fn many_events_leave_the_newest() {
    let mut hub = Hub::new(3);
    let id = hub.subscribe();
    for n in 0..10u128 {
        hub.publish(SseEvent::ChangeSignUp { event_id: n });
    }
    assert_eq!(hub.pending_len(id), 3);
    for n in 7..10u128 {
        assert_eq!(hub.receive(id), Some(SseEvent::ChangeSignUp { event_id: n }));
    }
    assert_eq!(hub.receive(id), None);
}

#[test]
fn token_goes_before_the_hash() {
    assert_eq!(session_secret(None, None), None);
    assert_eq!(session_secret(None, Some("hash")), Some("hash"));
    assert_eq!(session_secret(Some("token"), None), Some("token"));
    assert_eq!(session_secret(Some("token"), Some("hash")), Some("token"));
}

#[test]
fn texts_are_ordered_by_their_bytes() {
    assert!(text_at_most("", ""));
    assert!(text_at_most("", "a"));
    assert!(!text_at_most("a", ""));
    assert!(text_at_most("a@example.org", "a@example.org"));
    assert!(text_at_most("a@example.org", "b@example.org"));
    assert!(!text_at_most("b@example.org", "a@example.org"));
    assert!(text_at_most("ab", "abc"));
    assert!(!text_at_most("abc", "ab"));
    assert!(text_at_most("Z", "a"));
    assert!(text_at_most("z", "é"));
    assert!(bytes_at_most(&[1, 2], &[1, 2, 0]));
    assert!(!bytes_at_most(&[1, 3], &[1, 2, 9]));
    assert!(bytes_at_most(&[0x7f], &[0x80]));
}
