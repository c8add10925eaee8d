use discord_timestamp::style::Style;

#[test]
fn resolve_by_long_name() {
    assert_eq!(Style::parse("default"), Ok(Style::Default));
    assert_eq!(Style::parse("short-time"), Ok(Style::ShortTime));
    assert_eq!(Style::parse("long-time"), Ok(Style::LongTime));
    assert_eq!(Style::parse("short-date"), Ok(Style::ShortDate));
    assert_eq!(Style::parse("long-date"), Ok(Style::LongDate));
    assert_eq!(Style::parse("short-date-time"), Ok(Style::ShortDateTime));
    assert_eq!(Style::parse("long-date-time"), Ok(Style::LongDateTime));
    assert_eq!(Style::parse("relative-time"), Ok(Style::RelativeTime));
}

#[test]
fn resolve_by_code_matches_long_name() {
    let pairs = [
        ("t", "short-time"),
        ("T", "long-time"),
        ("d", "short-date"),
        ("D", "long-date"),
        ("f", "short-date-time"),
        ("F", "long-date-time"),
        ("R", "relative-time"),
    ];
    for (code, name) in pairs {
        assert_eq!(Style::parse(code), Style::parse(name));
        assert!(Style::parse(code).is_ok());
    }
}

#[test]
fn code_values() {
    assert_eq!(Style::Default.code(), "");
    assert_eq!(Style::ShortTime.code(), "t");
    assert_eq!(Style::LongTime.code(), "T");
    assert_eq!(Style::ShortDate.code(), "d");
    assert_eq!(Style::LongDate.code(), "D");
    assert_eq!(Style::ShortDateTime.code(), "f");
    assert_eq!(Style::LongDateTime.code(), "F");
    assert_eq!(Style::RelativeTime.code(), "R");
}

#[test]
fn format_default_style() {
    assert_eq!(Style::Default.get_formatted(1543392060), "<t:1543392060>");
}

#[test]
fn format_non_default_styles() {
    assert_eq!(Style::ShortTime.get_formatted(1543392060), "<t:1543392060:t>");
    assert_eq!(Style::LongTime.get_formatted(1543392060), "<t:1543392060:T>");
    assert_eq!(Style::ShortDate.get_formatted(1543392060), "<t:1543392060:d>");
    assert_eq!(Style::LongDate.get_formatted(1543392060), "<t:1543392060:D>");
    assert_eq!(
        Style::ShortDateTime.get_formatted(1543392060),
        "<t:1543392060:f>"
    );
    assert_eq!(
        Style::LongDateTime.get_formatted(1543392060),
        "<t:1543392060:F>"
    );
    assert_eq!(
        Style::RelativeTime.get_formatted(1543392060),
        "<t:1543392060:R>"
    );
}

#[test]
fn format_edge_epochs() {
    assert_eq!(Style::Default.get_formatted(0), "<t:0>");
    assert_eq!(Style::RelativeTime.get_formatted(-1), "<t:-1:R>");
    assert_eq!(
        Style::Default.get_formatted(i64::MAX),
        "<t:9223372036854775807>"
    );
    assert_eq!(
        Style::Default.get_formatted(i64::MIN),
        "<t:-9223372036854775808>"
    );
}

#[test]
fn format_is_pure() {
    let a = Style::RelativeTime.get_formatted(1543392060);
    let b = Style::RelativeTime.get_formatted(1543392060);
    assert_eq!(a, b);
}

#[test]
fn unknown_token_is_rejected_with_full_enumeration() {
    let err = Style::parse("bogus").unwrap_err();
    assert_eq!(
        err,
        "Expected one of: default, short-time, t, long-time, T, short-date, d, long-date, D, short-date-time, f, long-date-time, F, relative-time, R"
    );
    assert!(Style::parse("Default").is_err());
    assert!(Style::parse("r").is_err());
    assert!(Style::parse("").is_err());
}

#[test]
fn default_style_is_default() {
    assert_eq!(Style::default(), Style::Default);
}
