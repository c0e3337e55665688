use std::cmp::Ordering;

use musicplayer_rs::format::parse;
use musicplayer_rs::format::render;
use musicplayer_rs::format::FormatExpr;
use musicplayer_rs::format::FormatParseError;
use musicplayer_rs::format::TrackField;
use musicplayer_rs::track::AlbumTitle;
use musicplayer_rs::track::Artist;
use musicplayer_rs::track::Composer;
use musicplayer_rs::track::DiscNumber;
use musicplayer_rs::track::Genre;
use musicplayer_rs::track::Title;
use musicplayer_rs::track::Track;
use musicplayer_rs::track::TrackDuration;
use musicplayer_rs::track::TrackId;
use musicplayer_rs::track::TrackNumber;
use musicplayer_rs::track::TrackPath;
use musicplayer_rs::track::Year;

fn geogaddi_track() -> Track {
    Track {
        id: TrackId::new(1),
        path: TrackPath::new("/home/user/Music/boc/geogaddi/01_alpha_and_omega.flac").unwrap(),
        title: Title::new("Alpha and Omega"),
        artist: Artist::new("Boards of Canada"),
        album_artist: Artist::new(""),
        album: AlbumTitle::new("Geogaddi"),
        genre: Genre::new("Ambient"),
        composer: Composer::new(""),
        duration: TrackDuration::from_secs(133),
        track_number: TrackNumber::new(1),
        disc_number: DiscNumber::new(1),
        year: Year::new(2002),
    }
}

#[test]
fn parse_literal_text_only_renders_unchanged() {
    let expr = parse("Boards of Canada").unwrap();
    assert_eq!(render(&expr, &geogaddi_track()), "Boards of Canada");
}

#[test]
fn parse_single_field_placeholder_substitutes_value() {
    let expr = parse("%artist%").unwrap();
    assert_eq!(render(&expr, &geogaddi_track()), "Boards of Canada");
}

#[test]
fn parse_mixes_literal_text_and_fields() {
    let expr = parse("%artist% \u{2013} %title%").unwrap();
    assert_eq!(
        render(&expr, &geogaddi_track()),
        "Boards of Canada \u{2013} Alpha and Omega"
    );
}

#[test]
fn parse_unknown_field_returns_error() {
    assert_eq!(
        parse("%bitrate%"),
        Err(FormatParseError::UnknownField("bitrate".to_string()))
    );
}

#[test]
fn parse_unterminated_field_returns_error() {
    assert_eq!(parse("%artist"), Err(FormatParseError::UnterminatedField));
}

#[test]
fn optional_group_renders_when_field_present() {
    let expr = parse("[%album% ]CD%disc%").unwrap();
    assert_eq!(render(&expr, &geogaddi_track()), "Geogaddi CD1");
}

#[test]
fn optional_group_vanishes_when_every_field_inside_is_absent() {
    let expr = parse("[%album_artist% \u{2013} ]%title%").unwrap();
    assert_eq!(render(&expr, &geogaddi_track()), "Alpha and Omega");
}

#[test]
fn nested_optional_groups_use_transitive_presence() {
    let expr = parse("[[%album_artist%]%album%]").unwrap();
    assert_eq!(render(&expr, &geogaddi_track()), "Geogaddi");
}

#[test]
fn parse_unterminated_group_returns_error() {
    assert_eq!(parse("[%album%"), Err(FormatParseError::UnterminatedGroup));
}

#[test]
fn parse_unexpected_group_close_returns_error() {
    assert_eq!(
        parse("%album%]"),
        Err(FormatParseError::UnexpectedGroupClose)
    );
}

#[test]
fn escaped_reserved_characters_render_literally() {
    let expr = parse("100\\% \\[live\\]").unwrap();
    assert_eq!(render(&expr, &geogaddi_track()), "100% [live]");
}

#[test]
fn parse_trailing_backslash_returns_error() {
    assert_eq!(parse("track\\"), Err(FormatParseError::TrailingEscape));
}

#[test]
fn bare_field_renders_empty_not_a_placeholder_word_when_absent() {
    let expr = parse("%album_artist%").unwrap();
    assert_eq!(render(&expr, &geogaddi_track()), "");
}

#[test]
fn duration_field_renders_as_minutes_colon_seconds() {
    let expr = parse("%duration%").unwrap();
    assert_eq!(render(&expr, &geogaddi_track()), "2:13");
}

#[test]
fn display_round_trips_through_parse() {
    let expr = parse("[%album% ]CD%disc%/%track% \\[100\\%\\]").unwrap();
    let reparsed = parse(&expr.to_string()).unwrap();
    assert_eq!(expr, reparsed);
}

#[test]
fn all_lists_every_field_exactly_once() {
    let all = TrackField::all();
    assert_eq!(all.len(), 10);
    let unique: std::collections::HashSet<_> = all.iter().copied().collect();
    assert_eq!(unique.len(), 10, "no field is listed twice");
}

#[test]
fn label_is_human_readable_for_every_field() {
    assert_eq!(TrackField::Title.label(), "Title");
    assert_eq!(TrackField::AlbumArtist.label(), "Album Artist");
    assert_eq!(TrackField::TrackNumber.label(), "Track #");
}

#[test]
fn as_key_round_trips_through_from_key_for_every_field() {
    for field in TrackField::all() {
        assert_eq!(TrackField::from_key(field.as_key()), Some(field));
    }
}

#[test]
fn field_only_renders_the_same_as_a_parsed_bare_placeholder() {
    let via_constructor = FormatExpr::field_only(TrackField::Artist);
    let via_parser = parse("%artist%").unwrap();
    assert_eq!(
        render(&via_constructor, &geogaddi_track()),
        render(&via_parser, &geogaddi_track())
    );
}

#[test]
fn field_only_display_matches_the_bare_placeholder_syntax() {
    assert_eq!(
        FormatExpr::field_only(TrackField::Album).to_string(),
        "%album%"
    );
}

#[test]
fn compare_orders_by_title_lexicographically() {
    let a = geogaddi_track();
    let b = Track {
        title: Title::new("Beta Bends"),
        ..geogaddi_track()
    };
    assert_eq!(TrackField::Title.compare(&a, &b), Ordering::Less);
}

#[test]
fn compare_orders_by_artist_lexicographically() {
    let a = geogaddi_track();
    let b = Track {
        artist: Artist::new("Emeralds"),
        ..geogaddi_track()
    };
    assert_eq!(TrackField::Artist.compare(&a, &b), Ordering::Less);
}

#[test]
fn compare_orders_by_album_artist_lexicographically() {
    let a = geogaddi_track();
    let b = Track {
        album_artist: Artist::new("Various Artists"),
        ..geogaddi_track()
    };
    assert_eq!(TrackField::AlbumArtist.compare(&a, &b), Ordering::Less);
}

#[test]
fn compare_orders_by_album_lexicographically() {
    let a = geogaddi_track();
    let b = Track {
        album: AlbumTitle::new("Music Has the Right to Children"),
        ..geogaddi_track()
    };
    assert_eq!(TrackField::Album.compare(&a, &b), Ordering::Less);
}

#[test]
fn compare_orders_by_genre_lexicographically() {
    let a = geogaddi_track();
    let b = Track {
        genre: Genre::new("Electronic"),
        ..geogaddi_track()
    };
    assert_eq!(TrackField::Genre.compare(&a, &b), Ordering::Less);
}

#[test]
fn compare_orders_by_composer_lexicographically() {
    let a = geogaddi_track();
    let b = Track {
        composer: Composer::new("Erik Satie"),
        ..geogaddi_track()
    };
    assert_eq!(TrackField::Composer.compare(&a, &b), Ordering::Less);
}

#[test]
fn compare_orders_by_track_number_numerically_not_lexicographically() {
    let two = Track {
        track_number: TrackNumber::new(2),
        ..geogaddi_track()
    };
    let ten = Track {
        track_number: TrackNumber::new(10),
        ..geogaddi_track()
    };
    assert_eq!(TrackField::TrackNumber.compare(&two, &ten), Ordering::Less);
}

#[test]
fn compare_orders_by_disc_number_numerically() {
    let disc_one = geogaddi_track();
    let disc_two = Track {
        disc_number: DiscNumber::new(2),
        ..geogaddi_track()
    };
    assert_eq!(
        TrackField::DiscNumber.compare(&disc_one, &disc_two),
        Ordering::Less
    );
}

#[test]
fn compare_orders_by_year_numerically() {
    let earlier = geogaddi_track();
    let later = Track {
        year: Year::new(2005),
        ..geogaddi_track()
    };
    assert_eq!(TrackField::Year.compare(&earlier, &later), Ordering::Less);
}

#[test]
fn compare_orders_by_duration_numerically_not_by_rendered_text() {
    let short = geogaddi_track();
    let long = Track {
        duration: TrackDuration::from_secs(600),
        ..geogaddi_track()
    };
    assert_eq!(TrackField::Duration.compare(&short, &long), Ordering::Less);
}

#[test]
fn compare_is_equal_for_identical_tracks() {
    let track = geogaddi_track();
    assert_eq!(TrackField::Title.compare(&track, &track), Ordering::Equal);
}

#[test]
fn printing_then_parsing_gives_the_same_expression() {
    for text in [
        "",
        "plain",
        "%title%",
        "[%album% \\[%year%\\]] \\\\ %duration%",
        "[[%composer%]]%genre%",
    ] {
        let expr = parse(text).unwrap();
        assert_eq!(parse(&expr.to_string()).unwrap(), expr);
    }
}

#[test]
fn field_key_and_label_of_every_field_are_distinct() {
    let all = TrackField::all();
    let keys: std::collections::HashSet<_> = all.iter().map(|f| f.as_key()).collect();
    let labels: std::collections::HashSet<_> = all.iter().map(|f| f.label()).collect();
    assert_eq!(keys.len(), 10);
    assert_eq!(labels.len(), 10);
    assert_eq!(TrackField::from_key("bitrate"), None);
}

#[test]
fn absent_number_fields_render_empty() {
    let track = Track {
        track_number: TrackNumber::new(0),
        year: Year::new(0),
        ..geogaddi_track()
    };
    assert_eq!(render(&parse("[%track%. ]%title%[ (%year%)]").unwrap(), &track), "Alpha and Omega");
    assert!(TrackField::Year.is_absent(&track));
    assert!(!TrackField::Duration.is_absent(&track));
}

#[test]
fn field_render_writes_the_field_text() {
    let track = geogaddi_track();
    assert_eq!(TrackField::Year.render(&track), "2002");
    assert_eq!(TrackField::Duration.render(&track), "2:13");
    let mut out = String::from("> ");
    TrackField::Album.render_into(&mut out, &track);
    assert_eq!(out, "> Geogaddi");
}
