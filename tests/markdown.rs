use vps_lastfm_bot::markdown::{
    format_seconds_hms, format_top_tracks_markdown, format_tracks_markdown, push_decimal, TopTrack,
};

fn item(title: &str, url: &str, count: u64, total: u64) -> (String, String, u64, u64) {
    (title.to_string(), url.to_string(), count, total)
}

fn track(name: &str, artist: &str, url: &str, playcount: u32, duration: u32) -> TopTrack {
    TopTrack {
        name: name.to_string(),
        artist: artist.to_string(),
        url: url.to_string(),
        playcount,
        duration,
    }
}

#[test]
fn empty_list_renders_placeholder() {
    assert_eq!(format_tracks_markdown(&[]), "No tracks found.");
}

#[test]
fn zero_total_has_no_duration_suffix() {
    let items = vec![item("A — B", "u", 3, 0)];
    assert_eq!(format_tracks_markdown(&items), "- [A — B](u) — 3 plays");
}

#[test]
fn derived_total_renders_minutes_and_seconds() {
    let tracks = vec![track("A", "B", "u", 2, 90)];
    let out = format_top_tracks_markdown("me", &tracks);
    assert_eq!(
        out,
        "me's top listened tracks (refreshed hourly)\n\n- [A — B](u) — 2 plays — 3m 0s"
    );
}

#[test]
fn zero_duration_track_has_no_suffix() {
    let tracks = vec![track("A", "B", "u", 3, 0)];
    let out = format_top_tracks_markdown("me", &tracks);
    assert_eq!(out, "me's top listened tracks (refreshed hourly)\n\n- [A — B](u) — 3 plays");
}

#[test]
fn hms_elides_leading_zero_units() {
    assert_eq!(format_seconds_hms(0), "0s");
    assert_eq!(format_seconds_hms(59), "59s");
    assert_eq!(format_seconds_hms(180), "3m 0s");
    assert_eq!(format_seconds_hms(3600), "1h 0m 0s");
    assert_eq!(format_seconds_hms(5025), "1h 23m 45s");
    assert_eq!(format_seconds_hms(u64::MAX), "5124095576030431h 0m 15s");
}

#[test]
fn decimal_digits() {
    let mut s = String::from("n=");
    push_decimal(&mut s, 1070);
    assert_eq!(s, "n=1070");
}

#[test]
fn several_lines_joined_by_newline() {
    let items = vec![item("X", "a", 5, 3725), item("Y", "b", 1, 0)];
    assert_eq!(
        format_tracks_markdown(&items),
        "- [X](a) — 5 plays — 1h 2m 5s\n- [Y](b) — 1 plays"
    );
}

#[test]
fn top_tracks_ranked_by_count_stably() {
    let tracks = vec![
        track("a", "x", "1", 1, 0),
        track("b", "x", "2", 3, 0),
        track("c", "x", "3", 1, 0),
        track("d", "x", "4", 3, 0),
    ];
    let out = format_top_tracks_markdown("u", &tracks);
    assert_eq!(
        out,
        "u's top listened tracks (refreshed hourly)\n\n\
- [b — x](2) — 3 plays\n\
- [d — x](4) — 3 plays\n\
- [a — x](1) — 1 plays\n\
- [c — x](3) — 1 plays"
    );
}

#[test]
fn top_tracks_empty() {
    let out = format_top_tracks_markdown("u", &[]);
    assert_eq!(out, "u's top listened tracks (refreshed hourly)\n\nNo tracks found.");
}

#[test]
fn largest_counts_do_not_overflow() {
    let tracks = vec![track("a", "b", "c", u32::MAX, u32::MAX)];
    let out = format_top_tracks_markdown("u", &tracks);
    let total = (u32::MAX as u64) * (u32::MAX as u64);
    assert!(out.ends_with(&format!("— 4294967295 plays — {}", format_seconds_hms(total))));
}
