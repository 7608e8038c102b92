use vps_lastfm_bot::config::Config;
use vps_lastfm_bot::gist::{bearer, failure_message, gist_url, patch_body, patch_body_from_quoted};

fn some(s: &str) -> Option<String> {
    Some(s.to_string())
}

#[test]
fn all_values_present() {
    let c = Config::from_vars(some("me"), some("/tmp/x"), some("g1"), some("t"), some("f.md")).ok().unwrap();
    assert_eq!(c.last_fm_username, "me");
    assert_eq!(c.destination_folder, "/tmp/x");
    assert_eq!(c.gist_id, "g1");
    assert_eq!(c.github_token, "t");
    assert_eq!(c.gist_filename, "f.md");
}

#[test]
fn file_name_defaults() {
    let c = Config::from_vars(some("me"), some("d"), some("g"), some("t"), None).ok().unwrap();
    assert_eq!(c.gist_filename, "top-tracks.md");
}

#[test]
fn first_missing_value_is_named() {
    let err = |r: Result<Config, String>| r.err().unwrap();
    assert_eq!(err(Config::from_vars(None, None, None, None, None)), "Missing env var: LAST_FM_USERNAME");
    assert_eq!(err(Config::from_vars(some("u"), None, None, None, None)), "Missing env var: DESTINATION_FOLDER");
    assert_eq!(err(Config::from_vars(some("u"), some("d"), None, some("t"), None)), "Missing env var: GIST_ID");
    assert_eq!(err(Config::from_vars(some("u"), some("d"), some("g"), None, None)), "Missing env var: GITHUB_TOKEN");
}

#[test]
fn gist_request_parts() {
    assert_eq!(gist_url("abc"), "https://api.github.com/gists/abc");
    assert_eq!(bearer("abc123"), "Bearer abc123");
    assert_eq!(failure_message("404 Not Found", "nope"), "Failed to update gist: 404 Not Found - nope");
}

#[test]
fn patch_body_escapes_content() {
    assert_eq!(
        patch_body("top-tracks.md", "a \"b\"\nc"),
        "{\"files\":{\"top-tracks.md\":{\"content\":\"a \\\"b\\\"\\nc\"}}}"
    );
    assert_eq!(patch_body_from_quoted("\"n\"", "\"c\""), "{\"files\":{\"n\":{\"content\":\"c\"}}}");
}

#[test]
fn patch_body_escapes_control_characters() {
    assert_eq!(
        patch_body("n", "\u{1}\t\\\u{1f}é"),
        "{\"files\":{\"n\":{\"content\":\"\\u0001\\t\\\\\\u001fé\"}}}"
    );
}
