//! The request that replaces the content of one file of a GitHub gist.
use vstd::prelude::*;

verus! {

pub open spec fn hex_digit(d: int) -> char {
    seq!['0', '1', '2', '3', '4', '5', '6', '7', '8', '9', 'a', 'b', 'c', 'd', 'e', 'f'][d]
}

/// How a JSON string literal writes `c`: `"` and `\` behind a backslash;
/// backspace, tab, line feed, form feed and carriage return as `\b`, `\t`,
/// `\n`, `\f`, `\r`; the other characters below 0x20 as `\u00XX` in lower
/// case hexadecimal; everything else as it is.
pub open spec fn json_escape(c: char) -> Seq<char> {
    if c == '"' {
        seq!['\\', '"']
    } else if c == '\\' {
        seq!['\\', '\\']
    } else if c == '\x08' {
        seq!['\\', 'b']
    } else if c == '\t' {
        seq!['\\', 't']
    } else if c == '\n' {
        seq!['\\', 'n']
    } else if c == '\x0c' {
        seq!['\\', 'f']
    } else if c == '\r' {
        seq!['\\', 'r']
    } else if (c as int) < 0x20 {
        seq!['\\', 'u', '0', '0', hex_digit((c as int) / 16), hex_digit((c as int) % 16)]
    } else {
        seq![c]
    }
}

pub open spec fn json_escaped(s: Seq<char>) -> Seq<char>
    decreases s.len(),
{
    if s.len() == 0 {
        Seq::empty()
    } else {
        json_escaped(s.drop_last()) + json_escape(s.last())
    }
}

/// The JSON string literal that encodes `s`.
pub open spec fn json_quoted(s: Seq<char>) -> Seq<char> {
    seq!['"'] + json_escaped(s) + seq!['"']
}

/// Relies on `serde_json::to_string` on a `str`: it writes the quoted
/// literal, escaping each character as its escape table says, into a
/// `Vec<u8>`, which never fails.
#[verifier::external_body]
fn json_string(s: &str) -> (r: Result<String, serde_json::Error>)
    ensures
        r is Ok,
        r matches Ok(q) ==> q@ == json_quoted(s@),
{
    serde_json::to_string(s)
}

#[verifier::external_type_specification]
#[verifier::external_body]
pub struct ExJsonError(serde_json::Error);

pub open spec fn gist_url_text(gist_id: Seq<char>) -> Seq<char> {
    "https://api.github.com/gists/"@ + gist_id
}

pub open spec fn bearer_text(token: Seq<char>) -> Seq<char> {
    "Bearer "@ + token
}

/// `{"files":{<name>:{"content":<content>}}}` from the two encoded literals.
pub open spec fn patch_body_text(quoted_name: Seq<char>, quoted_content: Seq<char>) -> Seq<char> {
    "{\"files\":{"@ + quoted_name + ":{\"content\":"@ + quoted_content + "}}}"@
}

pub open spec fn failure_text(status: Seq<char>, body: Seq<char>) -> Seq<char> {
    "Failed to update gist: "@ + status + " - "@ + body
}

/// Address of the gist `gist_id`.
pub fn gist_url(gist_id: &str) -> (r: String)
    ensures
        r@ == gist_url_text(gist_id@),
{
    let mut r = String::from_str("https://api.github.com/gists/");
    r.append(gist_id);
    r
}

/// Value of the authorization header for `token`.
pub fn bearer(token: &str) -> (r: String)
    ensures
        r@ == bearer_text(token@),
{
    let mut r = String::from_str("Bearer ");
    r.append(token);
    r
}

/// The request body, from the already encoded file name and content.
pub fn patch_body_from_quoted(quoted_name: &str, quoted_content: &str) -> (r: String)
    ensures
        r@ == patch_body_text(quoted_name@, quoted_content@),
{
    let mut r = String::from_str("{\"files\":{");
    r.append(quoted_name);
    r.append(":{\"content\":");
    r.append(quoted_content);
    r.append("}}}");
    r
}

/// The request body that sets file `file_name` of the gist to `content`.
pub fn patch_body(file_name: &str, content: &str) -> (r: String)
    ensures
        r@ == patch_body_text(json_quoted(file_name@), json_quoted(content@)),
{
    let quoted_name = match json_string(file_name) {
        Ok(q) => q,
        Err(_) => String::new(),
    };
    let quoted_content = match json_string(content) {
        Ok(q) => q,
        Err(_) => String::new(),
    };
    patch_body_from_quoted(quoted_name.as_str(), quoted_content.as_str())
}

/// The error reported for a response of status `status` (as displayed)
/// with body `body`.
pub fn failure_message(status: &str, body: &str) -> (r: String)
    ensures
        r@ == failure_text(status@, body@),
{
    let mut r = String::from_str("Failed to update gist: ");
    r.append(status);
    r.append(" - ");
    r.append(body);
    r
}

} // verus!
