//! Markdown rendering of ranked tracks.
use vstd::prelude::*;

verus! {

/// One rendered entry: Markdown title, URL, play count, and total seconds
/// listened.
pub type DisplayItem = (String, String, u64, u64);

pub open spec fn digit_text(d: nat) -> Seq<char> {
    if d == 0 {
        "0"@
    } else if d == 1 {
        "1"@
    } else if d == 2 {
        "2"@
    } else if d == 3 {
        "3"@
    } else if d == 4 {
        "4"@
    } else if d == 5 {
        "5"@
    } else if d == 6 {
        "6"@
    } else if d == 7 {
        "7"@
    } else if d == 8 {
        "8"@
    } else {
        "9"@
    }
}

/// Decimal digits of `n`, without leading zeros.
pub open spec fn decimal(n: nat) -> Seq<char>
    decreases n,
{
    if n < 10 {
        digit_text(n)
    } else {
        decimal(n / 10) + digit_text(n % 10)
    }
}

/// `"{h}h {m}m {s}s"`, leaving out the hours when zero, and the minutes when
/// both they and the hours are zero.
pub open spec fn hms_text(total: nat) -> Seq<char> {
    let h = total / 3600;
    let m = (total % 3600) / 60;
    let s = total % 60;
    (if h > 0 { decimal(h) + "h "@ } else { Seq::empty() })
        + (if m > 0 || h > 0 { decimal(m) + "m "@ } else { Seq::empty() })
        + decimal(s) + "s"@
}

/// `"- [{title}]({url}) — {count} plays"`, followed by `" — {duration}"`
/// when the total listened time is not zero.
pub open spec fn line_text(item: DisplayItem) -> Seq<char> {
    "- ["@ + item.0@ + "]("@ + item.1@ + ") — "@ + decimal(item.2 as nat) + " plays"@ + (
    if item.3 == 0 {
        Seq::empty()
    } else {
        " — "@ + hms_text(item.3 as nat)
    })
}

/// The lines of `items`, joined by newlines.
pub open spec fn joined_lines(items: Seq<DisplayItem>) -> Seq<char>
    decreases items.len(),
{
    if items.len() == 0 {
        Seq::empty()
    } else if items.len() == 1 {
        line_text(items[0])
    } else {
        joined_lines(items.drop_last()) + "\n"@ + line_text(items.last())
    }
}

pub open spec fn tracks_text(items: Seq<DisplayItem>) -> Seq<char> {
    if items.len() == 0 {
        "No tracks found."@
    } else {
        joined_lines(items)
    }
}

/// `"- [{title}]({url}) — {count} plays"`, with no duration.
pub open spec fn plain_line_text(item: DisplayItem) -> Seq<char> {
    "- ["@ + item.0@ + "]("@ + item.1@ + ") — "@ + decimal(item.2 as nat) + " plays"@
}

/// The lines of `items`, each preceded by a newline.
pub open spec fn trailing_lines(items: Seq<DisplayItem>) -> Seq<char>
    decreases items.len(),
{
    if items.len() == 0 {
        Seq::empty()
    } else {
        trailing_lines(items.drop_last()) + "\n"@ + line_text(items.last())
    }
}

proof fn lemma_joined_split(items: Seq<DisplayItem>, k: int)
    requires
        1 <= k <= items.len(),
    ensures
        joined_lines(items) == joined_lines(items.take(k)) + trailing_lines(items.skip(k)),
    decreases items.len(),
{
    if k == items.len() {
        assert(items.take(k) =~= items);
        assert(trailing_lines(items.skip(k)) =~= Seq::<char>::empty());
        assert(joined_lines(items) + Seq::<char>::empty() =~= joined_lines(items));
    } else {
        let front = items.drop_last();
        lemma_joined_split(front, k);
        assert(front.take(k) =~= items.take(k));
        assert(items.skip(k).drop_last() =~= front.skip(k));
        assert(items.skip(k).last() == items.last());
        assert(joined_lines(items) =~= joined_lines(items.take(k)) + trailing_lines(items.skip(k)));
    }
}

/// Every entry whose total listened time is zero renders, in its place
/// among the lines, as `"- [{title}]({url}) — {count} plays"` with no
/// duration: after the lines before it and a newline (nothing when it is the
/// first), and before a newline and the lines after it (nothing when last).
pub proof fn zero_total_line_has_no_duration(items: Seq<DisplayItem>, i: int)
    requires
        0 <= i < items.len(),
        items[i].3 == 0,
    ensures
        tracks_text(items) == (if i == 0 {
            Seq::empty()
        } else {
            joined_lines(items.take(i)) + "\n"@
        }) + plain_line_text(items[i]) + trailing_lines(items.skip(i + 1)),
{
    lemma_joined_split(items, i + 1);
    assert(items.take(i + 1).drop_last() =~= items.take(i));
    assert(items.take(i + 1).last() == items[i]);
    assert(line_text(items[i]) =~= plain_line_text(items[i]));
    if i == 0 {
        assert(joined_lines(items.take(1)) == line_text(items.take(1)[0]));
        assert(Seq::<char>::empty() + plain_line_text(items[i]) =~= plain_line_text(items[i]));
    }
    assert(tracks_text(items) =~= (if i == 0 {
        Seq::empty()
    } else {
        joined_lines(items.take(i)) + "\n"@
    }) + plain_line_text(items[i]) + trailing_lines(items.skip(i + 1)));
}

fn digit_str(d: u64) -> (r: &'static str)
    requires
        d < 10,
    ensures
        r@ == digit_text(d as nat),
{
    if d == 0 {
        "0"
    } else if d == 1 {
        "1"
    } else if d == 2 {
        "2"
    } else if d == 3 {
        "3"
    } else if d == 4 {
        "4"
    } else if d == 5 {
        "5"
    } else if d == 6 {
        "6"
    } else if d == 7 {
        "7"
    } else if d == 8 {
        "8"
    } else {
        "9"
    }
}

/// Appends the decimal digits of `n` to `out`.
pub fn push_decimal(out: &mut String, n: u64)
    ensures
        final(out)@ == old(out)@ + decimal(n as nat),
    decreases n,
{
    if n < 10 {
        out.append(digit_str(n));
    } else {
        push_decimal(out, n / 10);
        out.append(digit_str(n % 10));
        assert(final(out)@ =~= old(out)@ + decimal(n as nat));
    }
}

/// Formats seconds as `1h 23m 45s`.
pub fn format_seconds_hms(total_seconds: u64) -> (r: String)
    ensures
        r@ == hms_text(total_seconds as nat),
{
    let hours = total_seconds / 3600;
    let minutes = (total_seconds % 3600) / 60;
    let seconds = total_seconds % 60;
    let mut out = String::new();
    if hours > 0 {
        push_decimal(&mut out, hours);
        out.append("h ");
    }
    if minutes > 0 || hours > 0 {
        push_decimal(&mut out, minutes);
        out.append("m ");
    }
    push_decimal(&mut out, seconds);
    out.append("s");
    assert(out@ =~= hms_text(total_seconds as nat));
    out
}

fn push_line(out: &mut String, item: &DisplayItem)
    ensures
        final(out)@ == old(out)@ + line_text(*item),
{
    out.append("- [");
    out.append(item.0.as_str());
    out.append("](");
    out.append(item.1.as_str());
    out.append(") — ");
    push_decimal(out, item.2);
    out.append(" plays");
    if item.3 != 0 {
        out.append(" — ");
        let duration = format_seconds_hms(item.3);
        out.append(duration.as_str());
    }
    assert(final(out)@ =~= old(out)@ + line_text(*item));
}

/// Renders one Markdown bullet per item, in order, joined by newlines; an
/// empty list renders as `No tracks found.`.
pub fn format_tracks_markdown(items: &[DisplayItem]) -> (r: String)
    ensures
        r@ == tracks_text(items@),
{
    if items.len() == 0 {
        return String::from_str("No tracks found.");
    }
    let mut out = String::new();
    let mut i: usize = 0;
    while i < items.len()
        invariant
            i <= items@.len(),
            out@ == joined_lines(items@.take(i as int)),
        decreases items@.len() - i,
    {
        assert(items@.take(i as int + 1).drop_last() =~= items@.take(i as int));
        if i > 0 {
            out.append("\n");
        }
        push_line(&mut out, &items[i]);
        i = i + 1;
    }
    assert(items@.take(items@.len() as int) =~= items@);
    out
}

/// A ranked track as the data source reports it.
#[derive(Debug, Clone, PartialEq, Eq)]
pub struct TopTrack {
    pub name: String,
    pub artist: String,
    pub url: String,
    pub playcount: u32,
    /// Nominal length of the track in seconds.
    pub duration: u32,
}

/// The entry rendered for a track: `"{name} — {artist}"`, its URL, its play
/// count, and duration × play count as total seconds listened.
pub open spec fn display_of(t: TopTrack) -> (Seq<char>, Seq<char>, nat, nat) {
    (t.name@ + " — "@ + t.artist@, t.url@, t.playcount as nat, (t.duration * t.playcount) as nat)
}

pub open spec fn item_view(item: DisplayItem) -> (Seq<char>, Seq<char>, nat, nat) {
    (item.0@, item.1@, item.2 as nat, item.3 as nat)
}

/// `s` with `x` placed before the first entry of a smaller play count, so
/// that entries of equal count keep their order.
pub open spec fn insert_by_count(s: Seq<DisplayItem>, x: DisplayItem) -> Seq<DisplayItem>
    decreases s.len(),
{
    if s.len() == 0 {
        seq![x]
    } else if s[0].2 < x.2 {
        seq![x] + s
    } else {
        seq![s[0]] + insert_by_count(s.drop_first(), x)
    }
}

/// Stable sort by play count, highest first.
pub open spec fn sort_by_count(s: Seq<DisplayItem>) -> Seq<DisplayItem>
    decreases s.len(),
{
    if s.len() == 0 {
        s
    } else {
        insert_by_count(sort_by_count(s.drop_last()), s.last())
    }
}

pub open spec fn ranked_lines(ranked: Seq<DisplayItem>, tracks: Seq<TopTrack>) -> bool {
    &&& ranked.len() == tracks.len()
    &&& exists|items: Seq<DisplayItem>|
        {
            &&& items.len() == tracks.len()
            &&& (forall|i: int| 0 <= i < tracks.len() ==> item_view(#[trigger] items[i]) == display_of(tracks[i]))
            &&& ranked == sort_by_count(items)
        }
}

pub open spec fn heading_text(username: Seq<char>) -> Seq<char> {
    username + "'s top listened tracks (refreshed hourly)\n\n"@
}

proof fn lemma_insert_at(s: Seq<DisplayItem>, x: DisplayItem, p: int)
    requires
        0 <= p <= s.len(),
        forall|k: int| 0 <= k < p ==> (#[trigger] s[k]).2 >= x.2,
        p < s.len() ==> s[p].2 < x.2,
    ensures
        insert_by_count(s, x) == s.take(p) + seq![x] + s.skip(p),
    decreases p,
{
    if p == 0 {
        assert(s.skip(0) =~= s);
        assert(s.take(0) + seq![x] + s.skip(0) =~= seq![x] + s);
    } else {
        let t = s.drop_first();
        assert forall|k: int| 0 <= k < p - 1 implies (#[trigger] t[k]).2 >= x.2 by {
            assert(t[k] == s[k + 1]);
        }
        lemma_insert_at(t, x, p - 1);
        assert(s.take(p) + seq![x] + s.skip(p) =~= seq![s[0]] + (t.take(p - 1) + seq![x] + t.skip(p - 1)));
    }
}

/// Ranks the display entries of `tracks`: stable, by play count, highest
/// first.
fn rank_tracks(tracks: &[TopTrack]) -> (r: Vec<DisplayItem>)
    ensures
        ranked_lines(r@, tracks@),
{
    let mut out: Vec<DisplayItem> = Vec::new();
    let ghost mut items: Seq<DisplayItem> = Seq::empty();
    let mut i: usize = 0;
    while i < tracks.len()
        invariant
            i <= tracks@.len(),
            items.len() == i,
            forall|k: int| 0 <= k < i ==> item_view(#[trigger] items[k]) == display_of(tracks@[k]),
            out@ == sort_by_count(items),
            out@.len() == i,
        decreases tracks@.len() - i,
    {
        let t = &tracks[i];
        let mut title = t.name.clone();
        title.append(" — ");
        title.append(t.artist.as_str());
        let count = t.playcount as u64;
        let duration = t.duration as u64;
        assert(duration * count <= 0xFFFF_FFFFu64 * 0xFFFF_FFFFu64) by (nonlinear_arith)
            requires
                duration <= 0xFFFF_FFFFu64,
                count <= 0xFFFF_FFFFu64,
        ;
        let total = duration * count;
        let item: DisplayItem = (title, t.url.clone(), count, total);
        let mut p: usize = 0;
        while p < out.len() && out[p].2 >= count
            invariant
                p <= out@.len(),
                forall|k: int| 0 <= k < p ==> (#[trigger] out@[k]).2 >= count,
            decreases out@.len() - p,
        {
            p = p + 1;
        }
        proof {
            lemma_insert_at(out@, item, p as int);
            let next_items = items.push(item);
            assert(next_items.drop_last() =~= items);
            items = next_items;
        }
        out.insert(p, item);
        assert(out@ =~= sort_by_count(items));
        i = i + 1;
    }
    out
}

/// Renders `tracks` under the heading
/// `"{username}'s top listened tracks (refreshed hourly)"` and a blank line,
/// ranked by play count, highest first, equal counts in input order.
pub fn format_top_tracks_markdown(username: &str, tracks: &[TopTrack]) -> (r: String)
    ensures
        exists|ranked: Seq<DisplayItem>|
            ranked_lines(ranked, tracks@) && r@ == heading_text(username@) + tracks_text(ranked),
{
    let ranked = rank_tracks(tracks);
    let mut out = String::from_str(username);
    out.append("'s top listened tracks (refreshed hourly)\n\n");
    let body = format_tracks_markdown(ranked.as_slice());
    out.append(body.as_str());
    out
}

} // verus!
