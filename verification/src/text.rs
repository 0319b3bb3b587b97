//! Character-level text utilities: control-character stripping, whitespace
//! trimming, and display truncation.
use vstd::prelude::*;

verus! {

/// A character of the Unicode control category: U+0000..=U+001F or
/// U+007F..=U+009F.
pub open spec fn is_control_char(c: char) -> bool {
    (c as u32) < 0x20 || (0x7f <= (c as u32) && (c as u32) <= 0x9f)
}

/// A character with the Unicode white-space property.
pub open spec fn is_space_char(c: char) -> bool {
    (0x09 <= (c as u32) && (c as u32) <= 0x0d) || (c as u32) == 0x20 || (c as u32) == 0x85
        || (c as u32) == 0xa0 || (c as u32) == 0x1680 || (0x2000 <= (c as u32) && (c as u32)
        <= 0x200a) || (c as u32) == 0x2028 || (c as u32) == 0x2029 || (c as u32) == 0x202f || (
    c as u32) == 0x205f || (c as u32) == 0x3000
}

/// A character that sanitation keeps: anything but a control character,
/// with plain space always kept.
pub open spec fn is_kept_char(c: char) -> bool {
    !is_control_char(c) || c == ' '
}

/// The subsequence of `s` with every control character (except plain space)
/// removed, in order.
pub open spec fn stripped(s: Seq<char>) -> Seq<char>
    decreases s.len(),
{
    if s.len() == 0 {
        s
    } else if is_kept_char(s.last()) {
        stripped(s.drop_last()).push(s.last())
    } else {
        stripped(s.drop_last())
    }
}

/// `s` with leading and trailing white space removed.
pub open spec fn trimmed(s: Seq<char>) -> Seq<char>
    decreases s.len(),
{
    if s.len() > 0 && is_space_char(s.first()) {
        trimmed(s.drop_first())
    } else if s.len() > 0 && is_space_char(s.last()) {
        trimmed(s.drop_last())
    } else {
        s
    }
}

/// Control characters removed, then outer white space trimmed: the full
/// sanitation applied to titles and descriptions.
pub open spec fn sanitized(s: Seq<char>) -> Seq<char> {
    trimmed(stripped(s))
}

/// `s` cut to its first `max` characters with an ellipsis appended, or `s`
/// itself if it is short enough.
pub open spec fn truncated(s: Seq<char>, max: int) -> Seq<char> {
    if s.len() <= max {
        s
    } else {
        s.take(max) + seq!['.', '.', '.']
    }
}

/// The breadcrumb separator (U+203A) replaced by a slash; any other
/// character is kept as it is.
pub open spec fn slash_char(c: char) -> char {
    if c == '\u{203a}' {
        '/'
    } else {
        c
    }
}

/// `s` with every breadcrumb separator replaced by a slash.
pub open spec fn slashed(s: Seq<char>) -> Seq<char>
    decreases s.len(),
{
    if s.len() == 0 {
        s
    } else {
        slashed(s.drop_last()).push(slash_char(s.last()))
    }
}

/// The longest prefix of `s` that holds no white space.
pub open spec fn leading_run(s: Seq<char>) -> Seq<char>
    decreases s.len(),
{
    if s.len() == 0 || is_space_char(s.first()) {
        Seq::empty()
    } else {
        seq![s.first()] + leading_run(s.drop_first())
    }
}

/// The first white-space-delimited token of `s`, or the empty sequence if
/// `s` holds only white space.
pub open spec fn first_token(s: Seq<char>) -> Seq<char>
    decreases s.len(),
{
    if s.len() == 0 {
        s
    } else if is_space_char(s.first()) {
        first_token(s.drop_first())
    } else {
        leading_run(s)
    }
}

/// The display-URL normalisation: breadcrumb separators become slashes,
/// then only the first white-space-delimited token is kept.
pub open spec fn display_url_of(s: Seq<char>) -> Seq<char> {
    first_token(slashed(s))
}

/// `s` begins with the four characters of "http".
pub open spec fn http_prefixed(s: Seq<char>) -> bool {
    s.len() >= 4 && s[0] == 'h' && s[1] == 't' && s[2] == 't' && s[3] == 'p'
}

/// Relies on str::chars: yields the string's characters in order.
#[verifier::external_body]
pub(crate) fn chars_of(s: &str) -> (r: Vec<char>)
    ensures
        r@ == s@,
{
    s.chars().collect()
}

/// Relies on String's FromIterator over char: builds the string of exactly
/// these characters, in order.
#[verifier::external_body]
pub(crate) fn string_from_chars(v: &Vec<char>) -> (r: String)
    ensures
        r@ == v@,
{
    v.iter().collect()
}

/// Whether `c` is a control character (Unicode category Cc).
fn control_char(c: char) -> (r: bool)
    ensures
        r == is_control_char(c),
{
    let u = c as u32;
    u < 0x20 || (0x7f <= u && u <= 0x9f)
}

/// Whether `c` is a white-space character.
fn space_char(c: char) -> (r: bool)
    ensures
        r == is_space_char(c),
{
    let u = c as u32;
    (0x09 <= u && u <= 0x0d) || u == 0x20 || u == 0x85 || u == 0xa0 || u == 0x1680 || (0x2000 <= u
        && u <= 0x200a) || u == 0x2028 || u == 0x2029 || u == 0x202f || u == 0x205f || u == 0x3000
}

/// The characters of `v` with leading and trailing white space removed.
fn trim_chars(v: &Vec<char>) -> (r: Vec<char>)
    ensures
        r@ == trimmed(v@),
{
    let mut start: usize = 0;
    let mut end: usize = v.len();
    proof {
        assert(v@.subrange(0, v@.len() as int) =~= v@);
    }
    while start < end && space_char(v[start])
        invariant
            0 <= start <= end <= v@.len(),
            trimmed(v@) == trimmed(v@.subrange(start as int, end as int)),
            end == v@.len(),
        decreases end - start,
    {
        proof {
            let sub = v@.subrange(start as int, end as int);
            assert(sub.first() == v@[start as int]);
            assert(sub.drop_first() =~= v@.subrange(start as int + 1, end as int));
        }
        start += 1;
    }
    while end > start && space_char(v[end - 1])
        invariant
            0 <= start <= end <= v@.len(),
            trimmed(v@) == trimmed(v@.subrange(start as int, end as int)),
            start == end || !is_space_char(v@[start as int]),
        decreases end - start,
    {
        proof {
            let sub = v@.subrange(start as int, end as int);
            assert(sub.last() == v@[end - 1]);
            assert(sub.first() == v@[start as int]);
            assert(sub.drop_last() =~= v@.subrange(start as int, end as int - 1));
        }
        end -= 1;
    }
    proof {
        let sub = v@.subrange(start as int, end as int);
        if sub.len() > 0 {
            assert(sub.first() == v@[start as int]);
            assert(sub.last() == v@[end - 1]);
        }
        assert(trimmed(sub) == sub);
    }
    let mut out: Vec<char> = Vec::new();
    let mut i: usize = start;
    while i < end
        invariant
            start <= i <= end <= v@.len(),
            out@ == v@.subrange(start as int, i as int),
        decreases end - i,
    {
        out.push(v[i]);
        proof {
            assert(out@ =~= v@.subrange(start as int, i as int + 1));
        }
        i += 1;
    }
    out
}

/// Strip control characters (keeping plain spaces) and trim outer white
/// space; applied to extracted titles and descriptions before use.
pub fn sanitize_display(s: &str) -> (r: String)
    ensures
        r@ == sanitized(s@),
{
    let cs = chars_of(s);
    let mut kept: Vec<char> = Vec::new();
    let mut i: usize = 0;
    while i < cs.len()
        invariant
            0 <= i <= cs@.len(),
            kept@ == stripped(cs@.take(i as int)),
        decreases cs@.len() - i,
    {
        let c = cs[i];
        proof {
            assert(cs@.take(i as int + 1).drop_last() =~= cs@.take(i as int));
            assert(cs@.take(i as int + 1).last() == cs@[i as int]);
        }
        if !control_char(c) || c == ' ' {
            kept.push(c);
        }
        i += 1;
    }
    proof {
        assert(cs@.take(cs@.len() as int) =~= cs@);
    }
    let trimmed_chars = trim_chars(&kept);
    string_from_chars(&trimmed_chars)
}

/// Normalise a raw display URL: replace breadcrumb separators by slashes
/// and keep only the first white-space-delimited token.
pub fn normalize_display_url(s: &str) -> (r: String)
    ensures
        r@ == display_url_of(s@),
{
    let cs = chars_of(s);
    let mut mapped: Vec<char> = Vec::new();
    let mut i: usize = 0;
    while i < cs.len()
        invariant
            0 <= i <= cs@.len(),
            mapped@ == slashed(cs@.take(i as int)),
        decreases cs@.len() - i,
    {
        let c = cs[i];
        proof {
            assert(cs@.take(i as int + 1).drop_last() =~= cs@.take(i as int));
            assert(cs@.take(i as int + 1).last() == cs@[i as int]);
        }
        if c == '\u{203a}' {
            mapped.push('/');
        } else {
            mapped.push(c);
        }
        i += 1;
    }
    proof {
        assert(cs@.take(cs@.len() as int) =~= cs@);
    }
    let mut j: usize = 0;
    proof {
        assert(mapped@.subrange(0, mapped@.len() as int) =~= mapped@);
    }
    while j < mapped.len() && space_char(mapped[j])
        invariant
            0 <= j <= mapped@.len(),
            first_token(mapped@) == first_token(
                mapped@.subrange(j as int, mapped@.len() as int),
            ),
        decreases mapped@.len() - j,
    {
        proof {
            let sub = mapped@.subrange(j as int, mapped@.len() as int);
            assert(sub.first() == mapped@[j as int]);
            assert(sub.drop_first() =~= mapped@.subrange(j as int + 1, mapped@.len() as int));
        }
        j += 1;
    }
    proof {
        assert(mapped@.subrange(0, mapped@.len() as int) =~= mapped@);
    }
    let mut out: Vec<char> = Vec::new();
    while j < mapped.len() && !space_char(mapped[j])
        invariant
            0 <= j <= mapped@.len(),
            first_token(mapped@) == out@ + leading_run(
                mapped@.subrange(j as int, mapped@.len() as int),
            ),
        decreases mapped@.len() - j,
    {
        proof {
            let sub = mapped@.subrange(j as int, mapped@.len() as int);
            assert(sub.first() == mapped@[j as int]);
            assert(sub.drop_first() =~= mapped@.subrange(j as int + 1, mapped@.len() as int));
        }
        out.push(mapped[j]);
        j += 1;
    }
    proof {
        let sub = mapped@.subrange(j as int, mapped@.len() as int);
        assert(leading_run(sub) =~= Seq::<char>::empty());
        assert(out@ =~= out@ + Seq::<char>::empty());
    }
    string_from_chars(&out)
}

/// Whether the string begins with "http"; the guard that keeps relative or
/// tracking links out of extracted results.
pub fn has_http_prefix(s: &str) -> (r: bool)
    ensures
        r == http_prefixed(s@),
{
    let cs = chars_of(s);
    cs.len() >= 4 && cs[0] == 'h' && cs[1] == 't' && cs[2] == 't' && cs[3] == 'p'
}

/// Cut `s` to at most `max_chars` characters, appending an ellipsis when
/// anything was cut away.
pub fn truncate_string(s: &str, max_chars: usize) -> (r: String)
    ensures
        r@ == truncated(s@, max_chars as int),
{
    let cs = chars_of(s);
    if cs.len() <= max_chars {
        string_from_chars(&cs)
    } else {
        let mut out: Vec<char> = Vec::new();
        let mut i: usize = 0;
        while i < max_chars
            invariant
                0 <= i <= max_chars < cs@.len(),
                out@ == cs@.take(i as int),
            decreases max_chars - i,
        {
            out.push(cs[i]);
            proof {
                assert(out@ =~= cs@.take(i as int + 1));
            }
            i += 1;
        }
        out.push('.');
        out.push('.');
        out.push('.');
        proof {
            assert(out@ =~= cs@.take(max_chars as int) + seq!['.', '.', '.']);
        }
        string_from_chars(&out)
    }
}

} // verus!
