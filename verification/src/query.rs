//! Query handling: joining argument tokens into the query string and
//! building the search-engine request URL from it.
use vstd::prelude::*;

verus! {

/// The views of a sequence of strings.
pub open spec fn views_of_strings(ss: Seq<String>) -> Seq<Seq<char>> {
    ss.map_values(|s: String| s@)
}

/// The parts joined with a single space between neighbours.
pub open spec fn joined(parts: Seq<Seq<char>>) -> Seq<char>
    decreases parts.len(),
{
    if parts.len() == 0 {
        Seq::empty()
    } else if parts.len() == 1 {
        parts[0]
    } else {
        joined(parts.drop_last()) + seq![' '] + parts.last()
    }
}

/// A space turned into a plus sign; any other character kept.
pub open spec fn plus_char(c: char) -> char {
    if c == ' ' {
        '+'
    } else {
        c
    }
}

/// `s` with every space turned into a plus sign: the encoding of the query
/// into the request URL.
pub open spec fn plus_encoded(s: Seq<char>) -> Seq<char>
    decreases s.len(),
{
    if s.len() == 0 {
        s
    } else {
        plus_encoded(s.drop_last()).push(plus_char(s.last()))
    }
}

/// The fixed search endpoint with the encoded query as its one parameter.
pub open spec fn search_url_of(q: Seq<char>) -> Seq<char> {
    "https://search.brave.com/search?q="@ + plus_encoded(q)
}

/// Join the command-line tokens after the program name into one query,
/// with single spaces between them; `None` when no token is there.
pub fn query_from_args(args: &Vec<String>) -> (r: Option<String>)
    ensures
        args@.len() < 2 ==> r is None,
        args@.len() >= 2 ==> (r matches Some(q) && q@ == joined(
            views_of_strings(args@.subrange(1, args@.len() as int)),
        )),
{
    if args.len() < 2 {
        return None;
    }
    let mut q = String::new();
    let mut i: usize = 1;
    while i < args.len()
        invariant
            1 <= i <= args@.len(),
            2 <= args@.len(),
            q@ == joined(views_of_strings(args@.subrange(1, i as int))),
        decreases args@.len() - i,
    {
        if i > 1 {
            q.append(" ");
        }
        q.append(args[i].as_str());
        proof {
            reveal_strlit(" ");
            let prev = views_of_strings(args@.subrange(1, i as int));
            let cur = views_of_strings(args@.subrange(1, i as int + 1));
            assert(cur.drop_last() =~= prev);
            assert(cur.last() == args@[i as int]@);
            if i == 1 {
                assert(joined(cur) == cur[0]);
            }
        }
        i += 1;
    }
    proof {
        assert(args@.subrange(1, i as int) =~= args@.subrange(1, args@.len() as int));
    }
    Some(q)
}

/// Build the full request URL for a query: the fixed endpoint with the
/// query plus-encoded into its parameter.
pub fn search_url(query: &str) -> (r: String)
    ensures
        r@ == search_url_of(query@),
{
    let cs = crate::text::chars_of(query);
    let mut enc: Vec<char> = Vec::new();
    let mut i: usize = 0;
    while i < cs.len()
        invariant
            0 <= i <= cs@.len(),
            enc@ == plus_encoded(cs@.take(i as int)),
        decreases cs@.len() - i,
    {
        let c = cs[i];
        proof {
            assert(cs@.take(i as int + 1).drop_last() =~= cs@.take(i as int));
            assert(cs@.take(i as int + 1).last() == cs@[i as int]);
        }
        if c == ' ' {
            enc.push('+');
        } else {
            enc.push(c);
        }
        i += 1;
    }
    proof {
        assert(cs@.take(cs@.len() as int) =~= cs@);
    }
    let encoded = crate::text::string_from_chars(&enc);
    let mut url = String::new();
    url.append("https://search.brave.com/search?q=");
    url.append(encoded.as_str());
    url
}

} // verus!
