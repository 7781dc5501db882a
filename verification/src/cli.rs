//! The run's configuration and the preparation of the URL list:
//! every URL is trimmed of surrounding white space, empty lines are
//! dropped, and on request a missing protocol scheme is supplied.

use vstd::prelude::*;

verus! {

/// The options a run is configured by.
pub struct Cli {
    /// URLs given directly, if any.
    pub urls: Option<Vec<String>>,
    /// A file to read the URL list from, if any.
    pub file: Option<String>,
    /// Case insensitive search.
    pub case_insensitive: bool,
    /// Supply a scheme to URLs that name none.
    pub fix_urls: bool,
    /// Retry URLs whose earlier fetch failed.
    pub retry: bool,
    /// Save the three buckets to files instead of printing.
    pub save: bool,
    /// The pattern to match site content against.
    pub regex: String,
}

/// Unicode white space, as the standard library's character test
/// decides it.
pub uninterp spec fn white_space(c: char) -> bool;

/// Relies on `char::is_whitespace`: whether a character has the
/// Unicode White_Space property, a function of the character alone.
pub assume_specification[ char::is_whitespace ](c: char) -> (r: bool)
    ensures
        r == white_space(c),
;

/// The sequence without its leading white space.
pub open spec fn drop_leading(s: Seq<char>) -> Seq<char>
    decreases s.len(),
{
    if s.len() > 0 && white_space(s.first()) {
        drop_leading(s.drop_first())
    } else {
        s
    }
}

/// The sequence without its trailing white space.
pub open spec fn drop_trailing(s: Seq<char>) -> Seq<char>
    decreases s.len(),
{
    if s.len() > 0 && white_space(s.last()) {
        drop_trailing(s.drop_last())
    } else {
        s
    }
}

/// The sequence trimmed of surrounding white space.
pub open spec fn trim_spec(s: Seq<char>) -> Seq<char> {
    drop_trailing(drop_leading(s))
}

proof fn lemma_drop_leading(s: Seq<char>, k: int)
    requires
        0 <= k <= s.len(),
        forall|j: int| 0 <= j < k ==> white_space(s[j]),
        k == s.len() || !white_space(s[k]),
    ensures
        drop_leading(s) == s.subrange(k, s.len() as int),
    decreases k,
{
    if k == 0 {
        assert(s.subrange(0, s.len() as int) =~= s);
    } else {
        assert(white_space(s.first()));
        let rest = s.drop_first();
        assert(forall|j: int| 0 <= j < k - 1 ==> #[trigger] white_space(rest[j]));
        lemma_drop_leading(rest, k - 1);
        assert(rest.subrange(k - 1, rest.len() as int) =~= s.subrange(k, s.len() as int));
    }
}

proof fn lemma_drop_trailing(s: Seq<char>, k: int)
    requires
        0 <= k <= s.len(),
        forall|j: int| k <= j < s.len() ==> white_space(s[j]),
        k == 0 || !white_space(s[k - 1]),
    ensures
        drop_trailing(s) == s.subrange(0, k),
    decreases s.len() - k,
{
    if k == s.len() {
        assert(s.subrange(0, k) =~= s);
    } else {
        assert(white_space(s.last()));
        let rest = s.drop_last();
        lemma_drop_trailing(rest, k);
        assert(rest.subrange(0, k) =~= s.subrange(0, k));
    }
}

/// Trims surrounding white space from a string.
pub fn trim_str(s: &str) -> (r: &str)
    ensures
        r@ == trim_spec(s@),
{
    let n = s.unicode_len();
    let mut start: usize = 0;
    while start < n && s.get_char(start).is_whitespace()
        invariant
            start <= n,
            n == s@.len(),
            forall|j: int| 0 <= j < start ==> white_space(s@[j]),
        decreases n - start,
    {
        start = start + 1;
    }
    let mut end: usize = n;
    while end > start && s.get_char(end - 1).is_whitespace()
        invariant
            start <= end <= n,
            n == s@.len(),
            forall|j: int| end <= j < n ==> white_space(s@[j]),
        decreases end,
    {
        end = end - 1;
    }
    proof {
        lemma_drop_leading(s@, start as int);
        let sub = s@.subrange(start as int, n as int);
        assert(forall|j: int|
            end - start <= j < sub.len() ==> #[trigger] white_space(sub[j]));
        lemma_drop_trailing(sub, end - start);
        assert(sub.subrange(0, end - start) =~= s@.subrange(start as int, end as int));
    }
    s.substring_char(start, end)
}

/// Whether a URL already names its protocol scheme.
pub open spec fn has_scheme(u: Seq<char>) -> bool {
    "http://"@.is_prefix_of(u) || "https://"@.is_prefix_of(u)
}

/// Decides whether a URL already names its protocol scheme.
pub fn starts_with_scheme(url: &str) -> (r: bool)
    ensures
        r == has_scheme(url@),
{
    proof {
        reveal_strlit("http://");
        reveal_strlit("https://");
    }
    let n = url.unicode_len();
    if n < 7 {
        return false;
    }
    let c0 = url.get_char(0);
    let c1 = url.get_char(1);
    let c2 = url.get_char(2);
    let c3 = url.get_char(3);
    let c4 = url.get_char(4);
    let c5 = url.get_char(5);
    let c6 = url.get_char(6);
    if c0 == 'h' && c1 == 't' && c2 == 't' && c3 == 'p' && c4 == ':' && c5 == '/' && c6 == '/' {
        proof {
            assert("http://"@ =~= url@.subrange(0, 7));
        }
        return true;
    }
    if n >= 8 && c0 == 'h' && c1 == 't' && c2 == 't' && c3 == 'p' && c4 == 's' && c5 == ':' && c6
        == '/' {
        let c7 = url.get_char(7);
        if c7 == '/' {
            proof {
                assert("https://"@ =~= url@.subrange(0, 8));
            }
            return true;
        }
    }
    proof {
        assert(!("http://"@.is_prefix_of(url@))) by {
            if "http://"@.is_prefix_of(url@) {
                assert(url@[0] == "http://"@[0]);
                assert(url@[1] == "http://"@[1]);
                assert(url@[2] == "http://"@[2]);
                assert(url@[3] == "http://"@[3]);
                assert(url@[4] == "http://"@[4]);
                assert(url@[5] == "http://"@[5]);
                assert(url@[6] == "http://"@[6]);
            }
        }
        assert(!("https://"@.is_prefix_of(url@))) by {
            if "https://"@.is_prefix_of(url@) {
                assert(url@[0] == "https://"@[0]);
                assert(url@[1] == "https://"@[1]);
                assert(url@[2] == "https://"@[2]);
                assert(url@[3] == "https://"@[3]);
                assert(url@[4] == "https://"@[4]);
                assert(url@[5] == "https://"@[5]);
                assert(url@[6] == "https://"@[6]);
                assert(url@[7] == "https://"@[7]);
            }
        }
    }
    false
}

/// A URL as the run will use it: unchanged when it already names a
/// scheme, otherwise behind a default one.
pub open spec fn fixed_of(u: Seq<char>) -> Seq<char> {
    if has_scheme(u) {
        u
    } else {
        "http://"@ + u
    }
}

/// Supplies a default scheme to a URL that names none.
pub fn format_url(url: &str) -> (r: String)
    ensures
        r@ == fixed_of(url@),
{
    if starts_with_scheme(url) {
        url.to_owned()
    } else {
        let prefix: String = String::from_str("http://");
        prefix.concat(url)
    }
}

/// The character sequences a list of strings holds.
pub open spec fn views_of(v: Seq<String>) -> Seq<Seq<char>> {
    Seq::new(v.len(), |i: int| v[i]@)
}

/// The URL list a run works on: each line trimmed, empty lines
/// dropped, and, when asked, a missing scheme supplied.
pub open spec fn cleaned_of(raw: Seq<Seq<char>>, fix: bool) -> Seq<Seq<char>>
    decreases raw.len(),
{
    if raw.len() == 0 {
        Seq::empty()
    } else {
        let rest = cleaned_of(raw.drop_last(), fix);
        let t = trim_spec(raw.last());
        if t.len() == 0 {
            rest
        } else {
            rest.push(if fix { fixed_of(t) } else { t })
        }
    }
}

/// Prepares the raw URL list for a run: trims every line, drops the
/// empty ones and, when the options ask for it, supplies a default
/// scheme. Duplicates are kept: each occurrence is processed and
/// reported independently.
pub fn parse(args: &Cli, raw_urls: &Vec<String>) -> (urls: Vec<String>)
    ensures
        views_of(urls@) == cleaned_of(views_of(raw_urls@), args.fix_urls),
{
    let ghost rv: Seq<Seq<char>> = views_of(raw_urls@);
    let mut out: Vec<String> = Vec::new();
    let mut i: usize = 0;
    while i < raw_urls.len()
        invariant
            i <= raw_urls.len(),
            rv == views_of(raw_urls@),
            views_of(out@) == cleaned_of(rv.take(i as int), args.fix_urls),
        decreases raw_urls.len() - i,
    {
        proof {
            assert(rv.take(i + 1).drop_last() =~= rv.take(i as int));
            assert(rv.take(i + 1).last() == raw_urls@[i as int]@);
        }
        let t = trim_str(raw_urls[i].as_str());
        if !t.is_empty() {
            let ghost before: Seq<String> = out@;
            let u: String = if args.fix_urls {
                format_url(t)
            } else {
                t.to_owned()
            };
            out.push(u);
            proof {
                assert(views_of(out@) =~= views_of(before).push(out@.last()@));
            }
        }
        i = i + 1;
    }
    proof {
        assert(rv.take(raw_urls@.len() as int) =~= rv);
    }
    out
}

} // verus!
