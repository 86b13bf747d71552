use vstd::prelude::*;
use crate::error::Error;
use crate::verdict::SignalResult;

verus! {

/// Index of the last `.` among the first `end` characters of `h`, or -1.
pub open spec fn last_dot_before(h: Seq<char>, end: int) -> int
    decreases end,
{
    if end <= 0 {
        -1
    } else if h[end - 1] == '.' {
        end - 1
    } else {
        last_dot_before(h, end - 1)
    }
}

/// The apex of a host: its last two dot-separated labels, taken literally (a
/// multi-part public suffix such as `co.uk` is not recognised). A host without
/// a dot has no apex.
pub open spec fn apex_of(h: Seq<char>) -> Option<Seq<char>> {
    let last = last_dot_before(h, h.len() as int);
    if last < 0 {
        None
    } else {
        Some(h.subrange(last_dot_before(h, last) + 1, h.len() as int))
    }
}

proof fn lemma_last_dot_range(h: Seq<char>, end: int)
    requires
        end <= h.len(),
    ensures
        -1 <= last_dot_before(h, end) < end || (end <= 0 && last_dot_before(h, end) == -1),
        last_dot_before(h, end) >= 0 ==> h[last_dot_before(h, end)] == '.',
    decreases end,
{
    if end > 0 && h[end - 1] != '.' {
        lemma_last_dot_range(h, end - 1);
    }
}

/// The labels of a host: the text split at every `.`, empty labels included,
/// as `str::split('.')` gives them.
pub open spec fn labels(h: Seq<char>) -> Seq<Seq<char>>
    decreases h.len(),
{
    let d = last_dot_before(h, h.len() as int);
    if d < 0 || d >= h.len() {
        seq![h]
    } else {
        labels(h.subrange(0, d)).push(h.subrange(d + 1, h.len() as int))
    }
}

proof fn lemma_last_dot_prefix(h: Seq<char>, d: int, e: int)
    requires
        0 <= e <= d <= h.len(),
    ensures
        last_dot_before(h.subrange(0, d), e) == last_dot_before(h, e),
    decreases e,
{
    if e > 0 {
        lemma_last_dot_prefix(h, d, e - 1);
    }
}

proof fn lemma_last_label(h: Seq<char>)
    ensures
        labels(h).len() >= 1,
        labels(h).last() == h.subrange(last_dot_before(h, h.len() as int) + 1, h.len() as int),
    decreases h.len(),
{
    lemma_last_dot_range(h, h.len() as int);
    let d = last_dot_before(h, h.len() as int);
    if d < 0 {
        assert(h.subrange(0, h.len() as int) =~= h);
    } else {
        lemma_last_label(h.subrange(0, d));
    }
}

/// The apex is the host's last two labels joined by a dot, and it exists exactly
/// when the host has at least two labels.
pub proof fn lemma_apex_is_last_two_labels(h: Seq<char>)
    ensures
        apex_of(h) is Some <==> labels(h).len() >= 2,
        labels(h).len() >= 2 ==> apex_of(h)->0 == labels(h)[labels(h).len() - 2] + seq!['.']
            + labels(h)[labels(h).len() - 1],
{
    lemma_last_dot_range(h, h.len() as int);
    let d = last_dot_before(h, h.len() as int);
    if d >= 0 {
        let p = h.subrange(0, d);
        lemma_last_label(p);
        lemma_last_dot_range(h, d);
        lemma_last_dot_prefix(h, d, d);
        let d2 = last_dot_before(h, d);
        assert(p.len() == d);
        assert(labels(h) == labels(p).push(h.subrange(d + 1, h.len() as int)));
        assert(labels(h)[labels(h).len() - 2] == labels(p).last());
        assert(labels(p).last() =~= h.subrange(d2 + 1, d));
        assert(h.subrange(d2 + 1, h.len() as int) =~= h.subrange(d2 + 1, d) + seq!['.']
            + h.subrange(d + 1, h.len() as int));
    }
}

/// Index of the last `.` before position `end` of `host`, if any.
fn find_last_dot(host: &str, end: usize) -> (r: Option<usize>)
    requires
        end <= host@.len(),
    ensures
        match r {
            Some(i) => i == last_dot_before(host@, end as int),
            None => last_dot_before(host@, end as int) == -1,
        },
{
    let mut k: usize = end;
    while k > 0
        invariant
            k <= end <= host@.len(),
            last_dot_before(host@, end as int) == last_dot_before(host@, k as int),
        decreases k,
    {
        if host.get_char(k - 1) == '.' {
            return Some(k - 1);
        }
        k = k - 1;
    }
    None
}

/// Derives the apex domain of `host` from its last two labels.
pub fn apex_domain(host: &str) -> (r: Result<String, Error>)
    ensures
        match apex_of(host@) {
            Some(a) => r is Ok && r->Ok_0@ == a,
            None => r matches Err(Error::MalformedHost(_)),
        },
{
    let n = host.unicode_len();
    proof {
        lemma_last_dot_range(host@, n as int);
    }
    match find_last_dot(host, n) {
        None => Err(Error::MalformedHost(String::from_str("host has fewer than two labels"))),
        Some(last) => {
            proof {
                lemma_last_dot_range(host@, last as int);
            }
            let start: usize = match find_last_dot(host, last) {
                Some(d) => d + 1,
                None => 0,
            };
            Ok(String::from_str(host.substring_char(start, n)))
        },
    }
}

/// The main page of an apex domain.
pub fn main_page_url(apex: &str) -> (r: String)
    ensures
        r@ == "https://"@ + apex@ + "/"@,
{
    let mut url = String::from_str("https://");
    url.append(apex);
    url.append("/");
    url
}

/// Whether an HTTP status is a success (2xx).
pub fn is_success_status(status: u16) -> (r: bool)
    ensures
        r == (200 <= status && status < 300),
{
    200 <= status && status < 300
}

/// Whether the apex answered its main page: a response with a 2xx status. No
/// response at all (DNS, connection or TLS failure) counts as not reachable.
pub fn reachable_from_status(status: Option<u16>) -> (r: bool)
    ensures
        r == (status matches Some(s) && 200 <= s && s < 300),
{
    match status {
        Some(s) => is_success_status(s),
        None => false,
    }
}

/// The main-page signal: detected when the apex is not reachable.
pub open spec fn main_page_signal_of(reachable: Result<bool, Error>) -> SignalResult {
    match reachable {
        Ok(true) => SignalResult::NotDetected,
        Ok(false) => SignalResult::Detected,
        Err(e) => SignalResult::Indeterminate(e.category_spec()),
    }
}

pub fn main_page_signal(reachable: &Result<bool, Error>) -> (r: SignalResult)
    ensures
        r == main_page_signal_of(*reachable),
{
    match reachable {
        Ok(true) => SignalResult::NotDetected,
        Ok(false) => SignalResult::Detected,
        Err(e) => SignalResult::Indeterminate(e.category()),
    }
}

} // verus!
