use vstd::prelude::*;

verus! {

pub open spec fn is_ascii_letter(c: char) -> bool {
    ('a' <= c && c <= 'z') || ('A' <= c && c <= 'Z')
}

/// Characters allowed in the host part of a lure URL: ASCII letters, digits, `.` and `-`.
pub open spec fn is_host_char(c: char) -> bool {
    is_ascii_letter(c) || ('0' <= c && c <= '9') || c == '.' || c == '-'
}

/// From index `i`, `u` reads a scheme of `s` characters (`http` or `https`),
/// then `://`, one or more host characters, `/`, and eight ASCII letters that
/// end the text.
pub open spec fn lure_from(u: Seq<char>, i: int, s: int) -> bool {
    let n = u.len() as int;
    let h = i + s + 3;
    &&& s == 4 || s == 5
    &&& 0 <= i
    &&& h < n - 9
    &&& u[i] == 'h' && u[i + 1] == 't' && u[i + 2] == 't' && u[i + 3] == 'p'
    &&& s == 5 ==> u[i + 4] == 's'
    &&& u[i + s] == ':' && u[i + s + 1] == '/' && u[i + s + 2] == '/'
    &&& forall|k: int| h <= k < n - 9 ==> is_host_char(#[trigger] u[k])
    &&& u[n - 9] == '/'
    &&& forall|k: int| n - 8 <= k < n ==> is_ascii_letter(#[trigger] u[k])
}

/// The lure shape of a well-known reverse-proxy phishing kit: the whole text is
/// an `http` or `https` URL whose only path segment is eight ASCII letters, with
/// nothing after them.
pub open spec fn is_lure_url(u: Seq<char>) -> bool {
    exists|s: int| #[trigger] lure_from(u, 0, s)
}

fn letter(c: char) -> (r: bool)
    ensures
        r == is_ascii_letter(c),
{
    ('a' <= c && c <= 'z') || ('A' <= c && c <= 'Z')
}

fn host_char(c: char) -> (r: bool)
    ensures
        r == is_host_char(c),
{
    letter(c) || ('0' <= c && c <= '9') || c == '.' || c == '-'
}

/// Whether `url` has the lure shape: an `http(s)://host/` prefix followed by a
/// final path segment of exactly eight ASCII letters.
pub fn matches(url: &str) -> (r: bool)
    ensures
        r == is_lure_url(url@),
{
    let n = url.unicode_len();
    let ghost u = url@;
    if n < 17 {
        assert forall|i: int, s: int| !lure_from(u, i, s) by {}
        return false;
    }
    let mut k: usize = n - 8;
    while k < n
        invariant
            n == u.len(),
            u == url@,
            n >= 17,
            n - 8 <= k <= n,
            forall|q: int| n - 8 <= q < k ==> is_ascii_letter(#[trigger] u[q]),
        decreases n - k,
    {
        if !letter(url.get_char(k)) {
            assert forall|i: int, s: int| !lure_from(u, i, s) by {
                if lure_from(u, i, s) {
                    assert(is_ascii_letter(u[k as int]));
                }
            }
            return false;
        }
        k = k + 1;
    }
    if url.get_char(n - 9) != '/' {
        return false;
    }
    // Walk back over the host characters that precede the final `/`.
    let mut j: usize = n - 9;
    while j > 0 && host_char(url.get_char(j - 1))
        invariant
            n == u.len(),
            u == url@,
            n >= 17,
            j <= n - 9,
            forall|q: int| j <= q < n - 9 ==> is_host_char(#[trigger] u[q]),
        decreases j,
    {
        j = j - 1;
    }
    assert(j == 0 || !is_host_char(u[j - 1]));
    // Any lure reading starts its host part exactly at `j`.
    assert forall|i: int, s: int| lure_from(u, i, s) implies i + s + 3 == j by {
        let h = i + s + 3;
        if h < j {
            assert(is_host_char(u[j - 1]));
        } else if h > j {
            assert(is_host_char(u[h - 1]));
        }
    }
    if j == n - 9 || j < 7 || j > 8 {
        assert forall|s: int| !lure_from(u, 0, s) by {}
        return false;
    }
    if url.get_char(j - 3) != ':' || url.get_char(j - 2) != '/' || url.get_char(j - 1) != '/' {
        assert forall|s: int| !lure_from(u, 0, s) by {}
        return false;
    }
    if j == 7 && url.get_char(0) == 'h' && url.get_char(1) == 't' && url.get_char(2) == 't'
        && url.get_char(3) == 'p' {
        assert(lure_from(u, 0, 4));
        return true;
    }
    if j == 8 && url.get_char(0) == 'h' && url.get_char(1) == 't' && url.get_char(2) == 't'
        && url.get_char(3) == 'p' && url.get_char(4) == 's' {
        assert(lure_from(u, 0, 5));
        return true;
    }
    assert forall|s: int| !lure_from(u, 0, s) by {}
    false
}

} // verus!
