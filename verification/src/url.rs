//! Connection-string parsing: `oci://user/password@//host[:port]/service`.
//!
//! The string is cut at the double-slash delimiters into exactly three
//! segments; the middle segment carries user and password (the password's
//! final delimiter character is trimmed), and the third segment is the
//! host/service text, passed through unmodified. Any other shape is rejected
//! with an invalid-URL error, never a panic.
use vstd::prelude::*;
use vstd::string::*;

use crate::error::OciError;

verus! {

/// The six characters every accepted connection string must start with.
pub open spec fn scheme_prefix() -> Seq<char> {
    seq!['o', 'c', 'i', ':', '/', '/']
}

/// True when `s` starts with the required scheme prefix.
pub open spec fn has_scheme_prefix(s: Seq<char>) -> bool {
    s.len() >= 6 && s.subrange(0, 6) == scheme_prefix()
}

/// Char index of the leftmost `//` at or after `from`, if any.
pub open spec fn find_dslash_from(s: Seq<char>, from: int) -> Option<int>
    decreases s.len() - from when 0 <= from
{
    if from + 2 > s.len() {
        None
    } else if s[from] == '/' && s[from + 1] == '/' {
        Some(from)
    } else {
        find_dslash_from(s, from + 1)
    }
}

/// Char index of the leftmost `c` at or after `from`, if any.
pub open spec fn find_char_from(s: Seq<char>, c: char, from: int) -> Option<int>
    decreases s.len() - from when 0 <= from
{
    if from >= s.len() {
        None
    } else if s[from] == c {
        Some(from)
    } else {
        find_char_from(s, c, from + 1)
    }
}

/// What parsing a connection string yields: `Some((user, password, host))`
/// for a well-formed string, `None` where it must be rejected.
pub open spec fn parse_spec(s: Seq<char>) -> Option<(Seq<char>, Seq<char>, Seq<char>)> {
    if !has_scheme_prefix(s) {
        None
    } else {
        match find_dslash_from(s, 6) {
            None => None,
            Some(j) => if find_dslash_from(s, j + 2) is Some {
                // more than three double-slash segments
                None
            } else {
                let middle = s.subrange(6, j);
                let host = s.subrange(j + 2, s.len() as int);
                match find_char_from(middle, '/', 0) {
                    None => None,  // middle segment lacks the user/password split
                    Some(k) => {
                        let pw_end = match find_char_from(middle, '/', k + 1) {
                            Some(m) => m,
                            None => middle.len() as int,
                        };
                        let user = middle.subrange(0, k);
                        let raw = middle.subrange(k + 1, pw_end);
                        let password = if raw.len() > 0 {
                            raw.drop_last()
                        } else {
                            raw
                        };
                        Some((user, password, host))
                    },
                }
            },
        }
    }
}

/// The message carried by the invalid-URL error.
pub open spec fn invalid_url_message(url: Seq<char>) -> Seq<char> {
    "Could not use "@ + url + " with oci backend"@
}

/// A string without the scheme prefix never parses.
pub proof fn lemma_no_scheme_no_parse(s: Seq<char>)
    requires
        !has_scheme_prefix(s),
    ensures
        parse_spec(s) is None,
{
}

proof fn lemma_find_dslash_bounds(s: Seq<char>, from: int, j: int)
    requires
        0 <= from,
        find_dslash_from(s, from) == Some(j),
    ensures
        from <= j,
        j + 2 <= s.len(),
        s[j] == '/' && s[j + 1] == '/',
    decreases s.len() - from,
{
    if from + 2 > s.len() {
    } else if s[from] == '/' && s[from + 1] == '/' {
    } else {
        lemma_find_dslash_bounds(s, from + 1, j);
    }
}

proof fn lemma_find_char_bounds(s: Seq<char>, c: char, from: int, k: int)
    requires
        0 <= from,
        find_char_from(s, c, from) == Some(k),
    ensures
        from <= k < s.len(),
        s[k] == c,
    decreases s.len() - from,
{
    if from >= s.len() {
    } else if s[from] == c {
    } else {
        lemma_find_char_bounds(s, c, from + 1, k);
    }
}

/// Leftmost `//` at or after `from`, by a linear scan.
fn find_dslash(s: &str, from: usize) -> (r: Option<usize>)
    requires
        from <= s@.len(),
    ensures
        match r {
            Some(i) => from <= i && find_dslash_from(s@, from as int) == Some(i as int),
            None => find_dslash_from(s@, from as int) is None,
        },
{
    let n = s.unicode_len();
    let mut i = from;
    loop
        invariant
            from <= i <= n,
            n == s@.len(),
            find_dslash_from(s@, from as int) == find_dslash_from(s@, i as int),
        decreases n - i,
    {
        if n - i < 2 {
            assert(find_dslash_from(s@, i as int) is None);
            return None;
        }
        let c0 = s.get_char(i);
        let c1 = s.get_char(i + 1);
        if c0 == '/' && c1 == '/' {
            assert(find_dslash_from(s@, i as int) == Some(i as int));
            return Some(i);
        }
        assert(find_dslash_from(s@, i as int) == find_dslash_from(s@, i + 1 as int));
        i = i + 1;
    }
}

/// Leftmost `c` at or after `from`, by a linear scan.
fn find_char(s: &str, c: char, from: usize) -> (r: Option<usize>)
    requires
        from <= s@.len(),
    ensures
        match r {
            Some(i) => from <= i && find_char_from(s@, c, from as int) == Some(i as int),
            None => find_char_from(s@, c, from as int) is None,
        },
{
    let n = s.unicode_len();
    let mut i = from;
    loop
        invariant
            from <= i <= n,
            n == s@.len(),
            find_char_from(s@, c, from as int) == find_char_from(s@, c, i as int),
        decreases n - i,
    {
        if i >= n {
            assert(find_char_from(s@, c, i as int) is None);
            return None;
        }
        if s.get_char(i) == c {
            assert(find_char_from(s@, c, i as int) == Some(i as int));
            return Some(i);
        }
        assert(find_char_from(s@, c, i as int) == find_char_from(s@, c, i + 1 as int));
        i = i + 1;
    }
}

/// True exactly when the string starts with the scheme prefix.
fn has_scheme(s: &str) -> (r: bool)
    ensures
        r == has_scheme_prefix(s@),
{
    let n = s.unicode_len();
    if n < 6 {
        return false;
    }
    let r = s.get_char(0) == 'o' && s.get_char(1) == 'c' && s.get_char(2) == 'i' && s.get_char(3)
        == ':' && s.get_char(4) == '/' && s.get_char(5) == '/';
    proof {
        let pre = s@.subrange(0, 6);
        assert(pre[0] == s@[0] && pre[1] == s@[1] && pre[2] == s@[2] && pre[3] == s@[3] && pre[4]
            == s@[4] && pre[5] == s@[5]);
        if r {
            assert(pre =~= scheme_prefix());
        } else {
            assert(pre != scheme_prefix());
        }
    }
    r
}

/// The invalid-URL error, naming the rejected string.
fn invalid_url_error(url: &str) -> (e: OciError)
    ensures
        (e matches OciError::InvalidConnectionUrl(m) && m@ == invalid_url_message(url@)),
{
    OciError::InvalidConnectionUrl(
        String::from_str("Could not use ").concat(url).concat(" with oci backend"),
    )
}

/// Splits a connection string into `(user, password, host/service)`.
///
/// Succeeds exactly on the strings `parse_spec` accepts; every malformed
/// string — wrong scheme, wrong double-slash segment count, or a middle
/// segment without a user/password delimiter — is rejected with an
/// invalid-URL error rather than a crash.
pub fn parse_db_string(database_url: &str) -> (r: Result<(String, String, String), OciError>)
    ensures
        match r {
            Ok(parts) => parse_spec(database_url@) == Some((parts.0@, parts.1@, parts.2@)),
            Err(e) => parse_spec(database_url@) is None && (e matches OciError::InvalidConnectionUrl(
                m,
            ) && m@ == invalid_url_message(database_url@)),
        },
{
    if !has_scheme(database_url) {
        return Err(invalid_url_error(database_url));
    }
    let n = database_url.unicode_len();
    let j = match find_dslash(database_url, 6) {
        Some(j) => j,
        None => {
            return Err(invalid_url_error(database_url));
        },
    };
    proof {
        lemma_find_dslash_bounds(database_url@, 6, j as int);
    }
    if find_dslash(database_url, j + 2).is_some() {
        return Err(invalid_url_error(database_url));
    }
    let middle = database_url.substring_char(6, j);
    let host = database_url.substring_char(j + 2, n).to_owned();
    let k = match find_char(middle, '/', 0) {
        Some(k) => k,
        None => {
            return Err(invalid_url_error(database_url));
        },
    };
    proof {
        lemma_find_char_bounds(middle@, '/', 0, k as int);
    }
    let mlen = middle.unicode_len();
    let pw_end = match find_char(middle, '/', k + 1) {
        Some(m) => {
            proof {
                lemma_find_char_bounds(middle@, '/', (k + 1) as int, m as int);
            }
            m
        },
        None => mlen,
    };
    let user = middle.substring_char(0, k).to_owned();
    let password = if pw_end > k + 1 {
        let p = middle.substring_char(k + 1, pw_end - 1).to_owned();
        proof {
            let raw = middle@.subrange(k + 1 as int, pw_end as int);
            assert(p@ =~= raw.drop_last());
        }
        p
    } else {
        // the raw password is empty; there is no delimiter to trim
        middle.substring_char(k + 1, pw_end).to_owned()
    };
    Ok((user, password, host))
}

} // verus!
