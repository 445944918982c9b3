use vstd::prelude::*;

verus! {

/// An ASCII letter or digit.
pub open spec fn is_alnum(c: char) -> bool {
    ('a' <= c && c <= 'z') || ('A' <= c && c <= 'Z') || ('0' <= c && c <= '9')
}

/// Characters allowed in the local part of an email address: the HTML5
/// address rule's local class.
pub open spec fn is_local_char(c: char) -> bool {
    is_alnum(c) || c == '.' || c == '!' || c == '#' || c == '$' || c == '%' || c == '&' || c
        == '\'' || c == '*' || c == '+' || c == '/' || c == '=' || c == '?' || c == '^' || c == '_'
        || c == '`' || c == '{' || c == '|' || c == '}' || c == '~' || c == '-'
}

/// Characters allowed in the domain part of an email address.
pub open spec fn is_domain_char(c: char) -> bool {
    is_alnum(c) || c == '-' || c == '.'
}

/// Some position of `s` within the 64-character window starting at `i` holds
/// a dot.
pub open spec fn window_has_dot(s: Seq<char>, i: int) -> bool {
    exists|j: int| i <= j <= i + 63 && #[trigger] s[j] == '.'
}

/// `s` is an email address split at position `at`: a non-empty local part of
/// permitted characters, a single separator, and a non-empty domain of
/// dot-separated labels, each of which begins and ends with a letter or digit
/// (so no label is empty and none starts or ends with a hyphen) and none of
/// which is longer than 63 characters (every 64 consecutive domain
/// characters contain a dot).
pub open spec fn valid_email_split(s: Seq<char>, at: int) -> bool {
    &&& 1 <= at && at < s.len() - 1
    &&& s[at] == '@'
    &&& (forall|i: int| 0 <= i < at ==> is_local_char(s[i]))
    &&& (forall|i: int| at < i < s.len() ==> is_domain_char(s[i]))
    &&& (forall|i: int|
        at < i < s.len() && (i == at + 1 || s[i - 1] == '.') ==> is_alnum(#[trigger] s[i]))
    &&& (forall|i: int|
        at < i < s.len() && (i == s.len() - 1 || s[i + 1] == '.') ==> is_alnum(#[trigger] s[i]))
    &&& (forall|i: int| at < i && i + 63 < s.len() ==> #[trigger] window_has_dot(s, i))
}

/// A syntactically valid email address.
pub open spec fn valid_email(s: Seq<char>) -> bool {
    exists|at: int| valid_email_split(s, at)
}

/// A valid address has exactly one possible separator position: the first
/// character that is not a local-part character.
proof fn lemma_split_unique(s: Seq<char>, i: int)
    requires
        0 <= i < s.len(),
        s[i] == '@',
        forall|j: int| 0 <= j < i ==> is_local_char(s[j]),
    ensures
        forall|at: int| valid_email_split(s, at) ==> at == i,
{
    assert forall|at: int| valid_email_split(s, at) implies at == i by {
        if at < i {
            assert(is_local_char(s[at]));
            assert(s[at] == '@');
        }
        if at > i {
            assert(is_local_char(s[i]));
        }
    }
}

fn is_alnum_exec(c: char) -> (r: bool)
    ensures
        r == is_alnum(c),
{
    ('a' <= c && c <= 'z') || ('A' <= c && c <= 'Z') || ('0' <= c && c <= '9')
}

fn is_local_char_exec(c: char) -> (r: bool)
    ensures
        r == is_local_char(c),
{
    is_alnum_exec(c) || c == '.' || c == '!' || c == '#' || c == '$' || c == '%' || c == '&' || c
        == '\'' || c == '*' || c == '+' || c == '/' || c == '=' || c == '?' || c == '^' || c == '_'
        || c == '`' || c == '{' || c == '|' || c == '}' || c == '~' || c == '-'
}

fn is_domain_char_exec(c: char) -> (r: bool)
    ensures
        r == is_domain_char(c),
{
    is_alnum_exec(c) || c == '-' || c == '.'
}

/// Decide whether `s` is a syntactically valid email address.
#[verifier::rlimit(50)]
pub fn is_valid_email(s: &str) -> (r: bool)
    ensures
        r == valid_email(s@),
{
    let n = s.unicode_len();
    let mut i: usize = 0;
    while i < n && is_local_char_exec(s.get_char(i))
        invariant
            i <= n,
            n == s@.len(),
            forall|j: int| 0 <= j < i ==> is_local_char(s@[j]),
        decreases n - i,
    {
        i += 1;
    }
    if i == n || s.get_char(i) != '@' {
        proof {
            assert forall|at: int| !valid_email_split(s@, at) by {
                if 0 <= at < n {
                    if at < i {
                        assert(is_local_char(s@[at]));
                    } else if at == i {
                    } else {
                        if valid_email_split(s@, at) {
                            assert(is_local_char(s@[i as int]));
                            assert(i < n);
                        }
                    }
                }
            }
        }
        return false;
    }
    proof {
        lemma_split_unique(s@, i as int);
    }
    if i < 1 || i + 1 >= n {
        return false;
    }
    let mut j: usize = i + 1;
    let mut label_len: usize = 0;
    let ghost mut run_start: int = i as int + 1;
    while j < n
        invariant
            i + 1 <= j <= n,
            2 <= n,
            i < n,
            n == s@.len(),
            s@[i as int] == '@',
            forall|k: int| i < k < j ==> is_domain_char(s@[k]),
            forall|k: int|
                i < k < j && (k == i + 1 || s@[k - 1] == '.') ==> is_alnum(#[trigger] s@[k]),
            forall|k: int|
                i < k < j && (k == n - 1 || s@[k + 1] == '.') ==> is_alnum(#[trigger] s@[k]),
            i < run_start <= j,
            run_start > i + 1 ==> s@[run_start - 1] == '.',
            forall|m: int| run_start <= m < j ==> s@[m] != '.',
            label_len == j - run_start,
            label_len <= 63,
            forall|w: int| i < w && w + 63 < j ==> #[trigger] window_has_dot(s@, w),
        decreases n - j,
    {
        let c = s.get_char(j);
        if !is_domain_char_exec(c) {
            return false;
        }
        let label_starts = j == i + 1 || s.get_char(j - 1) == '.';
        let label_ends = j == n - 1 || s.get_char(j + 1) == '.';
        if (label_starts || label_ends) && !is_alnum_exec(c) {
            return false;
        }
        if c == '.' {
            label_len = 0;
            proof {
                run_start = j as int + 1;
            }
        } else {
            if label_len >= 63 {
                // a 64th consecutive label character: no split can satisfy
                // the window condition
                proof {
                    if valid_email(s@) {
                        let at = choose|at: int| valid_email_split(s@, at);
                        assert(at == i as int);
                        let w0 = j as int - 63;
                        assert(window_has_dot(s@, w0));
                        let m = choose|m: int| w0 <= m <= w0 + 63 && #[trigger] s@[m] == '.';
                        assert(run_start <= m <= j as int);
                        assert(false);
                    }
                }
                return false;
            }
            label_len += 1;
        }
        proof {
            assert forall|w: int| i < w && w + 63 < j + 1 implies #[trigger] window_has_dot(
                s@,
                w,
            ) by {
                if w + 63 == j {
                    if s@[j as int] == '.' {
                        assert(w <= j <= w + 63 && s@[j as int] == '.');
                    } else {
                        assert(run_start > w);
                        assert(s@[run_start - 1] == '.');
                        assert(w <= run_start - 1 <= w + 63);
                    }
                }
            }
        }
        j += 1;
    }
    proof {
        assert(valid_email_split(s@, i as int));
    }
    true
}

} // verus!
