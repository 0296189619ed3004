//! Text scanning for the site's markup: locating the check-in token and the
//! balance figure inside a response body, with exact statements of what is
//! found and where.

use vstd::prelude::*;
use vstd::string::*;

verus! {

/// `pat` occurs in `s` starting at index `i` (indices count characters).
pub open spec fn occurs_at(s: Seq<char>, pat: Seq<char>, i: int) -> bool {
    &&& 0 <= i
    &&& i + pat.len() <= s.len()
    &&& forall|k: int| 0 <= k < pat.len() ==> s[i + k] == pat[k]
}

/// The characters of `s`, one vector entry per `char`.
fn chars_of(s: &str) -> (r: Vec<char>)
    ensures
        r@ == s@,
{
    let n = s.unicode_len();
    let mut r: Vec<char> = Vec::new();
    let mut i: usize = 0;
    while i < n
        invariant
            n == s@.len(),
            i <= n,
            r@ == s@.subrange(0, i as int),
        decreases n - i,
    {
        r.push(s.get_char(i));
        proof {
            assert(s@.subrange(0, i + 1 as int) =~= s@.subrange(0, i as int).push(s@[i as int]));
        }
        i = i + 1;
    }
    proof {
        assert(r@ =~= s@);
    }
    r
}

/// Whether `pat` stands in `hay` at exactly position `i`.
fn matches_at(hay: &Vec<char>, pat: &Vec<char>, i: usize) -> (r: bool)
    requires
        i + pat@.len() <= hay@.len(),
    ensures
        r == occurs_at(hay@, pat@, i as int),
{
    let n = hay.len();
    let m = pat.len();
    let mut k: usize = 0;
    while k < m
        invariant
            n == hay@.len(),
            m == pat@.len(),
            i + m <= n,
            k <= m,
            forall|t: int| 0 <= t < k ==> hay@[i + t] == pat@[t],
        decreases m - k,
    {
        if hay[i + k] != pat[k] {
            proof {
                assert(hay@[i + k as int] != pat@[k as int]);
            }
            return false;
        }
        k = k + 1;
    }
    true
}

/// The first position at or after `from` where `pat` occurs in `hay`.
fn find_from(hay: &Vec<char>, pat: &Vec<char>, from: usize) -> (r: Option<usize>)
    ensures
        r matches Some(i) ==> {
            &&& from <= i
            &&& occurs_at(hay@, pat@, i as int)
            &&& forall|i2: int| from <= i2 < i ==> !occurs_at(hay@, pat@, i2)
        },
        r is None ==> forall|i2: int| from <= i2 ==> !occurs_at(hay@, pat@, i2),
{
    let n = hay.len();
    let m = pat.len();
    if m > n {
        return None;
    }
    if from > n - m {
        return None;
    }
    let mut i: usize = from;
    while i <= n - m
        invariant
            n == hay@.len(),
            m == pat@.len(),
            m <= n,
            from <= i,
            i <= n - m + 1,
            forall|i2: int| from <= i2 < i ==> !occurs_at(hay@, pat@, i2),
        decreases n - m - i + 1,
    {
        if matches_at(hay, pat, i) {
            return Some(i);
        }
        i = i + 1;
    }
    None
}

/// The literal that opens the check-in token attribute in the member page.
pub open spec fn nonce_open() -> Seq<char> {
    "data-nonce=\""@
}

/// A full token match: the opening literal at `i`, the closing quote at `j`,
/// and between them the captured token, which holds no quote and no newline.
pub open spec fn nonce_match(s: Seq<char>, i: int, j: int) -> bool {
    &&& occurs_at(s, nonce_open(), i)
    &&& i + nonce_open().len() <= j < s.len()
    &&& s[j] == '"'
    &&& forall|k: int| i + nonce_open().len() <= k < j ==> s[k] != '"' && s[k] != '\n'
}

/// Whether `s` holds a check-in token anywhere.
pub open spec fn has_nonce(s: Seq<char>) -> bool {
    exists|i: int, j: int| nonce_match(s, i, j)
}

/// `t` is the token of `s`: what the earliest token match captures.
pub open spec fn nonce_capture(s: Seq<char>, t: Seq<char>) -> bool {
    exists|i: int, j: int| {
        &&& nonce_match(s, i, j)
        &&& t == s.subrange(i + nonce_open().len(), j)
        &&& (forall|i2: int, j2: int| nonce_match(s, i2, j2) ==> i <= i2)
    }
}

/// Searches `body` for its check-in token: the earliest occurrence of
/// `data-nonce="` that a quote closes on the same line; the token is what
/// stands between the quotes (possibly empty).
pub fn extract_nonce(body: &str) -> (r: Option<String>)
    ensures
        r is Some <==> has_nonce(body@),
        r matches Some(t) ==> nonce_capture(body@, t@),
{
    let hay = chars_of(body);
    let pat = chars_of("data-nonce=\"");
    proof {
        reveal_strlit("data-nonce=\"");
        assert(pat@.len() == 12);
    }
    let n = hay.len();
    let mut from: usize = 0;
    while from <= n
        invariant
            hay@ == body@,
            pat@ == nonce_open(),
            pat@.len() == 12,
            n == hay@.len(),
            forall|i2: int, j2: int| i2 < from ==> !nonce_match(body@, i2, j2),
        decreases n + 1 - from,
    {
        match find_from(&hay, &pat, from) {
            None => {
                proof {
                    assert forall|i2: int, j2: int| !nonce_match(body@, i2, j2) by {
                        if nonce_match(body@, i2, j2) {
                            assert(occurs_at(body@, nonce_open(), i2));
                            assert(i2 >= from);
                        }
                    }
                }
                return None;
            },
            Some(i) => {
                let open_end = i + pat.len();
                let mut j = open_end;
                while j < n && hay[j] != '"' && hay[j] != '\n'
                    invariant
                        hay@ == body@,
                        n == hay@.len(),
                        open_end <= j <= n,
                        forall|k: int| open_end <= k < j ==> body@[k] != '"' && body@[k] != '\n',
                    decreases n - j,
                {
                    j = j + 1;
                }
                if j < n && hay[j] == '"' {
                    proof {
                        assert(nonce_match(body@, i as int, j as int));
                        assert forall|i2: int, j2: int|
                            nonce_match(body@, i2, j2) implies i as int <= i2 by {
                            if i2 < from {
                                assert(!nonce_match(body@, i2, j2));
                            } else if i2 < i {
                                assert(!occurs_at(body@, nonce_open(), i2));
                            }
                        }
                    }
                    let token = body.substring_char(open_end, j).to_owned();
                    let res = Some(token);
                    proof {
                        match &res {
                            Some(t) => {
                                assert(nonce_capture(body@, t@));
                            },
                            None => {},
                        }
                    }
                    return res;
                }
                proof {
                    assert forall|j2: int| !nonce_match(body@, i as int, j2) by {
                        if nonce_match(body@, i as int, j2) {
                            if j2 < j {
                                assert(body@[j2] != '"');
                            } else {
                                assert(j < n);
                                assert(body@[j as int] == '\n');
                                if j2 == j {
                                    assert(body@[j2] == '"');
                                } else {
                                    assert(i + nonce_open().len() <= j < j2);
                                    assert(body@[j as int] != '\n');
                                }
                            }
                        }
                    }
                    assert forall|i2: int, j2: int|
                        i2 < i + 1 implies !nonce_match(body@, i2, j2) by {
                        if i2 >= from && i2 < i {
                            assert(!occurs_at(body@, nonce_open(), i2));
                        }
                    }
                }
                from = i + 1;
            },
        }
    }
    proof {
        assert forall|i2: int, j2: int| !nonce_match(body@, i2, j2) by {
            if nonce_match(body@, i2, j2) {
                assert(occurs_at(body@, nonce_open(), i2));
                assert(i2 + 12 <= n);
            }
        }
    }
    None
}

/// The points-wallet label a logged-in page shows.
pub open spec fn wallet_label() -> Seq<char> {
    "积分钱包"@
}

/// The balance label that follows it, colon included.
pub open spec fn balance_label() -> Seq<char> {
    "当前余额："@
}

pub open spec fn is_ascii_digit(c: char) -> bool {
    '0' <= c && c <= '9'
}

/// The balance label stands at `j` with a digit right after it.
pub open spec fn balance_label_at(s: Seq<char>, j: int) -> bool {
    &&& occurs_at(s, balance_label(), j)
    &&& j + balance_label().len() < s.len()
    &&& is_ascii_digit(s[j + balance_label().len()])
}

/// The wallet label at `i` and, at or after its end, the balance label at `j`
/// with a digit right after it.
pub open spec fn balance_match(s: Seq<char>, i: int, j: int) -> bool {
    &&& occurs_at(s, wallet_label(), i)
    &&& i + wallet_label().len() <= j
    &&& balance_label_at(s, j)
}

/// Whether `s` shows the logged-in pattern: the wallet label followed later
/// by the balance label and at least one digit.
pub open spec fn balance_pattern_present(s: Seq<char>) -> bool {
    exists|i: int, j: int| balance_match(s, i, j)
}

/// The first position at or after `start` where the balance label stands
/// with a digit after it.
fn find_balance_label(hay: &Vec<char>, blabel: &Vec<char>, start: usize) -> (r: Option<usize>)
    requires
        blabel@ == balance_label(),
        blabel@.len() == 5,
    ensures
        r matches Some(j) ==> {
            &&& start <= j
            &&& balance_label_at(hay@, j as int)
            &&& forall|j2: int| start <= j2 < j ==> !balance_label_at(hay@, j2)
        },
        r is None ==> forall|j2: int| start <= j2 ==> !balance_label_at(hay@, j2),
{
    let n = hay.len();
    let mut j = start;
    while j < n && n - j > blabel.len()
        invariant
            blabel@ == balance_label(),
            blabel@.len() == 5,
            n == hay@.len(),
            start <= j,
            forall|j2: int| start <= j2 < j ==> !balance_label_at(hay@, j2),
        decreases n - j,
    {
        if matches_at(hay, blabel, j) {
            let after = j + blabel.len();
            let c = hay[after];
            if c >= '0' && c <= '9' {
                return Some(j);
            }
        }
        j = j + 1;
    }
    proof {
        assert forall|j2: int| start <= j2 implies !balance_label_at(hay@, j2) by {
            if balance_label_at(hay@, j2) && j2 >= j {
                assert(j2 + 5 < n);
            }
        }
    }
    None
}

/// The end of the unbroken run of digits that starts at `from`.
fn scan_digits(hay: &Vec<char>, from: usize) -> (q: usize)
    requires
        from <= hay@.len(),
    ensures
        from <= q <= hay@.len(),
        forall|k: int| from <= k < q ==> is_ascii_digit(hay@[k]),
        q < hay@.len() ==> !is_ascii_digit(hay@[q as int]),
{
    let n = hay.len();
    let mut q = from;
    while q < n && hay[q] >= '0' && hay[q] <= '9'
        invariant
            n == hay@.len(),
            from <= q <= n,
            forall|k: int| from <= k < q ==> is_ascii_digit(hay@[k]),
        decreases n - q,
    {
        q = q + 1;
    }
    q
}

/// `t` is the balance figure of `s`: after the first wallet label, at the
/// first balance label that a digit follows, the unbroken run of digits.
#[verifier::opaque]
pub open spec fn balance_capture(s: Seq<char>, t: Seq<char>, i: int, j: int, q: int) -> bool {
    &&& balance_match(s, i, j)
    &&& (forall|i2: int| occurs_at(s, wallet_label(), i2) ==> i <= i2)
    &&& (forall|j2: int| i + wallet_label().len() <= j2 < j ==> !balance_label_at(s, j2))
    &&& j + balance_label().len() < q <= s.len()
    &&& (forall|k: int| j + balance_label().len() <= k < q ==> is_ascii_digit(s[k]))
    &&& (q < s.len() ==> !is_ascii_digit(s[q]))
    &&& t == s.subrange(j + balance_label().len(), q)
}

/// Searches `body` for the balance figure: after the first wallet label, the
/// first balance label that a digit follows; the figure is the unbroken run
/// of digits from there.
pub fn extract_balance(body: &str) -> (r: Option<String>)
    ensures
        r is Some <==> balance_pattern_present(body@),
        r matches Some(t) ==> exists|i: int, j: int, q: int| balance_capture(body@, t@, i, j, q),
{
    let hay = chars_of(body);
    let wallet = chars_of("积分钱包");
    let blabel = chars_of("当前余额：");
    proof {
        reveal_strlit("积分钱包");
        reveal_strlit("当前余额：");
        assert(wallet@.len() == 4);
        assert(blabel@.len() == 5);
    }
    let n = hay.len();
    let i = match find_from(&hay, &wallet, 0) {
        None => {
            proof {
                assert forall|i2: int, j2: int| !balance_match(body@, i2, j2) by {
                    if balance_match(body@, i2, j2) {
                        assert(occurs_at(body@, wallet_label(), i2));
                    }
                }
            }
            return None;
        },
        Some(i) => i,
    };
    let start = i + wallet.len();
    let j = match find_balance_label(&hay, &blabel, start) {
        None => {
            proof {
                assert forall|i2: int, j2: int| !balance_match(body@, i2, j2) by {
                    if balance_match(body@, i2, j2) {
                        assert(occurs_at(body@, wallet_label(), i2));
                        assert(i as int <= i2);
                        assert(start <= i2 + 4 <= j2);
                        assert(balance_label_at(body@, j2));
                    }
                }
            }
            return None;
        },
        Some(j) => j,
    };
    let dstart = j + blabel.len();
    let q = scan_digits(&hay, dstart);
    let figure = body.substring_char(dstart, q).to_owned();
    let res = Some(figure);
    proof {
        assert(balance_match(body@, i as int, j as int));
        assert forall|i2: int| occurs_at(body@, wallet_label(), i2) implies i as int <= i2 by {}
        assert(balance_pattern_present(body@));
        reveal(balance_capture);
        match &res {
            Some(t) => {
                assert(balance_capture(body@, t@, i as int, j as int, q as int));
                assert(exists|i2: int, j2: int, q2: int| balance_capture(body@, t@, i2, j2, q2));
            },
            None => {},
        }
    }
    res
}

/// Any page that carries the token attribute — the opening literal, then
/// quote-free, newline-free token text, then the closing quote — holds a
/// check-in token, whatever else the page holds around it.
pub proof fn lemma_nonce_from_parts(a: Seq<char>, t: Seq<char>, rest: Seq<char>)
    requires
        forall|k: int| 0 <= k < t.len() ==> t[k] != '"' && t[k] != '\n',
    ensures
        has_nonce(a + nonce_open() + t + seq!['"'] + rest),
{
    let s = a + nonce_open() + t + seq!['"'] + rest;
    let m = nonce_open().len() as int;
    let i = a.len() as int;
    let j = a.len() + m + t.len();
    assert forall|k: int| 0 <= k < m implies s[i + k] == nonce_open()[k] by {
        assert(s[i + k] == (a + nonce_open())[i + k]);
    }
    assert(occurs_at(s, nonce_open(), i));
    assert(s[j] == '"');
    assert forall|k: int| i + m <= k < j implies s[k] != '"' && s[k] != '\n' by {
        assert(s[k] == (a + nonce_open() + t)[k]);
        assert(s[k] == t[k - i - m]);
    }
    assert(nonce_match(s, i, j));
}

/// Any page that shows the wallet label and, later, the balance label
/// followed by a digit matches the logged-in pattern, whatever else the page
/// holds before, between, or after the labels.
pub proof fn lemma_balance_pattern_from_parts(a: Seq<char>, mid: Seq<char>, tail: Seq<char>)
    requires
        tail.len() > 0,
        is_ascii_digit(tail[0]),
    ensures
        balance_pattern_present(a + wallet_label() + mid + balance_label() + tail),
{
    let s = a + wallet_label() + mid + balance_label() + tail;
    let w = wallet_label().len() as int;
    let b = balance_label().len() as int;
    let i = a.len() as int;
    let j = a.len() + w + mid.len();
    assert forall|k: int| 0 <= k < w implies s[i + k] == wallet_label()[k] by {
        assert(s[i + k] == (a + wallet_label())[i + k]);
    }
    assert(occurs_at(s, wallet_label(), i));
    assert forall|k: int| 0 <= k < b implies s[j + k] == balance_label()[k] by {
        assert(s[j + k] == (a + wallet_label() + mid + balance_label())[j + k]);
    }
    assert(occurs_at(s, balance_label(), j));
    assert(s[j + b] == tail[0]);
    assert(balance_match(s, i, j));
}

} // verus!
