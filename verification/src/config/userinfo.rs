use vstd::prelude::*;

verus! {

/// The numbers carried by a `Subscription-Userinfo` response header: a
/// `;`-separated list of `key=value` items, of which `upload` and `download`
/// accumulate into the used bytes, `total` gives the byte budget and `expire`
/// the expiry time in unix seconds. Unknown or unparseable items are ignored,
/// never errors.
#[derive(Clone, Copy, Debug, PartialEq, Eq, Structural)]
pub struct UserinfoSummary {
    pub used: Option<u64>,
    pub total: Option<u64>,
    pub expire: Option<u64>,
}

/// ASCII whitespace, as stripped from around each `key=value` item.
pub open spec fn is_ws(c: char) -> bool {
    c == ' ' || c == '\t' || c == '\r' || c == '\n'
}

/// An ASCII decimal digit.
pub open spec fn is_digit(c: char) -> bool {
    48 <= c as u32 <= 57
}

pub open spec fn digit_val(c: char) -> int {
    c as u32 - 48
}

pub open spec fn all_digits(s: Seq<char>) -> bool {
    forall|i: int| 0 <= i < s.len() ==> is_digit(s[i])
}

/// The number spelled by a string of decimal digits, most significant first.
pub open spec fn dec_val(s: Seq<char>) -> int
    decreases s.len(),
{
    if s.len() == 0 {
        0
    } else {
        dec_val(s.drop_last()) * 10 + digit_val(s.last())
    }
}

/// `s` split at every occurrence of `sep`, empty pieces kept: the splitting
/// that `key=value` and `;` lists use.
pub open spec fn split_on(s: Seq<char>, sep: char) -> Seq<Seq<char>>
    decreases s.len(),
{
    if s.len() == 0 {
        seq![Seq::<char>::empty()]
    } else if s[0] == sep {
        seq![Seq::<char>::empty()] + split_on(s.skip(1), sep)
    } else {
        let rest = split_on(s.skip(1), sep);
        seq![seq![s[0]] + rest[0]] + rest.skip(1)
    }
}

pub open spec fn trim_start(s: Seq<char>) -> Seq<char>
    decreases s.len(),
{
    if s.len() > 0 && is_ws(s[0]) {
        trim_start(s.skip(1))
    } else {
        s
    }
}

pub open spec fn trim_end(s: Seq<char>) -> Seq<char>
    decreases s.len(),
{
    if s.len() > 0 && is_ws(s.last()) {
        trim_end(s.drop_last())
    } else {
        s
    }
}

/// `s` with ASCII whitespace stripped from both ends.
pub open spec fn trim(s: Seq<char>) -> Seq<char> {
    trim_end(trim_start(s))
}

/// Add `v` bytes to the used-bytes counter, saturating rather than wrapping.
pub open spec fn add_used(cur: Option<u64>, v: u64) -> u64 {
    match cur {
        None => v,
        Some(u) => if u + v > u64::MAX {
            u64::MAX
        } else {
            (u + v) as u64
        },
    }
}

/// What one `;`-separated item does to the summary: trim it, split it at `=`;
/// anything but exactly `key=value` with an unsigned decimal value that fits
/// u64 is ignored; recognized keys update their field, `upload` and
/// `download` accumulating into `used`.
pub open spec fn seg_apply(acc: UserinfoSummary, seg: Seq<char>) -> UserinfoSummary {
    let t = trim(seg);
    let items = split_on(t, '=');
    if items.len() != 2 {
        acc
    } else {
        let key = items[0];
        let value = items[1];
        if value.len() > 0 && all_digits(value) && dec_val(value) <= u64::MAX {
            let v = dec_val(value) as u64;
            if key == "upload"@ || key == "download"@ {
                UserinfoSummary { used: Some(add_used(acc.used, v)), ..acc }
            } else if key == "total"@ {
                UserinfoSummary { total: Some(v), ..acc }
            } else if key == "expire"@ {
                UserinfoSummary { expire: Some(v), ..acc }
            } else {
                acc
            }
        } else {
            acc
        }
    }
}

pub open spec fn fold_segs(acc: UserinfoSummary, segs: Seq<Seq<char>>) -> UserinfoSummary
    decreases segs.len(),
{
    if segs.len() == 0 {
        acc
    } else {
        fold_segs(seg_apply(acc, segs[0]), segs.skip(1))
    }
}

/// The summary parsed from a whole header value.
pub open spec fn userinfo_spec(s: Seq<char>) -> UserinfoSummary {
    fold_segs(UserinfoSummary { used: None, total: None, expire: None }, split_on(s, ';'))
}

/// If the first `sep` of `s` stands at `k`, the split is the piece before it
/// followed by the split of what comes after it.
pub proof fn lemma_split_head(s: Seq<char>, sep: char, k: int)
    requires
        0 <= k < s.len(),
        s[k] == sep,
        forall|j: int| 0 <= j < k ==> s[j] != sep,
    ensures
        split_on(s, sep) == seq![s.take(k)] + split_on(s.skip(k + 1), sep),
    decreases k,
{
    if k == 0 {
        assert(s.take(0) =~= Seq::<char>::empty());
    } else {
        lemma_split_head(s.skip(1), sep, k - 1);
        let rest = split_on(s.skip(1), sep);
        let tail = split_on(s.skip(1).skip(k), sep);
        assert(s.skip(1)[k - 1] == sep);
        assert(rest == seq![s.skip(1).take(k - 1)] + tail);
        assert(rest[0] == s.skip(1).take(k - 1));
        assert(rest.skip(1) =~= tail);
        assert(seq![s[0]] + s.skip(1).take(k - 1) =~= s.take(k));
        assert(s.skip(1).skip(k) =~= s.skip(k + 1));
        assert(split_on(s, sep) == seq![seq![s[0]] + rest[0]] + rest.skip(1));
        assert(seq![seq![s[0]] + rest[0]] + rest.skip(1) =~= seq![s.take(k)] + split_on(
            s.skip(k + 1),
            sep,
        ));
    }
}

/// A piece without the separator splits into just itself.
pub proof fn lemma_split_none(s: Seq<char>, sep: char)
    requires
        forall|j: int| 0 <= j < s.len() ==> s[j] != sep,
    ensures
        split_on(s, sep) == seq![s],
    decreases s.len(),
{
    if s.len() == 0 {
        assert(s =~= Seq::<char>::empty());
    } else {
        lemma_split_none(s.skip(1), sep);
        let rest = split_on(s.skip(1), sep);
        assert(rest[0] == s.skip(1));
        assert(rest.skip(1) =~= Seq::<Seq<char>>::empty());
        assert(seq![s[0]] + s.skip(1) =~= s);
        assert(split_on(s, sep) =~= seq![s]);
    }
}

/// Trimming the start removes exactly the leading whitespace run.
pub proof fn lemma_trim_start(s: Seq<char>, a: int)
    requires
        0 <= a <= s.len(),
        forall|j: int| 0 <= j < a ==> is_ws(s[j]),
        a < s.len() ==> !is_ws(s[a]),
    ensures
        trim_start(s) == s.skip(a),
    decreases a,
{
    if a == 0 {
        assert(s.skip(0) =~= s);
    } else {
        lemma_trim_start(s.skip(1), a - 1);
        assert(s.skip(1).skip(a - 1) =~= s.skip(a));
    }
}

/// Trimming the end removes exactly the trailing whitespace run.
pub proof fn lemma_trim_end(s: Seq<char>, b: int)
    requires
        0 <= b <= s.len(),
        forall|j: int| b <= j < s.len() ==> is_ws(s[j]),
        b > 0 ==> !is_ws(s[b - 1]),
    ensures
        trim_end(s) == s.take(b),
    decreases s.len(),
{
    if s.len() == 0 {
        assert(s.take(0) =~= s);
    } else if b == s.len() {
        assert(s.take(b) =~= s);
    } else {
        assert(is_ws(s.last()));
        lemma_trim_end(s.drop_last(), b);
        assert(s.drop_last().take(b) =~= s.take(b));
    }
}

/// A digit string's value is nonnegative.
pub proof fn lemma_dec_val_nonneg(s: Seq<char>)
    requires
        all_digits(s),
    ensures
        dec_val(s) >= 0,
    decreases s.len(),
{
    if s.len() > 0 {
        assert(all_digits(s.drop_last()));
        lemma_dec_val_nonneg(s.drop_last());
    }
}

/// Reading more digits never makes the value smaller.
pub proof fn lemma_dec_val_prefix(s: Seq<char>, i: int)
    requires
        all_digits(s),
        0 <= i <= s.len(),
    ensures
        dec_val(s.take(i)) <= dec_val(s),
    decreases s.len() - i,
{
    if i == s.len() {
        assert(s.take(i) =~= s);
    } else {
        assert(all_digits(s.drop_last()));
        lemma_dec_val_nonneg(s.drop_last());
        lemma_dec_val_prefix(s.drop_last(), i);
        assert(s.drop_last().take(i) =~= s.take(i));
    }
}

/// The header text as a vector of its characters.
#[verifier::loop_isolation(false)]
fn str_chars(s: &str) -> (r: Vec<char>)
    ensures
        r@ == s@,
{
    let n = s.unicode_len();
    let mut r: Vec<char> = Vec::new();
    let mut i: usize = 0;
    while i < n
        invariant
            i <= n == s@.len(),
            r@ == s@.take(i as int),
        decreases n - i,
    {
        let c = s.get_char(i);
        r.push(c);
        proof {
            assert(r@ =~= s@.take(i as int + 1));
        }
        i = i + 1;
    }
    proof {
        assert(s@.take(n as int) =~= s@);
    }
    r
}

/// Does the character range `chars[lo..hi]` spell exactly `lit`?
#[verifier::loop_isolation(false)]
fn range_eq_str(chars: &Vec<char>, lo: usize, hi: usize, lit: &str) -> (r: bool)
    requires
        lo <= hi <= chars@.len(),
    ensures
        r == (chars@.subrange(lo as int, hi as int) == lit@),
{
    let ghost sub = chars@.subrange(lo as int, hi as int);
    let m = lit.unicode_len();
    if hi - lo != m {
        proof {
            assert(sub.len() != lit@.len());
        }
        return false;
    }
    let mut i: usize = 0;
    while i < m
        invariant
            i <= m == lit@.len(),
            lo + m == hi,
            forall|j: int| 0 <= j < i ==> sub[j] == lit@[j],
        decreases m - i,
    {
        let c = chars[lo + i];
        if c != lit.get_char(i) {
            proof {
                assert(sub[i as int] != lit@[i as int]);
            }
            return false;
        }
        i = i + 1;
    }
    proof {
        assert(sub =~= lit@);
    }
    true
}

/// Parse the character range `chars[lo..hi]` as an unsigned decimal number:
/// digits only, no sign, no inner spaces; `None` when it is empty, not all
/// digits, or too large for u64.
#[verifier::loop_isolation(false)]
fn parse_u64_range(chars: &Vec<char>, lo: usize, hi: usize) -> (r: Option<u64>)
    requires
        lo <= hi <= chars@.len(),
    ensures
        ({
            let s = chars@.subrange(lo as int, hi as int);
            match r {
                Some(v) => s.len() > 0 && all_digits(s) && dec_val(s) == v,
                None => s.len() == 0 || !all_digits(s) || dec_val(s) > u64::MAX,
            }
        }),
{
    let ghost s = chars@.subrange(lo as int, hi as int);
    if lo == hi {
        return None;
    }
    let mut v: u64 = 0;
    let mut i: usize = lo;
    while i < hi
        invariant
            lo <= i <= hi <= chars@.len(),
            all_digits(s.take(i - lo)),
            v == dec_val(s.take(i - lo)),
        decreases hi - i,
    {
        let c = chars[i];
        let cu = c as u32;
        proof {
            assert(s[i - lo] == chars@[i as int]);
        }
        if cu < 48 || cu > 57 {
            proof {
                assert(!is_digit(s[i - lo]));
            }
            return None;
        }
        let d = (cu - 48) as u64;
        if v > (u64::MAX - d) / 10 {
            proof {
                let prefix = s.take(i - lo + 1);
                assert(prefix.drop_last() =~= s.take(i - lo));
                assert(prefix.last() == s[i - lo]);
                assert(all_digits(prefix));
                assert(dec_val(prefix) == v * 10 + d);
                assert(v * 10 + d > u64::MAX) by {
                    let q = (u64::MAX - d) / 10;
                    let rm = (u64::MAX - d) % 10;
                    assert(u64::MAX - d == 10 * q + rm);
                };
                if all_digits(s) {
                    lemma_dec_val_prefix(s, i - lo + 1);
                }
            }
            return None;
        }
        v = v * 10 + d;
        proof {
            let prefix = s.take(i - lo + 1);
            assert(prefix.drop_last() =~= s.take(i - lo));
            assert(prefix.last() == s[i - lo]);
            assert(all_digits(prefix));
        }
        i = i + 1;
    }
    proof {
        assert(s.take(hi - lo) =~= s);
    }
    Some(v)
}

/// Apply one `;`-separated item, the character range `chars[lo..hi]`, to the
/// summary, exactly as `seg_apply` says.
#[verifier::loop_isolation(false)]
fn apply_segment(acc: UserinfoSummary, chars: &Vec<char>, lo: usize, hi: usize) -> (r:
    UserinfoSummary)
    requires
        lo <= hi <= chars@.len(),
    ensures
        r == seg_apply(acc, chars@.subrange(lo as int, hi as int)),
{
    let ghost seg = chars@.subrange(lo as int, hi as int);
    // Trim ASCII whitespace from both ends.
    let mut a: usize = lo;
    while a < hi && (chars[a] == ' ' || chars[a] == '\t' || chars[a] == '\r' || chars[a] == '\n')
        invariant
            lo <= a <= hi,
            forall|j: int| 0 <= j < a - lo ==> is_ws(seg[j]),
        decreases hi - a,
    {
        a = a + 1;
    }
    let mut b: usize = hi;
    while b > a && (chars[b - 1] == ' ' || chars[b - 1] == '\t' || chars[b - 1] == '\r' || chars[b
        - 1] == '\n')
        invariant
            a <= b <= hi,
            forall|j: int| b - lo <= j < hi - lo ==> is_ws(seg[j]),
        decreases b,
    {
        b = b - 1;
    }
    let ghost t = trim(seg);
    proof {
        lemma_trim_start(seg, a - lo);
        lemma_trim_end(seg.skip(a - lo), b - a);
        assert(seg.skip(a - lo).take(b - a) =~= chars@.subrange(a as int, b as int));
        assert(t == chars@.subrange(a as int, b as int));
    }
    // Find the first two `=` signs inside the trimmed item, if they exist.
    let mut first: usize = b;
    let mut second: usize = b;
    let mut i: usize = a;
    while i < b
        invariant
            a <= i <= b,
            a <= first <= b,
            first <= second <= b,
            first < b ==> first < i,
            first == b ==> second == b && (forall|j: int| a <= j < i ==> chars@[j] != '='),
            first < b ==> chars@[first as int] == '=' && (forall|j: int|
                a <= j < first ==> chars@[j] != '='),
            first < b && second == b ==> forall|j: int| first < j < i ==> chars@[j] != '=',
            second < b ==> chars@[second as int] == '=' && first < second && (forall|j: int|
                first < j < second ==> chars@[j] != '='),
        decreases b - i,
    {
        if chars[i] == '=' {
            if first == b {
                first = i;
            } else if second == b {
                second = i;
            }
        }
        i = i + 1;
    }
    if first == b {
        // No `=`: the item splits into one piece, not two; ignored.
        proof {
            assert(forall|j: int| 0 <= j < t.len() ==> t[j] != '=');
            lemma_split_none(t, '=');
        }
        return acc;
    }
    if second < b {
        // At least two `=`: the item splits into three or more pieces; ignored.
        proof {
            lemma_split_head(t, '=', first - a);
            let tail = t.skip(first - a + 1);
            assert(tail[second - first - 1] == '=');
            lemma_split_head(tail, '=', second - first - 1);
            assert(split_on(t, '=').len() >= 3);
        }
        return acc;
    }
    // Exactly one `=`: key before it, value after it.
    proof {
        lemma_split_head(t, '=', first - a);
        let tail = t.skip(first - a + 1);
        assert(forall|j: int| 0 <= j < tail.len() ==> tail[j] != '=');
        lemma_split_none(tail, '=');
        assert(split_on(t, '=').len() == 2);
        assert(split_on(t, '=')[0] == t.take(first - a));
        assert(split_on(t, '=')[1] == tail);
        assert(t.take(first - a) =~= chars@.subrange(a as int, first as int));
        assert(tail =~= chars@.subrange(first as int + 1, b as int));
    }
    let value = parse_u64_range(chars, first + 1, b);
    let v = match value {
        Some(v) => v,
        None => {
            return acc;
        },
    };
    if range_eq_str(chars, a, first, "upload") || range_eq_str(chars, a, first, "download") {
        let used = match acc.used {
            None => v,
            Some(u) => if u > u64::MAX - v {
                u64::MAX
            } else {
                u + v
            },
        };
        UserinfoSummary { used: Some(used), ..acc }
    } else if range_eq_str(chars, a, first, "total") {
        UserinfoSummary { total: Some(v), ..acc }
    } else if range_eq_str(chars, a, first, "expire") {
        UserinfoSummary { expire: Some(v), ..acc }
    } else {
        acc
    }
}

/// Parse a whole `Subscription-Userinfo` header value, exactly as
/// `userinfo_spec` says.
#[verifier::loop_isolation(false)]
pub fn parse_subscription_userinfo(header: &str) -> (r: UserinfoSummary)
    ensures
        r == userinfo_spec(header@),
{
    let chars = str_chars(header);
    let n = chars.len();
    let mut acc = UserinfoSummary { used: None, total: None, expire: None };
    let mut p: usize = 0;
    proof {
        assert(header@.skip(0) =~= header@);
    }
    while p <= n
        invariant
            p <= n,
            n == chars@.len(),
            chars@ == header@,
            fold_segs(acc, split_on(header@.skip(p as int), ';')) == userinfo_spec(header@),
        decreases n + 1 - p,
    {
        let mut k: usize = p;
        while k < n && chars[k] != ';'
            invariant
                p <= k <= n,
                forall|j: int| p <= j < k ==> chars@[j] != ';',
            decreases n - k,
        {
            k = k + 1;
        }
        let ghost rest = header@.skip(p as int);
        if k == n {
            proof {
                assert(forall|j: int| 0 <= j < rest.len() ==> rest[j] != ';');
                lemma_split_none(rest, ';');
                assert(rest =~= chars@.subrange(p as int, n as int));
            }
            let out = apply_segment(acc, &chars, p, n);
            proof {
                assert(fold_segs(acc, seq![rest]) == fold_segs(
                    seg_apply(acc, rest),
                    seq![rest].skip(1),
                ));
                assert(seq![rest].skip(1) =~= Seq::<Seq<char>>::empty());
            }
            return out;
        }
        proof {
            assert(rest[k - p] == ';');
            lemma_split_head(rest, ';', k - p);
            let segs = split_on(rest, ';');
            let tail = split_on(rest.skip(k - p + 1), ';');
            assert(segs == seq![rest.take(k - p)] + tail);
            assert(segs[0] == rest.take(k - p));
            assert(segs.skip(1) =~= tail);
            assert(rest.take(k - p) =~= chars@.subrange(p as int, k as int));
            assert(rest.skip(k - p + 1) =~= header@.skip(k + 1));
        }
        acc = apply_segment(acc, &chars, p, k);
        p = k + 1;
    }
    proof {
        assert(false);
    }
    vstd::pervasive::unreached()
}

} // verus!
