use vstd::prelude::*;

verus! {

/// The character sequence of an optional string.
pub open spec fn view_opt(o: Option<String>) -> Option<Seq<char>> {
    match o {
        Some(s) => Some(s@),
        None => None,
    }
}

/// The character sequences of a sequence of strings.
pub open spec fn views_of(v: Seq<String>) -> Seq<Seq<char>> {
    v.map_values(|x: String| x@)
}

/// Equality of two string slices, stated over their character sequences.
pub fn str_eq(a: &str, b: &str) -> (r: bool)
    ensures
        r == (a@ == b@),
{
    let oa = a.to_owned();
    let ob = b.to_owned();
    oa == ob
}

/// One path below another: `base` plus one separator plus `name`.
pub open spec fn join_spec(base: Seq<char>, name: Seq<char>) -> Seq<char> {
    base + seq!['/'] + name
}

/// Appends one component to a path.
pub fn path_join(base: &str, name: &str) -> (r: String)
    ensures
        r@ == join_spec(base@, name@),
{
    proof {
        reveal_strlit("/");
        assert("/"@ =~= seq!['/']);
    }
    let r = base.to_owned().concat("/").concat(name);
    proof {
        assert(r@ =~= join_spec(base@, name@));
    }
    r
}

/// The path's last component equals `leaf`: either the whole path is the
/// leaf, or the leaf follows the path's final separator.
pub open spec fn has_leaf_spec(path: Seq<char>, leaf: Seq<char>) -> bool {
    ||| path == leaf
    ||| (path.len() > leaf.len() && path[path.len() - leaf.len() - 1] == '/' && path.subrange(
        path.len() - leaf.len(),
        path.len() as int,
    ) == leaf)
}

/// Whether the path's last component equals `leaf`.
pub fn has_leaf(path: &str, leaf: &str) -> (r: bool)
    ensures
        r == has_leaf_spec(path@, leaf@),
{
    let n = path.unicode_len();
    let m = leaf.unicode_len();
    if n < m {
        proof {
            assert(!has_leaf_spec(path@, leaf@));
        }
        false
    } else {
        let suffix = path.substring_char(n - m, n);
        if !str_eq(suffix, leaf) {
            proof {
                if path@ == leaf@ {
                    assert(path@.subrange(path@.len() - leaf@.len(), path@.len() as int)
                        =~= path@);
                }
                assert(!has_leaf_spec(path@, leaf@));
            }
            false
        } else if n == m {
            proof {
                assert(path@ =~= leaf@);
            }
            true
        } else {
            let r = path.get_char(n - m - 1) == '/';
            proof {
                if !r {
                    assert(path@ != leaf@) by {
                        assert(path@.len() > leaf@.len());
                    }
                }
            }
            r
        }
    }
}

/// Position `k` is the last separator of the path.
pub open spec fn is_last_slash(s: Seq<char>, k: int) -> bool {
    &&& 0 <= k < s.len()
    &&& s[k] == '/'
    &&& forall|j: int| k < j < s.len() ==> s[j] != '/'
}

/// What remains when the component after the last separator is dropped:
/// the filesystem root when the last separator is the leading one.
pub open spec fn parent_from(s: Seq<char>, k: int) -> Seq<char> {
    if k == 0 {
        seq!['/']
    } else {
        s.subrange(0, k)
    }
}

/// Drops the last component of an absolute path; `None` at the root.
pub fn parent_of(path: &str) -> (r: Option<String>)
    requires
        path@.len() >= 1,
        path@[0] == '/',
    ensures
        path@.len() == 1 ==> r is None,
        path@.len() > 1 ==> (r matches Some(p) && p@.len() >= 1 && p@[0] == '/' && p@.len()
            < path@.len() && exists|k: int| is_last_slash(path@, k) && p@ == parent_from(path@, k)),
{
    let n = path.unicode_len();
    if n == 1 {
        return None;
    }
    let mut i = n;
    while i > 0 && path.get_char(i - 1) != '/'
        invariant
            0 <= i <= n,
            n == path@.len(),
            forall|j: int| i <= j < n ==> path@[j] != '/',
        decreases i,
    {
        i = i - 1;
    }
    proof {
        assert(i > 0) by {
            if i == 0 {
                assert(path@[0] != '/');
            }
        }
        assert(is_last_slash(path@, i - 1));
    }
    if i == 1 {
        let root = "/".to_owned();
        proof {
            reveal_strlit("/");
            assert(root@ =~= parent_from(path@, 0));
        }
        Some(root)
    } else {
        let p = path.substring_char(0, i - 1);
        proof {
            assert(p@[0] == '/');
        }
        Some(p.to_owned())
    }
}

/// The last component of a path: everything after the last separator, or
/// the whole path when it has none.
pub fn leaf_of(path: &str) -> (r: String)
    ensures
        (exists|k: int| is_last_slash(path@, k)) ==> (exists|k: int|
            is_last_slash(path@, k) && r@ == path@.subrange(k + 1, path@.len() as int)),
        !(exists|k: int| is_last_slash(path@, k)) ==> r@ == path@,
{
    let n = path.unicode_len();
    let mut i = n;
    while i > 0 && path.get_char(i - 1) != '/'
        invariant
            0 <= i <= n,
            n == path@.len(),
            forall|j: int| i <= j < n ==> path@[j] != '/',
        decreases i,
    {
        i = i - 1;
    }
    if i == 0 {
        proof {
            assert(forall|k: int| !is_last_slash(path@, k));
        }
        path.to_owned()
    } else {
        proof {
            assert(is_last_slash(path@, i - 1));
        }
        path.substring_char(i, n).to_owned()
    }
}

/// The decimal rendering of a non-negative number, most significant digit
/// first.
pub open spec fn dec_seq(n: int) -> Seq<char>
    decreases n,
{
    if n < 10 {
        seq![dec_digit(n)]
    } else {
        dec_seq(n / 10).push(dec_digit(n % 10))
    }
}

/// The character for one decimal digit.
pub open spec fn dec_digit(d: int) -> char {
    if d == 0 {
        '0'
    } else if d == 1 {
        '1'
    } else if d == 2 {
        '2'
    } else if d == 3 {
        '3'
    } else if d == 4 {
        '4'
    } else if d == 5 {
        '5'
    } else if d == 6 {
        '6'
    } else if d == 7 {
        '7'
    } else if d == 8 {
        '8'
    } else {
        '9'
    }
}

/// Renders a number in decimal.
pub fn u64_to_dec(n: u64) -> (r: String)
    ensures
        r@ == dec_seq(n as int),
    decreases n,
{
    if n < 10 {
        let r = dec_digit_str(n);
        proof {
            assert(r@ =~= dec_seq(n as int));
        }
        r.to_owned()
    } else {
        let head = u64_to_dec(n / 10);
        let tail = dec_digit_str(n % 10);
        let r = head.concat(tail);
        proof {
            assert(tail@.len() == 1);
            assert(r@ =~= dec_seq(n as int));
        }
        r
    }
}

/// The one-character string for a digit.
fn dec_digit_str(d: u64) -> (r: &'static str)
    requires
        d < 10,
    ensures
        r@ == seq![dec_digit(d as int)],
        r@.len() == 1,
{
    proof {
        reveal_strlit("0");
        reveal_strlit("1");
        reveal_strlit("2");
        reveal_strlit("3");
        reveal_strlit("4");
        reveal_strlit("5");
        reveal_strlit("6");
        reveal_strlit("7");
        reveal_strlit("8");
        reveal_strlit("9");
    }
    let r = if d == 0 {
        "0"
    } else if d == 1 {
        "1"
    } else if d == 2 {
        "2"
    } else if d == 3 {
        "3"
    } else if d == 4 {
        "4"
    } else if d == 5 {
        "5"
    } else if d == 6 {
        "6"
    } else if d == 7 {
        "7"
    } else if d == 8 {
        "8"
    } else {
        "9"
    };
    proof {
        assert(r@ =~= seq![dec_digit(d as int)]);
    }
    r
}

/// The sequence begins with the given prefix.
pub open spec fn starts_with_spec(s: Seq<char>, prefix: Seq<char>) -> bool {
    s.len() >= prefix.len() && s.subrange(0, prefix.len() as int) == prefix
}

/// Whether the string begins with the given prefix.
pub fn starts_with(s: &str, prefix: &str) -> (r: bool)
    ensures
        r == starts_with_spec(s@, prefix@),
{
    let n = s.unicode_len();
    let m = prefix.unicode_len();
    if n < m {
        false
    } else {
        str_eq(s.substring_char(0, m), prefix)
    }
}

/// Position of the first occurrence of a character, or the sequence's
/// length when it does not occur.
pub open spec fn first_occ(s: Seq<char>, c: char) -> nat
    decreases s.len(),
{
    if s.len() == 0 {
        0
    } else if s[0] == c {
        0
    } else {
        1 + first_occ(s.drop_first(), c)
    }
}

/// A scan that stopped at `i` having seen no occurrence has found
/// `first_occ`.
pub proof fn lemma_first_occ_at(s: Seq<char>, c: char, i: int)
    requires
        0 <= i <= s.len(),
        forall|j: int| 0 <= j < i ==> s[j] != c,
        i < s.len() ==> s[i] == c,
    ensures
        first_occ(s, c) == i,
    decreases s.len(),
{
    if s.len() > 0 && i > 0 {
        assert(s[0] != c);
        assert forall|j: int| 0 <= j < i - 1 implies s.drop_first()[j] != c by {
            assert(s[j + 1] != c);
        }
        assert(i - 1 < s.drop_first().len() ==> s.drop_first()[i - 1] == c);
        lemma_first_occ_at(s.drop_first(), c, i - 1);
    }
}

/// Finds the position of the first occurrence of a character, or the
/// string's length when it does not occur.
pub fn find_char(s: &str, c: char) -> (r: usize)
    ensures
        r == first_occ(s@, c),
        r <= s@.len(),
{
    let n = s.unicode_len();
    let mut i: usize = 0;
    while i < n && s.get_char(i) != c
        invariant
            0 <= i <= n,
            n == s@.len(),
            forall|j: int| 0 <= j < i ==> s@[j] != c,
        decreases n - i,
    {
        i = i + 1;
    }
    proof {
        lemma_first_occ_at(s@, c, i as int);
    }
    i
}

/// Position of the first newline, or the sequence's length when it has
/// none.
pub open spec fn first_nl(s: Seq<char>) -> nat {
    first_occ(s, '\n')
}

/// A scan that stopped at `i` with no newline seen has found `first_nl`.
pub proof fn lemma_first_nl_at(s: Seq<char>, i: int)
    requires
        0 <= i <= s.len(),
        forall|j: int| 0 <= j < i ==> s[j] != '\n',
        i < s.len() ==> s[i] == '\n',
    ensures
        first_nl(s) == i,
{
    lemma_first_occ_at(s, '\n', i);
}

/// The whitespace characters the trimming helpers strip.
pub open spec fn is_ascii_ws(c: char) -> bool {
    c == ' ' || c == '\t' || c == '\r' || c == '\n'
}

/// The sequence with its leading whitespace dropped.
pub open spec fn ltrim_ws_spec(s: Seq<char>) -> Seq<char>
    decreases s.len(),
{
    if s.len() == 0 {
        s
    } else if is_ascii_ws(s[0]) {
        ltrim_ws_spec(s.drop_first())
    } else {
        s
    }
}

/// The sequence with its trailing whitespace dropped.
pub open spec fn rtrim_ws_spec(s: Seq<char>) -> Seq<char>
    decreases s.len(),
{
    if s.len() == 0 {
        s
    } else if is_ascii_ws(s.last()) {
        rtrim_ws_spec(s.drop_last())
    } else {
        s
    }
}

/// The sequence with whitespace dropped at both ends.
pub open spec fn trim_ws_spec(s: Seq<char>) -> Seq<char> {
    rtrim_ws_spec(ltrim_ws_spec(s))
}

/// Drops leading whitespace.
pub fn ltrim_ws(s: &str) -> (r: String)
    ensures
        r@ == ltrim_ws_spec(s@),
    decreases s@.len(),
{
    let n = s.unicode_len();
    if n == 0 {
        return s.to_owned();
    }
    let c = s.get_char(0);
    if c == ' ' || c == '\t' || c == '\r' || c == '\n' {
        let rest = s.substring_char(1, n);
        proof {
            assert(rest@ =~= s@.drop_first());
        }
        ltrim_ws(rest)
    } else {
        s.to_owned()
    }
}

/// Drops trailing whitespace.
pub fn rtrim_ws(s: &str) -> (r: String)
    ensures
        r@ == rtrim_ws_spec(s@),
    decreases s@.len(),
{
    let n = s.unicode_len();
    if n == 0 {
        return s.to_owned();
    }
    let c = s.get_char(n - 1);
    if c == ' ' || c == '\t' || c == '\r' || c == '\n' {
        let rest = s.substring_char(0, n - 1);
        proof {
            assert(rest@ =~= s@.drop_last());
        }
        rtrim_ws(rest)
    } else {
        s.to_owned()
    }
}

/// Drops whitespace at both ends.
pub fn trim_ws(s: &str) -> (r: String)
    ensures
        r@ == trim_ws_spec(s@),
{
    let l = ltrim_ws(s);
    rtrim_ws(l.as_str())
}

/// The sequence with leading copies of one character dropped.
pub open spec fn ltrim_char_spec(s: Seq<char>, c: char) -> Seq<char>
    decreases s.len(),
{
    if s.len() == 0 {
        s
    } else if s[0] == c {
        ltrim_char_spec(s.drop_first(), c)
    } else {
        s
    }
}

/// The sequence with trailing copies of one character dropped.
pub open spec fn rtrim_char_spec(s: Seq<char>, c: char) -> Seq<char>
    decreases s.len(),
{
    if s.len() == 0 {
        s
    } else if s.last() == c {
        rtrim_char_spec(s.drop_last(), c)
    } else {
        s
    }
}

/// The sequence with copies of one character dropped at both ends.
pub open spec fn trim_char_spec(s: Seq<char>, c: char) -> Seq<char> {
    rtrim_char_spec(ltrim_char_spec(s, c), c)
}

/// Drops leading copies of one character.
pub fn ltrim_char(s: &str, c: char) -> (r: String)
    ensures
        r@ == ltrim_char_spec(s@, c),
    decreases s@.len(),
{
    let n = s.unicode_len();
    if n == 0 {
        return s.to_owned();
    }
    if s.get_char(0) == c {
        let rest = s.substring_char(1, n);
        proof {
            assert(rest@ =~= s@.drop_first());
        }
        ltrim_char(rest, c)
    } else {
        s.to_owned()
    }
}

/// Drops trailing copies of one character.
pub fn rtrim_char(s: &str, c: char) -> (r: String)
    ensures
        r@ == rtrim_char_spec(s@, c),
    decreases s@.len(),
{
    let n = s.unicode_len();
    if n == 0 {
        return s.to_owned();
    }
    if s.get_char(n - 1) == c {
        let rest = s.substring_char(0, n - 1);
        proof {
            assert(rest@ =~= s@.drop_last());
        }
        rtrim_char(rest, c)
    } else {
        s.to_owned()
    }
}

/// Dropping trailing copies of a character leaves a prefix of the
/// sequence.
pub proof fn lemma_rtrim_char_is_prefix(s: Seq<char>, c: char)
    ensures
        rtrim_char_spec(s, c).len() <= s.len(),
        forall|i: int|
            0 <= i < rtrim_char_spec(s, c).len() ==> #[trigger] rtrim_char_spec(s, c)[i] == s[i],
    decreases s.len(),
{
    if s.len() > 0 && s.last() == c {
        lemma_rtrim_char_is_prefix(s.drop_last(), c);
    }
}

/// Drops copies of one character at both ends.
pub fn trim_char(s: &str, c: char) -> (r: String)
    ensures
        r@ == trim_char_spec(s@, c),
{
    let l = ltrim_char(s, c);
    rtrim_char(l.as_str(), c)
}

/// The needle occurs contiguously somewhere in the sequence.
pub open spec fn contains_sub_spec(s: Seq<char>, needle: Seq<char>) -> bool {
    exists|k: int|
        0 <= k && k + needle.len() <= s.len() && #[trigger] s.subrange(k, k + needle.len() as int)
            == needle
}

/// Whether the needle occurs contiguously in the string.
pub fn contains_sub(s: &str, needle: &str) -> (r: bool)
    ensures
        r == contains_sub_spec(s@, needle@),
{
    let n = s.unicode_len();
    let m = needle.unicode_len();
    if m > n {
        proof {
            assert(!contains_sub_spec(s@, needle@));
        }
        return false;
    }
    if m == 0 {
        proof {
            assert(s@.subrange(0, 0 + needle@.len() as int) =~= needle@);
        }
        return true;
    }
    let mut k: usize = 0;
    while k <= n - m
        invariant
            0 <= k <= n - m + 1,
            1 <= m <= n,
            n == s@.len(),
            m == needle@.len(),
            forall|j: int|
                0 <= j < k ==> #[trigger] s@.subrange(j, j + needle@.len() as int) != needle@,
        decreases n - m - k + 1,
    {
        if str_eq(s.substring_char(k, k + m), needle) {
            proof {
                assert(s@.subrange(k as int, k + m as int) == needle@);
            }
            return true;
        }
        k = k + 1;
    }
    proof {
        assert forall|j: int| 0 <= j && j + needle@.len() <= s@.len() implies #[trigger] s@
            .subrange(j, j + needle@.len() as int) != needle@ by {
            assert(j < k);
        }
    }
    false
}

/// Position of the first occurrence of the needle, or the sequence's
/// length when it does not occur (so the position plus the needle's
/// length overruns exactly when there is no occurrence).
pub open spec fn first_sub(s: Seq<char>, needle: Seq<char>) -> nat
    decreases s.len(),
{
    if starts_with_spec(s, needle) {
        0
    } else if s.len() == 0 {
        0
    } else {
        1 + first_sub(s.drop_first(), needle)
    }
}

/// Finds the position of the first occurrence of the needle, or the
/// string's length when it does not occur.
pub fn find_sub(s: &str, needle: &str) -> (r: usize)
    ensures
        r == first_sub(s@, needle@),
        r <= s@.len(),
    decreases s@.len(),
{
    if starts_with(s, needle) {
        0
    } else {
        let n = s.unicode_len();
        if n == 0 {
            0
        } else {
            let rest = s.substring_char(1, n);
            proof {
                assert(rest@ =~= s@.drop_first());
            }
            1 + find_sub(rest, needle)
        }
    }
}

/// The numeric value of a decimal digit string, most significant first.
pub open spec fn dec_value(s: Seq<char>) -> int
    decreases s.len(),
{
    if s.len() == 0 {
        0
    } else {
        dec_value(s.drop_last()) * 10 + (s.last() as u32 - 48)
    }
}

/// Every character is a decimal digit.
pub open spec fn all_digits(s: Seq<char>) -> bool {
    forall|i: int| 0 <= i < s.len() ==> '0' <= #[trigger] s[i] <= '9'
}

/// Parses a non-empty, all-digit decimal string into a `u64`; `None` on an
/// empty string, a non-digit, or a value that does not fit.
pub fn parse_u64(s: &str) -> (r: Option<u64>)
    ensures
        r matches Some(v) ==> s@.len() > 0 && all_digits(s@) && v == dec_value(s@),
        r is None ==> s@.len() == 0 || !all_digits(s@) || dec_value(s@) > u64::MAX,
{
    let n = s.unicode_len();
    if n == 0 {
        return None;
    }
    let mut acc: u64 = 0;
    let mut i: usize = 0;
    while i < n
        invariant
            0 <= i <= n,
            n == s@.len(),
            all_digits(s@.subrange(0, i as int)),
            acc == dec_value(s@.subrange(0, i as int)),
        decreases n - i,
    {
        let c = s.get_char(i);
        if c < '0' || c > '9' {
            proof {
                assert(!all_digits(s@)) by {
                    assert(!('0' <= s@[i as int] <= '9'));
                }
            }
            return None;
        }
        let d: u64 = (c as u32 - 48) as u64;
        proof {
            assert(s@.subrange(0, i + 1 as int).drop_last() =~= s@.subrange(0, i as int));
            assert(s@.subrange(0, i + 1 as int).last() == s@[i as int]);
        }
        if acc > (u64::MAX - d) / 10 {
            proof {
                assert(acc * 10 + d > u64::MAX) by (nonlinear_arith)
                    requires
                        acc > (u64::MAX - d) / 10,
                        0 <= d <= 9,
                ;
                if all_digits(s@) {
                    lemma_dec_value_monotonic(s@.subrange(0, i + 1 as int), s@);
                }
            }
            return None;
        }
        proof {
            assert(acc * 10 + d <= u64::MAX) by (nonlinear_arith)
                requires
                    acc <= (u64::MAX - d) / 10,
                    0 <= d <= 9,
            ;
        }
        acc = acc * 10 + d;
        i = i + 1;
    }
    proof {
        assert(s@.subrange(0, n as int) =~= s@);
    }
    Some(acc)
}

/// A longer digit string never has a smaller value: extending a digit
/// string to the right cannot decrease its decimal value.
proof fn lemma_dec_value_monotonic(p: Seq<char>, s: Seq<char>)
    requires
        p.len() <= s.len(),
        forall|i: int| 0 <= i < p.len() ==> p[i] == s[i],
        all_digits(s),
    ensures
        dec_value(p) <= dec_value(s),
    decreases s.len(),
{
    if p.len() == s.len() {
        assert(p =~= s);
    } else {
        assert(all_digits(s.drop_last()));
        lemma_dec_value_monotonic(p, s.drop_last());
        lemma_dec_value_nonneg(s.drop_last());
        assert(forall|i: int| 0 <= i < s.drop_last().len() ==> s.drop_last()[i] == s[i]);
        assert('0' <= s.last() <= '9');
        assert(dec_value(s.drop_last()) * 10 >= dec_value(s.drop_last())) by (nonlinear_arith)
            requires
                dec_value(s.drop_last()) >= 0,
        ;
    }
}

/// The value of an all-digit string is non-negative.
proof fn lemma_dec_value_nonneg(s: Seq<char>)
    requires
        all_digits(s),
    ensures
        dec_value(s) >= 0,
    decreases s.len(),
{
    if s.len() > 0 {
        assert(all_digits(s.drop_last()));
        lemma_dec_value_nonneg(s.drop_last());
        assert('0' <= s.last() <= '9');
        assert(dec_value(s.drop_last()) * 10 >= 0) by (nonlinear_arith)
            requires
                dec_value(s.drop_last()) >= 0,
        ;
    }
}

} // verus!
