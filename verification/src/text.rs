//! Text helpers shared by the whole crate: whitespace, trimming, concatenation,
//! decimal numerals and line joining, each with a contract over `Seq<char>`.

use vstd::prelude::*;
use vstd::string::*;

verus! {

/// Whether `c` carries the Unicode `White_Space` property.
pub open spec fn is_space(c: char) -> bool {
    let n = c as u32;
    ||| (0x09 <= n && n <= 0x0D)
    ||| n == 0x20
    ||| n == 0x85
    ||| n == 0xA0
    ||| n == 0x1680
    ||| (0x2000 <= n && n <= 0x200A)
    ||| n == 0x2028
    ||| n == 0x2029
    ||| n == 0x202F
    ||| n == 0x205F
    ||| n == 0x3000
}

/// `s` without its leading white space.
pub open spec fn trim_start(s: Seq<char>) -> Seq<char>
    decreases s.len(),
{
    if s.len() > 0 && is_space(s[0]) {
        trim_start(s.drop_first())
    } else {
        s
    }
}

/// `s` without its trailing white space.
pub open spec fn trim_end(s: Seq<char>) -> Seq<char>
    decreases s.len(),
{
    if s.len() > 0 && is_space(s.last()) {
        trim_end(s.drop_last())
    } else {
        s
    }
}

/// `s` without leading and trailing white space.
pub open spec fn trimmed(s: Seq<char>) -> Seq<char> {
    trim_end(trim_start(s))
}

/// Whether `s` holds nothing but white space.
pub open spec fn is_blank(s: Seq<char>) -> bool {
    trimmed(s).len() == 0
}

/// The decimal digit that stands for `d`.
pub open spec fn digit_char(d: nat) -> char {
    if d == 0 {
        '0'
    } else if d == 1 {
        '1'
    } else if d == 2 {
        '2'
    } else if d == 3 {
        '3'
    } else if d == 4 {
        '4'
    } else if d == 5 {
        '5'
    } else if d == 6 {
        '6'
    } else if d == 7 {
        '7'
    } else if d == 8 {
        '8'
    } else {
        '9'
    }
}

/// The decimal numeral of `n`, without sign or leading zeros.
pub open spec fn decimal(n: nat) -> Seq<char>
    decreases n,
{
    if n < 10 {
        seq![digit_char(n)]
    } else {
        decimal(n / 10).push(digit_char(n % 10))
    }
}

/// The members of `lines`, each pair of neighbours separated by `sep`.
pub open spec fn joined(lines: Seq<Seq<char>>, sep: Seq<char>) -> Seq<char>
    decreases lines.len(),
{
    if lines.len() == 0 {
        Seq::empty()
    } else if lines.len() == 1 {
        lines[0]
    } else {
        joined(lines.drop_last(), sep) + sep + lines.last()
    }
}

/// Whether `c` is white space.
pub fn is_whitespace(c: char) -> (b: bool)
    ensures
        b == is_space(c),
{
    let n: u32 = c as u32;
    (0x09 <= n && n <= 0x0D) || n == 0x20 || n == 0x85 || n == 0xA0 || n == 0x1680 || (0x2000 <= n
        && n <= 0x200A) || n == 0x2028 || n == 0x2029 || n == 0x202F || n == 0x205F || n == 0x3000
}

/// Trimming at the start leaves a suffix: what it removes is white space, and
/// what is left does not start with white space.
pub proof fn lemma_trim_start_is_suffix(s: Seq<char>)
    ensures
        trim_start(s).len() <= s.len(),
        trim_start(s) == s.skip(s.len() - trim_start(s).len()),
        forall|i: int| 0 <= i < s.len() - trim_start(s).len() ==> is_space(#[trigger] s[i]),
        trim_start(s).len() > 0 ==> !is_space(trim_start(s)[0]),
    decreases s.len(),
{
    if s.len() > 0 && is_space(s[0]) {
        let t = s.drop_first();
        lemma_trim_start_is_suffix(t);
        let k = t.len() - trim_start(t).len();
        assert(t.skip(k) =~= s.skip(k + 1));
        assert forall|i: int| 0 <= i < s.len() - trim_start(s).len() implies is_space(
            #[trigger] s[i],
        ) by {
            if i > 0 {
                assert(s[i] == t[i - 1]);
            }
        }
    } else {
        assert(s.skip(0) =~= s);
    }
}

/// Trimming at the end leaves a prefix: what it removes is white space, and
/// what is left does not end in white space.
pub proof fn lemma_trim_end_is_prefix(s: Seq<char>)
    ensures
        trim_end(s).len() <= s.len(),
        trim_end(s) == s.take(trim_end(s).len() as int),
        forall|i: int| trim_end(s).len() <= i < s.len() ==> is_space(#[trigger] s[i]),
        trim_end(s).len() > 0 ==> !is_space(trim_end(s).last()),
    decreases s.len(),
{
    if s.len() > 0 && is_space(s.last()) {
        let t = s.drop_last();
        lemma_trim_end_is_prefix(t);
        let k = trim_end(t).len() as int;
        assert(t.take(k) =~= s.take(k));
        assert forall|i: int| trim_end(s).len() <= i < s.len() implies is_space(
            #[trigger] s[i],
        ) by {
            if i < s.len() - 1 {
                assert(s[i] == t[i]);
            }
        }
    } else {
        assert(s.take(s.len() as int) =~= s);
    }
}

/// A text is blank exactly when each of its characters is white space.
pub proof fn lemma_blank_iff_all_space(s: Seq<char>)
    ensures
        is_blank(s) <==> (forall|i: int| 0 <= i < s.len() ==> is_space(#[trigger] s[i])),
{
    lemma_trim_start_is_suffix(s);
    let t = trim_start(s);
    lemma_trim_end_is_prefix(t);
    let k = s.len() - t.len();
    if is_blank(s) {
        assert forall|i: int| 0 <= i < s.len() implies is_space(#[trigger] s[i]) by {
            if i >= k {
                assert(t[i - k] == s[i]);
            }
        }
    }
    if forall|i: int| 0 <= i < s.len() ==> is_space(#[trigger] s[i]) {
        if t.len() > 0 {
            assert(t[0] == s[k]);
        }
    }
}

/// The text of `s` with leading and trailing white space removed.
pub fn trim(s: &str) -> (t: String)
    ensures
        t@ == trimmed(s@),
{
    let n = s.unicode_len();
    let mut i: usize = 0;
    proof {
        assert(s@.skip(0) =~= s@);
    }
    while i < n && is_whitespace(s.get_char(i))
        invariant
            i <= n,
            n == s@.len(),
            trim_start(s@) == trim_start(s@.skip(i as int)),
        decreases n - i,
    {
        proof {
            assert(s@.skip(i as int)[0] == s@[i as int]);
            assert(s@.skip(i as int).drop_first() =~= s@.skip(i as int + 1));
        }
        i = i + 1;
    }
    proof {
        if i < n {
            assert(s@.skip(i as int)[0] == s@[i as int]);
        }
        assert(trim_start(s@) == s@.skip(i as int));
    }
    let ghost rest = s@.skip(i as int);
    let mut j: usize = n;
    proof {
        assert(rest.take(n - i) =~= rest);
    }
    while j > i && is_whitespace(s.get_char(j - 1))
        invariant
            i <= j <= n,
            n == s@.len(),
            rest == s@.skip(i as int),
            trim_end(rest) == trim_end(rest.take(j - i)),
        decreases j,
    {
        proof {
            assert(rest.take(j - i).last() == s@[j - 1]);
            assert(rest.take(j - i).drop_last() =~= rest.take(j - i - 1));
        }
        j = j - 1;
    }
    proof {
        if j > i {
            assert(rest.take(j - i).last() == s@[j - 1]);
        }
        assert(trim_end(rest) == rest.take(j - i));
        assert(rest.take(j - i) =~= s@.subrange(i as int, j as int));
    }
    s.substring_char(i, j).to_owned()
}

/// Whether `s` is empty once trimmed.
pub fn blank(s: &str) -> (b: bool)
    ensures
        b == is_blank(s@),
{
    let t = trim(s);
    t.as_str().unicode_len() == 0
}

/// Whether two texts hold the same characters.
pub fn same_text(a: &str, b: &str) -> (r: bool)
    ensures
        r == (a@ == b@),
{
    let n = a.unicode_len();
    if n != b.unicode_len() {
        return false;
    }
    let mut i: usize = 0;
    while i < n
        invariant
            i <= n,
            n == a@.len(),
            n == b@.len(),
            forall|k: int| 0 <= k < i ==> a@[k] == b@[k],
        decreases n - i,
    {
        if a.get_char(i) != b.get_char(i) {
            return false;
        }
        i = i + 1;
    }
    proof {
        assert(a@ =~= b@);
    }
    true
}

/// `a` followed by `b`.
pub fn concat2(a: &str, b: &str) -> (r: String)
    ensures
        r@ == a@ + b@,
{
    let mut r = a.to_owned();
    r.append(b);
    r
}

/// `a`, then `b`, then `c`.
pub fn concat3(a: &str, b: &str, c: &str) -> (r: String)
    ensures
        r@ == a@ + b@ + c@,
{
    let mut r = a.to_owned();
    r.append(b);
    r.append(c);
    r
}

fn digit_text(d: u32) -> (s: &'static str)
    requires
        d < 10,
    ensures
        s@ == seq![digit_char(d as nat)],
{
    proof {
        reveal_strlit("0");
        reveal_strlit("1");
        reveal_strlit("2");
        reveal_strlit("3");
        reveal_strlit("4");
        reveal_strlit("5");
        reveal_strlit("6");
        reveal_strlit("7");
        reveal_strlit("8");
        reveal_strlit("9");
    }
    let s = if d == 0 {
        "0"
    } else if d == 1 {
        "1"
    } else if d == 2 {
        "2"
    } else if d == 3 {
        "3"
    } else if d == 4 {
        "4"
    } else if d == 5 {
        "5"
    } else if d == 6 {
        "6"
    } else if d == 7 {
        "7"
    } else if d == 8 {
        "8"
    } else {
        "9"
    };
    assert(s@ =~= seq![digit_char(d as nat)]);
    s
}

/// The decimal numeral of `n`.
pub fn decimal_text(n: u32) -> (s: String)
    ensures
        s@ == decimal(n as nat),
    decreases n,
{
    if n < 10 {
        digit_text(n).to_owned()
    } else {
        let mut s = decimal_text(n / 10);
        s.append(digit_text(n % 10));
        assert(s@ =~= decimal((n / 10) as nat).push(digit_char((n % 10) as nat)));
        s
    }
}

/// Appends `line` to `lines`.
pub fn push_text(lines: &mut Vec<String>, line: String)
    ensures
        final(lines).deep_view() == old(lines).deep_view().push(line@),
{
    lines.push(line);
    assert(lines.deep_view() =~= old(lines).deep_view().push(line@));
}

/// The members of `lines` with `sep` between each two neighbours.
pub fn join_lines(lines: &Vec<String>, sep: &str) -> (r: String)
    ensures
        r@ == joined(lines.deep_view(), sep@),
{
    let mut r = String::new();
    let n = lines.len();
    let mut i: usize = 0;
    while i < n
        invariant
            i <= n,
            n == lines.len(),
            r@ == joined(lines.deep_view().take(i as int), sep@),
        decreases n - i,
    {
        proof {
            let cur = lines.deep_view().take(i as int + 1);
            assert(cur.drop_last() =~= lines.deep_view().take(i as int));
            assert(cur.last() == lines[i as int]@);
        }
        if i > 0 {
            r.append(sep);
        }
        r.append(lines[i].as_str());
        proof {
            let cur = lines.deep_view().take(i as int + 1);
            if i == 0 {
                assert(cur.len() == 1);
                assert(r@ =~= cur[0]);
            } else {
                assert(r@ =~= joined(cur.drop_last(), sep@) + sep@ + cur.last());
            }
        }
        i = i + 1;
    }
    proof {
        assert(lines.deep_view().take(n as int) =~= lines.deep_view());
    }
    r
}

} // verus!
