//! Text as a sequence of characters.
use crate::model::Model;
use vstd::prelude::*;

verus! {

/// `String::push`: the character comes behind the others.
pub assume_specification[ std::string::String::push ](s: &mut String, c: char)
    ensures
        final(s)@ == old(s)@.push(c),
;

/// Whether two texts are the same.
pub fn eq(a: &str, b: &str) -> (r: bool)
    ensures
        r == (a@ == b@),
{
    a.to_owned() == b.to_owned()
}

/// Whether a text is empty.
pub fn is_empty(s: &str) -> (r: bool)
    ensures
        r == (s@.len() == 0),
{
    s.unicode_len() == 0
}

/// Whether `c` occurs in a text.
pub fn contains(s: &str, c: char) -> (r: bool)
    ensures
        r == s@.contains(c),
{
    proof {
        lemma_index_of(s@, c);
    }
    find(s, c) < s.unicode_len()
}

/// What stands from the `i`-th character on.
pub fn from(s: &str, i: usize) -> (r: &str)
    requires
        i <= s@.len(),
    ensures
        r@ == s@.skip(i as int),
{
    let n = s.unicode_len();
    let r = s.substring_char(i, n);
    assert(r@ =~= s@.skip(i as int));
    r
}

/// What stands behind `prefix`, if the text starts with it.
pub fn strip_prefix<'a>(s: &'a str, prefix: &str) -> (r: Option<&'a str>)
    ensures
        match r {
            Some(rest) => s@ == prefix@ + rest@,
            None => !prefix@.is_prefix_of(s@),
        },
{
    let n = s.unicode_len();
    let k = prefix.unicode_len();
    if k > n {
        return None;
    }
    let head = s.substring_char(0, k);
    if eq(head, prefix) {
        let rest = s.substring_char(k, n);
        assert(s@ =~= prefix@ + rest@);
        Some(rest)
    } else {
        assert(head@ =~= s@.take(k as int));
        proof {
            if prefix@.is_prefix_of(s@) {
                assert(head@ =~= prefix@);
            }
        }
        None
    }
}

/// The texts, with `sep` between each two.
pub open spec fn joined(texts: Seq<Seq<char>>, sep: Seq<char>) -> Seq<char>
    decreases texts.len(),
{
    if texts.len() == 0 {
        Seq::empty()
    } else if texts.len() == 1 {
        texts[0]
    } else {
        joined(texts.drop_last(), sep) + sep + texts.last()
    }
}

/// Joins the texts with `sep` between each two.
pub fn join(texts: &Vec<String>, sep: &str) -> (r: String)
    ensures
        r@ == joined(texts.v(), sep@),
{
    let mut out = String::new();
    let mut i: usize = 0;
    assert(texts.v().take(0) =~= Seq::empty());
    while i < texts.len()
        invariant
            i <= texts@.len(),
            out@ == joined(texts.v().take(i as int), sep@),
        decreases texts.len() - i,
    {
        assert(texts.v().take(i + 1).drop_last() =~= texts.v().take(i as int));
        assert(texts.v().take(i + 1).last() == texts@[i as int]@);
        if i > 0 {
            out.append(sep);
        }
        out.append(texts[i].as_str());
        assert(out@ =~= joined(texts.v().take(i + 1), sep@));
        i = i + 1;
    }
    assert(texts.v().take(i as int) =~= texts.v());
    out
}

/// The digit that stands for a number below ten.
pub open spec fn digit(n: nat) -> char {
    ((('0' as int) + n % 10) as u8) as char
}

/// A number in decimal.
pub open spec fn decimal(n: nat) -> Seq<char>
    decreases n,
{
    if n < 10 {
        seq![digit(n)]
    } else {
        decimal(n / 10).push(digit(n))
    }
}

/// Two numbers that are written the same way are the same.
pub proof fn lemma_decimal_once(a: nat, b: nat)
    requires
        decimal(a) == decimal(b),
    ensures
        a == b,
    decreases a,
{
    lemma_decimal_len(a);
    lemma_decimal_len(b);
    let x = decimal(a);
    let y = decimal(b);
    assert(x.last() == digit(a));
    assert(y.last() == digit(b));
    assert(a % 10 == b % 10);
    if a < 10 && b < 10 {
    } else if a >= 10 && b >= 10 {
        assert(x.drop_last() =~= decimal(a / 10));
        assert(y.drop_last() =~= decimal(b / 10));
        lemma_decimal_once(a / 10, b / 10);
    } else if a < 10 {
        lemma_decimal_len(b / 10);
        assert(x.len() == 1 && y.len() >= 2);
    } else {
        lemma_decimal_len(a / 10);
        assert(y.len() == 1 && x.len() >= 2);
    }
}

proof fn lemma_decimal_len(n: nat)
    ensures
        decimal(n).len() >= 1,
    decreases n,
{
    if n >= 10 {
        lemma_decimal_len(n / 10);
    }
}

/// Writes a number in decimal.
pub fn number(n: u64) -> (r: String)
    ensures
        r@ == decimal(n as nat),
    decreases n,
{
    let mut out = if n < 10 {
        String::new()
    } else {
        number(n / 10)
    };
    let c: char = (48u8 + (n % 10) as u8) as char;
    out.push(c);
    assert(n < 10 ==> out@ =~= seq![digit(n as nat)]);
    out
}

/// Whether a text stands before another in the order of their characters.
pub open spec fn less(a: Seq<char>, b: Seq<char>) -> bool
    decreases a.len(),
{
    if b.len() == 0 {
        false
    } else if a.len() == 0 {
        true
    } else {
        a[0] < b[0] || a[0] == b[0] && less(a.skip(1), b.skip(1))
    }
}

/// The order of texts is transitive.
pub proof fn lemma_less_transitive(a: Seq<char>, b: Seq<char>, c: Seq<char>)
    requires
        less(a, b),
        less(b, c),
    ensures
        less(a, c),
    decreases a.len(),
{
    if a.len() > 0 && a[0] == b[0] && b[0] == c[0] {
        lemma_less_transitive(a.skip(1), b.skip(1), c.skip(1));
    }
}

/// Of two different texts one stands before the other.
pub proof fn lemma_less_total(a: Seq<char>, b: Seq<char>)
    ensures
        less(a, b) || a == b || less(b, a),
        !(less(a, b) && less(b, a)),
        a == b ==> !less(a, b),
    decreases a.len(),
{
    if a.len() > 0 && b.len() > 0 {
        lemma_less_total(a.skip(1), b.skip(1));
        if a[0] == b[0] && a.skip(1) == b.skip(1) {
            assert(a =~= seq![a[0]] + a.skip(1));
            assert(b =~= seq![b[0]] + b.skip(1));
        }
    } else {
        assert(a.len() == 0 && b.len() == 0 ==> a =~= b);
    }
}

/// Whether a text stands before another.
pub fn before_text(a: &str, b: &str) -> (r: bool)
    ensures
        r == less(a@, b@),
{
    let n = a.unicode_len();
    let m = b.unicode_len();
    let mut i: usize = 0;
    assert(a@.skip(0) =~= a@);
    assert(b@.skip(0) =~= b@);
    while i < n && i < m
        invariant
            i <= n,
            i <= m,
            n == a@.len(),
            m == b@.len(),
            less(a@, b@) == less(a@.skip(i as int), b@.skip(i as int)),
        decreases n - i,
    {
        let x = a.get_char(i);
        let y = b.get_char(i);
        assert(a@.skip(i as int)[0] == x);
        assert(b@.skip(i as int)[0] == y);
        if x != y {
            return x < y;
        }
        assert(a@.skip(i as int).skip(1) =~= a@.skip(i + 1));
        assert(b@.skip(i as int).skip(1) =~= b@.skip(i + 1));
        i = i + 1;
    }
    i < m
}

/// Where `c` first stands in the text; its length if nowhere.
pub open spec fn index_of(s: Seq<char>, c: char) -> int
    decreases s.len(),
{
    if s.len() == 0 {
        0
    } else if s[0] == c {
        0
    } else {
        1 + index_of(s.skip(1), c)
    }
}

/// `index_of` is where the first such character stands.
pub proof fn lemma_index_of(s: Seq<char>, c: char)
    ensures
        0 <= index_of(s, c) <= s.len(),
        index_of(s, c) < s.len() ==> s[index_of(s, c)] == c,
        forall|i: int| 0 <= i < index_of(s, c) ==> s[i] != c,
    decreases s.len(),
{
    if s.len() > 0 && s[0] != c {
        lemma_index_of(s.skip(1), c);
        assert forall|i: int| 0 <= i < index_of(s, c) implies s[i] != c by {
            if i > 0 {
                assert(s[i] == s.skip(1)[i - 1]);
            }
        }
    }
}

/// What stands before the first `c`: all of it, where there is none.
pub open spec fn before(s: Seq<char>, c: char) -> Seq<char> {
    s.take(index_of(s, c))
}

/// What stands behind the first `c`: nothing, where there is none.
pub open spec fn behind(s: Seq<char>, c: char) -> Seq<char> {
    if index_of(s, c) < s.len() {
        s.skip(index_of(s, c) + 1)
    } else {
        Seq::empty()
    }
}

/// Finds where `c` first stands.
pub fn find(s: &str, c: char) -> (r: usize)
    ensures
        r == index_of(s@, c),
        r <= s@.len(),
{
    let n = s.unicode_len();
    let mut i: usize = 0;
    while i < n
        invariant
            i <= n,
            n == s@.len(),
            forall|j: int| 0 <= j < i ==> s@[j] != c,
        decreases n - i,
    {
        if s.get_char(i) == c {
            proof {
                lemma_index_of(s@, c);
            }
            return i;
        }
        i = i + 1;
    }
    proof {
        lemma_index_of(s@, c);
    }
    n
}

pub fn take_before(s: &str, c: char) -> (r: String)
    ensures
        r@ == before(s@, c),
{
    let i = find(s, c);
    s.substring_char(0, i).to_owned()
}

pub fn take_behind(s: &str, c: char) -> (r: String)
    ensures
        r@ == behind(s@, c),
{
    let i = find(s, c);
    let n = s.unicode_len();
    if i < n {
        s.substring_char(i + 1, n).to_owned()
    } else {
        let r = String::new();
        r
    }
}

/// What stands behind the last `c`: all of it, where there is none.
pub open spec fn last_piece(s: Seq<char>, c: char) -> Seq<char>
    decreases s.len(),
{
    if s.len() == 0 {
        s
    } else if s.last() == c {
        Seq::empty()
    } else {
        last_piece(s.drop_last(), c).push(s.last())
    }
}

/// `last_piece` is the end of the text in which `c` does not occur.
pub proof fn lemma_last_piece(s: Seq<char>, c: char, from: int)
    requires
        0 <= from <= s.len(),
        forall|i: int| from <= i < s.len() ==> s[i] != c,
        from > 0 ==> s[from - 1] == c,
    ensures
        last_piece(s, c) == s.skip(from),
    decreases s.len(),
{
    if from < s.len() {
        lemma_last_piece(s.drop_last(), c, from);
        assert(s.drop_last().skip(from).push(s.last()) =~= s.skip(from));
    } else {
        assert(s.skip(from) =~= Seq::empty());
    }
}

pub fn take_last_piece(s: &str, c: char) -> (r: &str)
    ensures
        r@ == last_piece(s@, c),
{
    let n = s.unicode_len();
    let mut i: usize = n;
    while i > 0
        invariant
            i <= n,
            n == s@.len(),
            forall|j: int| i <= j < n ==> s@[j] != c,
        decreases i,
    {
        if s.get_char(i - 1) == c {
            proof {
                lemma_last_piece(s@, c, i as int);
            }
            return s.substring_char(i, n);
        }
        i = i - 1;
    }
    proof {
        lemma_last_piece(s@, c, 0);
    }
    s.substring_char(0, n)
}

/// Whether a name fits a glob from `i` and `j` on: `*` stands for any run of
/// characters, any other character for itself.
pub open spec fn fits_from(pattern: Seq<char>, i: int, name: Seq<char>, j: int) -> bool
    decreases pattern.len() - i, name.len() - j,
{
    if i < 0 || j < 0 || i >= pattern.len() || j > name.len() {
        j == name.len()
    } else if pattern[i] == '*' {
        fits_from(pattern, i + 1, name, j) || j < name.len() && fits_from(pattern, i, name, j + 1)
    } else {
        j < name.len() && pattern[i] == name[j] && fits_from(pattern, i + 1, name, j + 1)
    }
}

/// Whether a name fits a glob.
pub open spec fn fits(pattern: Seq<char>, name: Seq<char>) -> bool {
    fits_from(pattern, 0, name, 0)
}

fn fits_at(pattern: &str, i: usize, name: &str, j: usize) -> (r: bool)
    requires
        i <= pattern@.len(),
        j <= name@.len(),
    ensures
        r == fits_from(pattern@, i as int, name@, j as int),
    decreases pattern@.len() - i, name@.len() - j,
{
    let n = name.unicode_len();
    if i >= pattern.unicode_len() {
        j == n
    } else {
        let c = pattern.get_char(i);
        if c == '*' {
            fits_at(pattern, i + 1, name, j) || j < n && fits_at(pattern, i, name, j + 1)
        } else {
            j < n && c == name.get_char(j) && fits_at(pattern, i + 1, name, j + 1)
        }
    }
}

/// Whether a name fits a glob.
pub fn glob(pattern: &str, name: &str) -> (r: bool)
    ensures
        r == fits(pattern@, name@),
{
    fits_at(pattern, 0, name, 0)
}

/// A letter as a small one.
pub open spec fn lower_char(c: char) -> char {
    if 'A' <= c <= 'Z' {
        ((c as u32) + 32) as char
    } else {
        c
    }
}

/// A text in small letters.
pub open spec fn lower(s: Seq<char>) -> Seq<char> {
    s.map_values(|c: char| lower_char(c))
}

/// Whether a character belongs to a word.
pub open spec fn is_word_char(c: char) -> bool {
    'a' <= c <= 'z' || 'A' <= c <= 'Z' || '0' <= c <= '9'
}

/// The words of a text, in order: its longest runs of letters and digits.
pub open spec fn words(s: Seq<char>) -> Seq<Seq<char>>
    decreases s.len(),
{
    if s.len() == 0 {
        Seq::empty()
    } else {
        let front = words(s.drop_last());
        let c = s.last();
        if !is_word_char(c) {
            front
        } else if s.len() >= 2 && is_word_char(s[s.len() - 2]) && front.len() > 0 {
            front.drop_last().push(front.last().push(c))
        } else {
            front.push(seq![c])
        }
    }
}

/// Whether a text holds another at `i`.
pub open spec fn holds_at(s: Seq<char>, part: Seq<char>, i: int) -> bool {
    0 <= i && i + part.len() <= s.len() && s.subrange(i, i + part.len()) == part
}

/// Whether a text holds another.
pub open spec fn holds(s: Seq<char>, part: Seq<char>) -> bool {
    exists|i: int| #[trigger] holds_at(s, part, i)
}

/// A text in small letters.
pub fn to_lower(s: &str) -> (r: String)
    ensures
        r@ == lower(s@),
{
    let n = s.unicode_len();
    let mut out = String::new();
    let mut i: usize = 0;
    assert(out@ =~= lower(s@).take(0));
    while i < n
        invariant
            i <= n,
            n == s@.len(),
            out@ == lower(s@).take(i as int),
        decreases n - i,
    {
        let c = s.get_char(i);
        let small = if 'A' <= c && c <= 'Z' {
            (c as u8 + 32) as char
        } else {
            c
        };
        out.push(small);
        i = i + 1;
        assert(out@ =~= lower(s@).take(i as int));
    }
    assert(out@ =~= lower(s@));
    out
}

fn in_word(c: char) -> (r: bool)
    ensures
        r == is_word_char(c),
{
    ('a' <= c && c <= 'z') || ('A' <= c && c <= 'Z') || ('0' <= c && c <= '9')
}

/// The words of a text, in order.
pub fn split_words(s: &str) -> (r: Vec<String>)
    ensures
        r.v() == words(s@),
{
    let n = s.unicode_len();
    let mut out: Vec<String> = crate::model::none();
    let mut inside = false;
    let mut i: usize = 0;
    assert(s@.take(0) =~= Seq::empty());
    while i < n
        invariant
            i <= n,
            n == s@.len(),
            out.v() == words(s@.take(i as int)),
            inside == (i > 0 && is_word_char(s@[i - 1])),
        decreases n - i,
    {
        let c = s.get_char(i);
        assert(s@.take(i + 1).drop_last() =~= s@.take(i as int));
        assert(s@.take(i + 1).last() == c);
        if in_word(c) {
            if inside && out.len() > 0 {
                let ghost before = out.v();
                let last = out.len() - 1;
                let mut word = crate::model::take_out(&mut out, last);
                word.push(c);
                crate::model::append_one(&mut out, word);
                assert(before.remove(last as int) =~= before.drop_last());
            } else {
                let mut word = String::new();
                word.push(c);
                assert(word@ =~= seq![c]);
                crate::model::append_one(&mut out, word);
            }
            inside = true;
        } else {
            inside = false;
        }
        i = i + 1;
    }
    assert(s@.take(i as int) =~= s@);
    out
}

fn is_at(s: &str, part: &str, i: usize) -> (r: bool)
    requires
        i + part@.len() <= s@.len(),
    ensures
        r == holds_at(s@, part@, i as int),
{
    let len = s.unicode_len();
    let n = part.unicode_len();
    let mut k: usize = 0;
    while k < n
        invariant
            k <= n,
            n == part@.len(),
            len == s@.len(),
            i + n <= len,
            forall|j: int| 0 <= j < k ==> s@[i + j] == #[trigger] part@[j],
        decreases n - k,
    {
        if s.get_char(i + k) != part.get_char(k) {
            assert(s@.subrange(i as int, i + n)[k as int] != part@[k as int]);
            return false;
        }
        k = k + 1;
    }
    assert(s@.subrange(i as int, i + n) =~= part@);
    true
}

/// Whether a text holds another.
pub fn has_part(s: &str, part: &str) -> (r: bool)
    ensures
        r == holds(s@, part@),
{
    let n = s.unicode_len();
    let m = part.unicode_len();
    if m > n {
        return false;
    }
    let mut i: usize = 0;
    while i <= n - m
        invariant
            m <= n,
            i <= n - m + 1,
            n == s@.len(),
            m == part@.len(),
            forall|j: int| 0 <= j < i ==> !#[trigger] holds_at(s@, part@, j),
        decreases n - m + 1 - i,
    {
        if is_at(s, part, i) {
            return true;
        }
        if i == n - m {
            return false;
        }
        i = i + 1;
    }
    false
}

} // verus!
