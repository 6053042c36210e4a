//! Text operations on which the planning rests: replacing placeholders,
//! writing numbers in decimal, lower-casing names and handling paths.

use vstd::prelude::*;
use vstd::string::*;

verus! {

/// Calls `String::push`, which, as its documentation says, appends `c` to
/// the end of the string.  Claimed here: the new text is the old one with
/// `c` after it.
#[verifier::external_body]
fn push_char(s: &mut String, c: char)
    ensures
        final(s)@ == old(s)@.push(c),
{
    s.push(c);
}

/// The characters of `s`, in order.
pub fn chars_of(s: &str) -> (v: Vec<char>)
    ensures
        v@ == s@,
{
    let mut v: Vec<char> = Vec::new();
    for c in it: s.chars()
        invariant
            v@ == it.seq().take(it.index() as int),
    {
        v.push(c);
    }
    v
}


/// `s` with every occurrence of `pat` replaced by `rep`, scanning from the
/// left and never letting two replaced occurrences overlap.  An empty
/// pattern matches before every character and once at the end.
pub open spec fn replaced(s: Seq<char>, pat: Seq<char>, rep: Seq<char>) -> Seq<char>
    decreases s.len(),
{
    if pat.len() == 0 {
        if s.len() == 0 {
            rep
        } else {
            rep + seq![s[0]] + replaced(s.drop_first(), pat, rep)
        }
    } else if s.len() < pat.len() {
        s
    } else if s.take(pat.len() as int) == pat {
        rep + replaced(s.skip(pat.len() as int), pat, rep)
    } else {
        seq![s[0]] + replaced(s.drop_first(), pat, rep)
    }
}

/// Whether `pat` occurs in `s` starting at position `i`.
fn occurs_at(s: &Vec<char>, pat: &Vec<char>, i: usize) -> (r: bool)
    requires
        i + pat.len() <= s.len(),
    ensures
        r == (s@.subrange(i as int, i + pat.len()) == pat@),
{
    let m = pat.len();
    let mut j: usize = 0;
    while j < m
        invariant
            j <= m,
            m == pat.len(),
            i + m <= s.len(),
            s@.subrange(i as int, i + j) == pat@.take(j as int),
        decreases m - j,
    {
        if s[i + j] != pat[j] {
            assert(s@.subrange(i as int, i + m)[j as int] != pat@[j as int]);
            return false;
        }
        assert(s@.subrange(i as int, i + j + 1) =~= pat@.take(j + 1));
        j = j + 1;
    }
    assert(pat@.take(m as int) =~= pat@);
    true
}

/// Replaces every occurrence of `pat` in `s` by `rep`, as `str::replace` does.
pub fn replace(s: &str, pat: &str, rep: &str) -> (r: String)
    ensures
        r@ == replaced(s@, pat@, rep@),
{
    let sv = chars_of(s);
    let pv = chars_of(pat);
    let n = sv.len();
    let m = pv.len();
    let mut out = String::new();
    let mut i: usize = 0;
    assert(s@.skip(0) =~= s@);
    while i < n
        invariant
            i <= n,
            sv@ == s@,
            pv@ == pat@,
            n == sv@.len(),
            m == pv@.len(),
            out@ + replaced(s@.skip(i as int), pat@, rep@) == replaced(s@, pat@, rep@),
        decreases n - i,
    {
        let ghost rest = s@.skip(i as int);
        let ghost before = out@;
        assert(rest[0] == sv@[i as int]);
        assert(rest.drop_first() =~= s@.skip(i + 1));
        if m == 0 {
            out.append(rep);
            push_char(&mut out, sv[i]);
            assert(out@ + replaced(s@.skip(i + 1), pat@, rep@) =~= before + replaced(rest, pat@, rep@));
            i = i + 1;
        } else if m <= n - i && occurs_at(&sv, &pv, i) {
            assert(rest.take(m as int) =~= s@.subrange(i as int, i + m));
            assert(rest.skip(m as int) =~= s@.skip(i + m));
            out.append(rep);
            assert(out@ + replaced(s@.skip(i + m), pat@, rep@) =~= before + replaced(rest, pat@, rep@));
            i = i + m;
        } else {
            if m <= n - i {
                assert(rest.take(m as int) =~= s@.subrange(i as int, i + m));
            } else {
                assert(replaced(rest.drop_first(), pat@, rep@) == rest.drop_first());
                assert(rest =~= seq![rest[0]] + rest.drop_first());
            }
            push_char(&mut out, sv[i]);
            assert(out@ + replaced(s@.skip(i + 1), pat@, rep@) =~= before + replaced(rest, pat@, rep@));
            i = i + 1;
        }
    }
    assert(s@.skip(n as int) =~= Seq::<char>::empty());
    if m == 0 {
        out.append(rep);
    }
    assert(out@ =~= replaced(s@, pat@, rep@));
    out
}


/// The character of the decimal digit `d`.
pub open spec fn digit_char(d: nat) -> char
    recommends
        d < 10,
{
    (d + 48) as char
}

/// The decimal notation of `n`, with no sign and no leading zeros.
pub open spec fn decimal(n: nat) -> Seq<char>
    decreases n,
{
    if n < 10 {
        seq![digit_char(n)]
    } else {
        decimal(n / 10).push(digit_char(n % 10))
    }
}

fn push_decimal(out: &mut String, n: u64)
    ensures
        final(out)@ == old(out)@ + decimal(n as nat),
    decreases n,
{
    if n >= 10 {
        push_decimal(out, n / 10);
    }
    let d: u8 = (n % 10) as u8;
    let c: char = (d + 48) as char;
    push_char(out, c);
    assert(out@ =~= old(out)@ + decimal(n as nat));
}

/// The decimal notation of `n`, as `format!("{n}")` writes it.
pub fn decimal_string(n: u64) -> (r: String)
    ensures
        r@ == decimal(n as nat),
{
    let mut out = String::new();
    push_decimal(&mut out, n);
    assert(out@ =~= decimal(n as nat));
    out
}


/// The ASCII lower-case form of `c`: upper-case ASCII letters become their
/// lower-case letters, every other character stays as it is.
pub open spec fn lower_char(c: char) -> char {
    if 'A' <= c && c <= 'Z' {
        ((c as u32) + 32) as char
    } else {
        c
    }
}

/// `s` with every upper-case ASCII letter made lower-case.
pub open spec fn ascii_lower(s: Seq<char>) -> Seq<char> {
    s.map_values(|c: char| lower_char(c))
}

/// Lower-cases the ASCII letters of `s`; on ASCII text this is what
/// `str::to_lowercase` computes.
pub fn lowercase_ascii(s: &str) -> (r: String)
    ensures
        r@ == ascii_lower(s@),
{
    let sv = chars_of(s);
    let mut out = String::new();
    let mut i: usize = 0;
    while i < sv.len()
        invariant
            i <= sv.len(),
            sv@ == s@,
            out@ == ascii_lower(s@.take(i as int)),
        decreases sv.len() - i,
    {
        let c = sv[i];
        let l: char = if 'A' <= c && c <= 'Z' {
            let code: u8 = (c as u8) + 32;
            code as char
        } else {
            c
        };
        push_char(&mut out, l);
        assert(ascii_lower(s@.take(i + 1)) =~= ascii_lower(s@.take(i as int)).push(lower_char(c)));
        i = i + 1;
    }
    assert(s@.take(sv.len() as int) =~= s@);
    out
}

/// The path `part` joined onto `base` as `Path::join` does it on Unix: an
/// absolute `part` replaces `base`; otherwise a separator goes between the
/// two unless `base` is empty or already ends with one.
pub open spec fn joined(base: Seq<char>, part: Seq<char>) -> Seq<char> {
    if part.len() > 0 && part[0] == '/' {
        part
    } else if base.len() == 0 || base.last() == '/' {
        base + part
    } else {
        base + seq!['/'] + part
    }
}

/// Joins `part` onto the path `base`, as `Path::join` does on Unix.
pub fn join_path(base: &str, part: &str) -> (r: String)
    ensures
        r@ == joined(base@, part@),
{
    let bv = chars_of(base);
    let pv = chars_of(part);
    if pv.len() > 0 && pv[0] == '/' {
        return part.to_owned();
    }
    let mut out = base.to_owned();
    if bv.len() > 0 && bv[bv.len() - 1] != '/' {
        push_char(&mut out, '/');
    }
    out.append(part);
    out
}

/// The text after the last `/` of `p`, or all of `p` if it holds none.
pub open spec fn after_last_slash(p: Seq<char>) -> Seq<char>
    decreases p.len(),
{
    if p.len() == 0 {
        p
    } else if p.last() == '/' {
        Seq::empty()
    } else {
        after_last_slash(p.drop_last()).push(p.last())
    }
}

/// The text after the last `/` of `p`; for a path whose last component is
/// not `.` or `..`, that is what `Path::file_name` gives.
pub fn last_component(p: &str) -> (r: String)
    ensures
        r@ == after_last_slash(p@),
{
    let pv = chars_of(p);
    let mut out = String::new();
    let mut i: usize = 0;
    while i < pv.len()
        invariant
            i <= pv.len(),
            pv@ == p@,
            out@ == after_last_slash(p@.take(i as int)),
        decreases pv.len() - i,
    {
        assert(p@.take(i + 1).drop_last() =~= p@.take(i as int));
        if pv[i] == '/' {
            out = String::new();
        } else {
            push_char(&mut out, pv[i]);
        }
        i = i + 1;
    }
    assert(p@.take(pv.len() as int) =~= p@);
    out
}


/// Whether `pat` occurs somewhere in `s`.
pub open spec fn occurs_in(s: Seq<char>, pat: Seq<char>) -> bool {
    exists|i: int| 0 <= i && i + pat.len() <= s.len() && #[trigger] s.subrange(i, i + pat.len()) == pat
}

/// Replacing a non-empty pattern that does not occur leaves the text as it is.
pub proof fn lemma_replace_absent(s: Seq<char>, pat: Seq<char>, rep: Seq<char>)
    requires
        pat.len() > 0,
        !occurs_in(s, pat),
    ensures
        replaced(s, pat, rep) == s,
    decreases s.len(),
{
    if s.len() >= pat.len() {
        assert(s.take(pat.len() as int) != pat) by {
            assert(s.subrange(0int, 0int + pat.len()) =~= s.take(pat.len() as int));
            if s.take(pat.len() as int) == pat {
                assert(occurs_in(s, pat));
            }
        }
        let t = s.drop_first();
        assert(!occurs_in(t, pat)) by {
            if occurs_in(t, pat) {
                let i = choose|i: int| 0 <= i && i + pat.len() <= t.len() && #[trigger] t.subrange(i, i + pat.len()) == pat;
                assert(s.subrange(i + 1, i + 1 + pat.len()) =~= t.subrange(i, i + pat.len()));
            }
        }
        lemma_replace_absent(t, pat, rep);
        assert(s =~= seq![s[0]] + t);
    }
}

/// Replacing a non-empty pattern by itself leaves the text as it is.
pub proof fn lemma_replace_by_itself(s: Seq<char>, pat: Seq<char>)
    requires
        pat.len() > 0,
    ensures
        replaced(s, pat, pat) == s,
    decreases s.len(),
{
    if s.len() >= pat.len() {
        if s.take(pat.len() as int) == pat {
            lemma_replace_by_itself(s.skip(pat.len() as int), pat);
            assert(s =~= s.take(pat.len() as int) + s.skip(pat.len() as int));
        } else {
            lemma_replace_by_itself(s.drop_first(), pat);
            assert(s =~= seq![s[0]] + s.drop_first());
        }
    }
}

/// The number written by a sequence of decimal digits.
pub open spec fn decimal_value(digits: Seq<char>) -> int
    decreases digits.len(),
{
    if digits.len() == 0 {
        0
    } else {
        decimal_value(digits.drop_last()) * 10 + (digits.last() as int - 48)
    }
}

/// The decimal notation of `n` is made of digits only and writes `n`.
pub proof fn lemma_decimal_denotes(n: nat)
    ensures
        decimal(n).len() > 0,
        forall|i: int| 0 <= i < decimal(n).len() ==> '0' <= #[trigger] decimal(n)[i] <= '9',
        decimal_value(decimal(n)) == n,
    decreases n,
{
    assert(digit_char(n % 10) as int == n % 10 + 48);
    if n >= 10 {
        lemma_decimal_denotes(n / 10);
        let d = decimal(n);
        assert(d.drop_last() =~= decimal(n / 10));
        assert(forall|i: int| 0 <= i < d.len() - 1 ==> d[i] == decimal(n / 10)[i]);
        assert(n == (n / 10) * 10 + n % 10);
        assert(d.last() == digit_char(n % 10));
        assert(decimal_value(d) == decimal_value(d.drop_last()) * 10 + (d.last() as int - 48));
    } else {
        let d = decimal(n);
        assert(d.drop_last() =~= Seq::<char>::empty());
        assert(decimal_value(d) == decimal_value(d.drop_last()) * 10 + (d.last() as int - 48));
    }
}


/// Whether `s` holds no `/`.
pub open spec fn slash_free(s: Seq<char>) -> bool {
    forall|i: int| 0 <= i < s.len() ==> #[trigger] s[i] != '/'
}

/// Text with no `/` appended to a path becomes part of its last component;
/// after a trailing `/` it is the whole of it.
pub proof fn lemma_after_last_slash_append(a: Seq<char>, b: Seq<char>)
    requires
        slash_free(b),
    ensures
        after_last_slash(a + b) == after_last_slash(a) + b,
        a.len() > 0 && a.last() == '/' ==> after_last_slash(a + b) == b,
    decreases b.len(),
{
    if b.len() == 0 {
        assert(a + b =~= a);
    } else {
        lemma_after_last_slash_append(a, b.drop_last());
        assert((a + b).drop_last() =~= a + b.drop_last());
        assert((a + b).last() == b.last());
        assert(after_last_slash(a) + b =~= (after_last_slash(a) + b.drop_last()).push(b.last()));
    }
}


/// A text that starts with a non-empty pattern has that occurrence replaced
/// and the rest handled on its own.
pub proof fn lemma_replace_leading_match(s: Seq<char>, pat: Seq<char>, rep: Seq<char>)
    requires
        pat.len() > 0,
    ensures
        replaced(pat + s, pat, rep) == rep + replaced(s, pat, rep),
{
    let t = pat + s;
    assert(t.take(pat.len() as int) =~= pat);
    assert(t.skip(pat.len() as int) =~= s);
}

/// A character that does not start an occurrence of a non-empty pattern is
/// kept, and the rest handled on its own.
pub proof fn lemma_replace_leading_other(c: char, s: Seq<char>, pat: Seq<char>, rep: Seq<char>)
    requires
        pat.len() > 0,
        c != pat[0],
    ensures
        replaced(seq![c] + s, pat, rep) == seq![c] + replaced(s, pat, rep),
{
    let t = seq![c] + s;
    assert(t.drop_first() =~= s);
    if t.len() >= pat.len() {
        assert(t.take(pat.len() as int)[0] == c);
    } else {
        lemma_replace_absent(s, pat, rep);
        assert(!occurs_in(s, pat));
    }
}

/// A text shorter than a non-empty pattern is kept as it is, and so is the
/// empty text.
pub proof fn lemma_replace_short(s: Seq<char>, pat: Seq<char>, rep: Seq<char>)
    requires
        pat.len() > 0,
        s.len() < pat.len(),
    ensures
        replaced(s, pat, rep) == s,
{
}

/// With an empty pattern, the replacement goes before every character and
/// once more at the end.
pub proof fn lemma_replace_empty_pattern(c: char, s: Seq<char>, rep: Seq<char>)
    ensures
        replaced(Seq::<char>::empty(), Seq::<char>::empty(), rep) == rep,
        replaced(seq![c] + s, Seq::<char>::empty(), rep) == rep + seq![c] + replaced(
            s,
            Seq::<char>::empty(),
            rep,
        ),
{
    let t = seq![c] + s;
    assert(t.drop_first() =~= s);
}

/// A text that is exactly a non-empty pattern becomes the replacement.
pub proof fn lemma_replace_whole(pat: Seq<char>, rep: Seq<char>)
    requires
        pat.len() > 0,
    ensures
        replaced(pat, pat, rep) == rep,
{
    lemma_replace_leading_match(Seq::<char>::empty(), pat, rep);
    assert(pat + Seq::<char>::empty() =~= pat);
    assert(rep + Seq::<char>::empty() =~= rep);
}

/// A pattern cannot occur in a text that lacks its first character.
pub proof fn lemma_absent_without_first_char(s: Seq<char>, pat: Seq<char>)
    requires
        pat.len() > 0,
        forall|i: int| 0 <= i < s.len() ==> s[i] != pat[0],
    ensures
        !occurs_in(s, pat),
{
    if occurs_in(s, pat) {
        let i = choose|i: int| 0 <= i && i + pat.len() <= s.len() && #[trigger] s.subrange(i, i + pat.len()) == pat;
        assert(s.subrange(i, i + pat.len())[0] == s[i]);
    }
}

/// The decimal text of a number holds no `{`, so no placeholder.
pub proof fn lemma_decimal_has_no_brace(n: nat)
    ensures
        forall|i: int| 0 <= i < decimal(n).len() ==> decimal(n)[i] != '{',
{
    lemma_decimal_denotes(n);
}

/// Lower-casing keeps the length, leaves no upper-case ASCII letter, turns
/// each upper-case letter into its lower-case letter and keeps every other
/// character.
pub proof fn lemma_ascii_lower(s: Seq<char>)
    ensures
        ascii_lower(s).len() == s.len(),
        forall|i: int| 0 <= i < s.len() ==> !('A' <= #[trigger] ascii_lower(s)[i] && ascii_lower(s)[i] <= 'Z'),
        forall|i: int| 0 <= i < s.len() && 'A' <= #[trigger] s[i] && s[i] <= 'Z' ==> ascii_lower(s)[i] as u32 == s[i] as u32 + 32,
        forall|i: int| 0 <= i < s.len() && !('A' <= #[trigger] s[i] && s[i] <= 'Z') ==> ascii_lower(s)[i] == s[i],
{
}


/// A leading text that lacks the first character of a non-empty pattern is
/// kept in front, and replacement goes on in what follows it.
pub proof fn lemma_replace_after_plain_prefix(a: Seq<char>, b: Seq<char>, pat: Seq<char>, rep: Seq<char>)
    requires
        pat.len() > 0,
        forall|i: int| 0 <= i < a.len() ==> a[i] != pat[0],
    ensures
        replaced(a + b, pat, rep) == a + replaced(b, pat, rep),
    decreases a.len(),
{
    if a.len() > 0 {
        let rest = a.drop_first();
        lemma_replace_after_plain_prefix(rest, b, pat, rep);
        assert(a + b =~= seq![a[0]] + (rest + b));
        lemma_replace_leading_other(a[0], rest + b, pat, rep);
        assert(a + replaced(b, pat, rep) =~= seq![a[0]] + (rest + replaced(b, pat, rep)));
    } else {
        assert(a + b =~= b);
        assert(a + replaced(b, pat, rep) =~= replaced(b, pat, rep));
    }
}


/// The decimal text of a positive number does not start with `0`.
pub proof fn lemma_decimal_no_leading_zero(n: nat)
    requires
        n > 0,
    ensures
        decimal(n)[0] != '0',
    decreases n,
{
    if n >= 10 {
        lemma_decimal_no_leading_zero(n / 10);
        lemma_decimal_denotes(n / 10);
        assert(decimal(n)[0] == decimal(n / 10)[0]);
    }
}

/// Joining an absolute part gives the part; joining a relative part gives
/// the base, then a `/` unless the base is empty or already ends with one,
/// then the part.
pub proof fn lemma_joined(base: Seq<char>, part: Seq<char>)
    ensures
        part.len() > 0 && part[0] == '/' ==> joined(base, part) == part,
        !(part.len() > 0 && part[0] == '/') && (base.len() == 0 || base.last() == '/') ==> joined(
            base,
            part,
        ) == base + part,
        !(part.len() > 0 && part[0] == '/') && base.len() > 0 && base.last() != '/' ==> joined(
            base,
            part,
        ) == base + seq!['/'] + part,
{
}

/// The text after the last `/` holds no `/`, ends the path, and what comes
/// before it is empty or ends with `/`.
pub proof fn lemma_after_last_slash_splits(p: Seq<char>)
    ensures
        slash_free(after_last_slash(p)),
        after_last_slash(p).len() <= p.len(),
        p == p.take(p.len() - after_last_slash(p).len()) + after_last_slash(p),
        p.len() > after_last_slash(p).len() ==> p[p.len() - after_last_slash(p).len() - 1] == '/',
    decreases p.len(),
{
    if p.len() > 0 {
        let q = p.drop_last();
        lemma_after_last_slash_splits(q);
        if p.last() == '/' {
            assert(p =~= p.take(p.len() as int) + Seq::<char>::empty());
        } else {
            let t = after_last_slash(q);
            assert(after_last_slash(p) == t.push(p.last()));
            assert(p.take(p.len() - (t.len() + 1)) =~= q.take(q.len() - t.len()));
            assert(p =~= q.take(q.len() - t.len()) + t.push(p.last()));
            if p.len() > t.len() + 1 {
                assert(p[p.len() - t.len() - 2] == q[q.len() - t.len() - 1]);
            }
        }
    }
}

} // verus!
