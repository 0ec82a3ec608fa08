//! String building blocks shared by every renderer of the crate.
use vstd::prelude::*;

verus! {

/// `parts` joined with `sep` between neighbours: empty for no part, the
/// part itself for one, and `join(all but last) + sep + last` otherwise.
pub open spec fn join(parts: Seq<Seq<char>>, sep: Seq<char>) -> Seq<char>
    decreases parts.len(),
{
    if parts.len() == 0 {
        Seq::empty()
    } else if parts.len() == 1 {
        parts[0]
    } else {
        join(parts.drop_last(), sep) + sep + parts.last()
    }
}

/// The views of a sequence of strings.
pub open spec fn views(parts: Seq<String>) -> Seq<Seq<char>> {
    parts.map_values(|s: String| s@)
}

/// The decimal digit for `d < 10`.
pub open spec fn digit(d: nat) -> char {
    if d == 0 { '0' }
    else if d == 1 { '1' }
    else if d == 2 { '2' }
    else if d == 3 { '3' }
    else if d == 4 { '4' }
    else if d == 5 { '5' }
    else if d == 6 { '6' }
    else if d == 7 { '7' }
    else if d == 8 { '8' }
    else { '9' }
}

/// The decimal spelling of `n`, without leading zeros.
pub open spec fn decimal(n: nat) -> Seq<char>
    decreases n,
{
    if n < 10 {
        seq![digit(n)]
    } else {
        decimal(n / 10).push(digit(n % 10))
    }
}

/// The decimal spelling of a signed integer, with `-` before a negative one.
pub open spec fn signed_decimal(n: int) -> Seq<char> {
    if n < 0 {
        seq!['-'] + decimal((-n) as nat)
    } else {
        decimal(n as nat)
    }
}

/// Concatenates two strings.
pub fn cat2(a: &str, b: &str) -> (res: String)
    ensures
        res@ == a@ + b@,
{
    let mut s = a.to_owned();
    s.append(b);
    s
}

/// Concatenates three strings.
pub fn cat3(a: &str, b: &str, c: &str) -> (res: String)
    ensures
        res@ == a@ + b@ + c@,
{
    let mut s = a.to_owned();
    s.append(b);
    s.append(c);
    s
}

/// Concatenates four strings.
pub fn cat4(a: &str, b: &str, c: &str, d: &str) -> (res: String)
    ensures
        res@ == a@ + b@ + c@ + d@,
{
    let mut s = a.to_owned();
    s.append(b);
    s.append(c);
    s.append(d);
    s
}

/// Concatenates five strings.
pub fn cat5(a: &str, b: &str, c: &str, d: &str, e: &str) -> (res: String)
    ensures
        res@ == a@ + b@ + c@ + d@ + e@,
{
    let mut s = a.to_owned();
    s.append(b);
    s.append(c);
    s.append(d);
    s.append(e);
    s
}

/// Concatenates six strings.
pub fn cat6(a: &str, b: &str, c: &str, d: &str, e: &str, f: &str) -> (res: String)
    ensures
        res@ == a@ + b@ + c@ + d@ + e@ + f@,
{
    let mut s = cat5(a, b, c, d, e);
    s.append(f);
    s
}

/// Whether two strings hold the same characters.
pub fn str_eq(a: &str, b: &str) -> (res: bool)
    ensures
        res == (a@ == b@),
{
    let x = chars_of(a);
    let y = chars_of(b);
    if x.len() != y.len() {
        return false;
    }
    let mut i: usize = 0;
    while i < x.len()
        invariant
            i <= x@.len(),
            x@.len() == y@.len(),
            x@ == a@,
            y@ == b@,
            x@.take(i as int) == y@.take(i as int),
        decreases x.len() - i,
    {
        if x[i] != y[i] {
            assert(x@[i as int] != y@[i as int]);
            return false;
        }
        assert(x@.take(i + 1) =~= x@.take(i as int).push(x@[i as int]));
        assert(y@.take(i + 1) =~= y@.take(i as int).push(y@[i as int]));
        i += 1;
    }
    assert(x@.take(i as int) =~= x@);
    assert(y@.take(i as int) =~= y@);
    true
}

/// Copies a string slice into an owned string.
pub fn owned(a: &str) -> (res: String)
    ensures
        res@ == a@,
{
    a.to_owned()
}

/// Appends one character, as `String::push` does.
#[verifier::external_body]
pub fn push_char(s: &mut String, c: char)
    ensures
        final(s)@ == old(s)@.push(c),
{
    s.push(c);
}

/// The characters of a string slice, in order.
pub fn chars_of(s: &str) -> (res: Vec<char>)
    ensures
        res@ == s@,
{
    let mut out: Vec<char> = Vec::new();
    for c in it: s.chars()
        invariant
            out@ == it.seq().take(it.index() as int),
            it.seq() == s@,
    {
        out.push(c);
    }
    out
}

/// The string made of the characters `cs[from..to]`.
pub fn string_of(cs: &Vec<char>, from: usize, to: usize) -> (res: String)
    requires
        from <= to <= cs@.len(),
    ensures
        res@ == cs@.subrange(from as int, to as int),
{
    let mut s = String::new();
    let mut i = from;
    while i < to
        invariant
            from <= i <= to <= cs@.len(),
            s@ == cs@.subrange(from as int, i as int),
        decreases to - i,
    {
        push_char(&mut s, cs[i]);
        i += 1;
        assert(s@ =~= cs@.subrange(from as int, i as int));
    }
    s
}

/// Joins `parts` with `sep` between neighbours.
pub fn join_strings(parts: &Vec<String>, sep: &str) -> (res: String)
    ensures
        res@ == join(views(parts@), sep@),
{
    let mut s = String::new();
    let mut i: usize = 0;
    while i < parts.len()
        invariant
            i <= parts@.len(),
            s@ == join(views(parts@.take(i as int)), sep@),
        decreases parts.len() - i,
    {
        let ghost before = parts@.take(i as int);
        if i > 0 {
            s.append(sep);
        }
        s.append(parts[i].as_str());
        proof {
            let after = parts@.take(i + 1);
            assert(views(after).drop_last() =~= views(before));
            assert(views(after).last() == parts@[i as int]@);
            if i == 0 {
                assert(views(after) =~= seq![parts@[0]@]);
            }
        }
        i += 1;
    }
    assert(parts@.take(parts@.len() as int) =~= parts@);
    s
}

/// The decimal spelling of an unsigned integer.
pub fn usize_to_string(n: usize) -> (res: String)
    ensures
        res@ == decimal(n as nat),
{
    u64_to_string(n as u64)
}

/// The decimal spelling of an unsigned 64-bit integer.
pub fn u64_to_string(n: u64) -> (res: String)
    ensures
        res@ == decimal(n as nat),
    decreases n,
{
    let d = n % 10;
    let c: char = if d == 0 { '0' }
        else if d == 1 { '1' }
        else if d == 2 { '2' }
        else if d == 3 { '3' }
        else if d == 4 { '4' }
        else if d == 5 { '5' }
        else if d == 6 { '6' }
        else if d == 7 { '7' }
        else if d == 8 { '8' }
        else { '9' };
    assert(c == digit(d as nat));
    if n < 10 {
        let mut s = String::new();
        push_char(&mut s, c);
        assert(s@ =~= seq![digit(n as nat)]);
        s
    } else {
        let mut s = u64_to_string(n / 10);
        push_char(&mut s, c);
        s
    }
}

/// The decimal spelling of a signed 64-bit integer.
pub fn i64_to_string(n: i64) -> (res: String)
    ensures
        res@ == signed_decimal(n as int),
{
    if n < 0 {
        let magnitude: u64 = if n == i64::MIN {
            9223372036854775808u64
        } else {
            (-n) as u64
        };
        let digits = u64_to_string(magnitude);
        let mut s = String::new();
        push_char(&mut s, '-');
        s.append(digits.as_str());
        assert(s@ =~= seq!['-'] + decimal((-(n as int)) as nat));
        s
    } else {
        u64_to_string(n as u64)
    }
}


/// The pieces of `s` between newline characters, in order: one more
/// piece than there are newlines.
pub open spec fn split_nl(s: Seq<char>) -> Seq<Seq<char>>
    decreases s.len(),
{
    if s.len() == 0 {
        seq![Seq::empty()]
    } else {
        let p = split_nl(s.drop_last());
        if s.last() == '\n' {
            p.push(Seq::empty())
        } else {
            p.update(p.len() - 1, p.last().push(s.last()))
        }
    }
}

/// A line without the carriage return that ends it, if one does.
pub open spec fn strip_cr(line: Seq<char>) -> Seq<char> {
    if line.len() > 0 && line.last() == '\r' {
        line.drop_last()
    } else {
        line
    }
}

/// Whether `s` ends a line: it is empty or its last character is a newline.
pub open spec fn ends_line(s: Seq<char>) -> bool {
    s.len() == 0 || s.last() == '\n'
}

/// The lines of `s` as `str::lines` yields them: split at each newline,
/// without the empty piece after a final newline, and without the carriage
/// return before a newline. A carriage return at the very end stays.
pub open spec fn rust_lines(s: Seq<char>) -> Seq<Seq<char>> {
    let pieces = split_nl(s);
    if ends_line(s) {
        pieces.drop_last().map_values(|l: Seq<char>| strip_cr(l))
    } else {
        pieces.drop_last().map_values(|l: Seq<char>| strip_cr(l)).push(pieces.last())
    }
}

proof fn lemma_split_nl_len(s: Seq<char>)
    ensures
        split_nl(s).len() >= 1,
    decreases s.len(),
{
    if s.len() > 0 {
        lemma_split_nl_len(s.drop_last());
    }
}

/// The lines of a string, as `str::lines` yields them.
pub fn lines(s: &str) -> (res: Vec<String>)
    ensures
        views(res@) == rust_lines(s@),
{
    let cs = chars_of(s);
    let mut out: Vec<String> = Vec::new();
    let mut start: usize = 0;
    let mut i: usize = 0;
    proof {
        assert(cs@.take(0) =~= Seq::<char>::empty());
        assert(views(out@) =~= split_nl(cs@.take(0)).drop_last().map_values(|l: Seq<char>| strip_cr(l)));
    }
    while i < cs.len()
        invariant
            cs@ == s@,
            start <= i <= cs@.len(),
            split_nl(cs@.take(i as int)).len() >= 1,
            split_nl(cs@.take(i as int)).last() == cs@.subrange(start as int, i as int),
            views(out@) == split_nl(cs@.take(i as int)).drop_last().map_values(|l: Seq<char>| strip_cr(l)),
            i > 0 && cs@[i - 1] == '\n' ==> start == i,
            start > 0 ==> cs@[start - 1] == '\n',
        decreases cs.len() - i,
    {
        let ghost p = split_nl(cs@.take(i as int));
        proof {
            assert(cs@.take(i + 1).drop_last() =~= cs@.take(i as int));
            assert(cs@.take(i + 1).last() == cs@[i as int]);
        }
        if cs[i] == '\n' {
            let end = if i > start && cs[i - 1] == '\r' { i - 1 } else { i };
            let line = string_of(&cs, start, end);
            proof {
                assert(line@ =~= strip_cr(cs@.subrange(start as int, i as int)));
            }
            let ghost before = views(out@);
            out.push(line);
            start = i + 1;
            proof {
                let q = split_nl(cs@.take(i + 1));
                assert(q == p.push(Seq::empty()));
                assert(q.drop_last() =~= p);
                assert(views(out@) =~= before.push(line@));
                assert(p =~= p.drop_last().push(p.last()));
                assert(before.push(line@) =~= p.map_values(|l: Seq<char>| strip_cr(l)));
                assert(views(out@) =~= q.drop_last().map_values(|l: Seq<char>| strip_cr(l)));
                assert(q.last() =~= cs@.subrange(start as int, i + 1));
            }
        } else {
            proof {
                let q = split_nl(cs@.take(i + 1));
                assert(q == p.update(p.len() - 1, p.last().push(cs@[i as int])));
                assert(q.drop_last() =~= p.drop_last());
                assert(q.last() =~= cs@.subrange(start as int, i + 1));
            }
        }
        i += 1;
    }
    proof {
        assert(cs@.take(i as int) =~= cs@);
    }
    if start < cs.len() {
        let last = string_of(&cs, start, cs.len());
        let ghost before = views(out@);
        out.push(last);
        proof {
            assert(views(out@) =~= before.push(last@));
        }
    }
    out
}


proof fn lemma_join_extend_last(q: Seq<Seq<char>>, x: char, sep: Seq<char>)
    requires
        q.len() >= 1,
    ensures
        join(q.update(q.len() - 1, q.last().push(x)), sep) == join(q, sep).push(x),
{
    let u = q.update(q.len() - 1, q.last().push(x));
    if q.len() >= 2 {
        assert(u.drop_last() =~= q.drop_last());
        assert(join(u, sep) == join(u.drop_last(), sep) + sep + u.last());
        assert(join(u, sep) =~= join(q, sep).push(x));
    }
}

proof fn lemma_join_split(s: Seq<char>)
    ensures
        join(split_nl(s), "\n"@) == s,
    decreases s.len(),
{
    reveal_strlit("\n");
    if s.len() == 0 {
        assert(join(split_nl(s), "\n"@) =~= s);
    } else {
        let t = s.drop_last();
        lemma_join_split(t);
        lemma_split_nl_len(t);
        let p = split_nl(t);
        if s.last() == '\n' {
            let q = p.push(Seq::empty());
            assert(q.drop_last() =~= p);
            assert(join(q, "\n"@) =~= s);
        } else {
            lemma_join_extend_last(p, s.last(), "\n"@);
            assert(join(p, "\n"@).push(s.last()) =~= s);
        }
    }
}

proof fn lemma_split_without_cr(s: Seq<char>)
    requires
        !s.contains('\r'),
    ensures
        forall|i: int| 0 <= i < split_nl(s).len() ==> !(#[trigger] split_nl(s)[i]).contains('\r'),
    decreases s.len(),
{
    if s.len() > 0 {
        let t = s.drop_last();
        assert forall|k: int| 0 <= k < t.len() implies t[k] != '\r' by {
            assert(t[k] == s[k]);
        }
        lemma_split_without_cr(t);
        lemma_split_nl_len(t);
        let p = split_nl(t);
        if s.last() != '\n' {
            let u = p.update(p.len() - 1, p.last().push(s.last()));
            assert(s[s.len() - 1] == s.last());
            assert forall|i: int| 0 <= i < u.len() implies !(#[trigger] u[i]).contains('\r') by {
                if i == p.len() - 1 {
                    if u[i].contains('\r') {
                        let k = choose|k: int| 0 <= k < u[i].len() && u[i][k] == '\r';
                        if k < p.last().len() {
                            assert(p[i][k] == '\r');
                            assert(p[i].contains('\r'));
                        }
                    }
                }
            }
        } else {
            let u = p.push(Seq::<char>::empty());
            assert forall|i: int| 0 <= i < u.len() implies !(#[trigger] u[i]).contains('\r') by {
                if i < p.len() {
                    assert(u[i] == p[i]);
                }
            }
        }
    }
}

/// Text without carriage returns is its lines joined by newlines, but for a
/// final newline.
pub proof fn law_lines_rejoin(s: Seq<char>)
    requires
        !s.contains('\r'),
    ensures
        join(rust_lines(s), "\n"@) == (if s.len() > 0 && s.last() == '\n' { s.drop_last() } else { s }),
{
    lemma_split_without_cr(s);
    lemma_split_nl_len(s);
    lemma_join_split(s);
    let p = split_nl(s);
    let stripped = p.drop_last().map_values(|l: Seq<char>| strip_cr(l));
    assert forall|i: int| 0 <= i < p.drop_last().len() implies #[trigger] stripped[i] == p.drop_last()[i] by {
        assert(p.drop_last()[i] == p[i]);
        assert(!p[i].contains('\r'));
        if p[i].len() > 0 && p[i].last() == '\r' {
            assert(p[i][p[i].len() - 1] == '\r');
        }
    }
    assert(stripped =~= p.drop_last());
    if s.len() == 0 {
        assert(rust_lines(s) =~= Seq::<Seq<char>>::empty());
    } else if s.last() == '\n' {
        let t = s.drop_last();
        lemma_join_split(t);
        assert(p.drop_last() =~= split_nl(t));
    } else {
        assert(p =~= p.drop_last().push(p.last()));
    }
}

/// What `{:?}` prints for a string: the string in double quotes, with
/// quotes, backslashes and control characters escaped.
pub uninterp spec fn debug_quoted(s: Seq<char>) -> Seq<char>;

/// Renders a string as Rust's `Debug` formatting does (`format!("{:?}")`).
/// The escaping rules are those of std's `str::escape_debug`; the contract
/// names the result and does not spell out the escapes.
#[verifier::external_body]
pub fn debug_string(s: &str) -> (res: String)
    ensures
        res@ == debug_quoted(s@),
{
    format!("{:?}", s)
}

} // verus!
