use vstd::prelude::*;
use vstd::string::*;

verus! {

/// Collects the characters of a string slice, in order.
pub fn chars_of(s: &str) -> (r: Vec<char>)
    ensures
        r@ == s@,
{
    let n = s.unicode_len();
    let mut out: Vec<char> = Vec::new();
    let mut i: usize = 0;
    while i < n
        invariant
            n == s@.len(),
            i <= n,
            out@ == s@.take(i as int),
        decreases n - i,
    {
        let c = s.get_char(i);
        out.push(c);
        assert(out@ =~= s@.take(i + 1));
        i = i + 1;
    }
    assert(s@.take(n as int) =~= s@);
    out
}

/// The character sequences of a sequence of strings.
pub open spec fn views(v: Seq<String>) -> Seq<Seq<char>> {
    v.map_values(|x: String| x@)
}

/// The pieces of `s` between single space characters, as `str::split(' ')` yields them.
pub open spec fn split_spaces(s: Seq<char>) -> Seq<Seq<char>>
    decreases s.len(),
{
    if s.len() == 0 {
        seq![Seq::<char>::empty()]
    } else {
        let p = split_spaces(s.drop_last());
        if s.last() == ' ' {
            p.push(Seq::<char>::empty())
        } else {
            p.update(p.len() - 1, p.last().push(s.last()))
        }
    }
}

/// A splitting always yields at least one piece.
pub proof fn lemma_split_nonempty(s: Seq<char>)
    ensures
        split_spaces(s).len() >= 1,
    decreases s.len(),
{
    if s.len() > 0 {
        lemma_split_nonempty(s.drop_last());
    }
}

/// `s` holds no space.
pub open spec fn spaceless(s: Seq<char>) -> bool {
    forall|i: int| 0 <= i < s.len() ==> s[i] != ' '
}

/// A text with no space is one piece.
pub proof fn lemma_split_spaceless(a: Seq<char>)
    requires
        spaceless(a),
    ensures
        split_spaces(a) == seq![a],
    decreases a.len(),
{
    if a.len() > 0 {
        assert(a[a.len() - 1] != ' ');
        lemma_split_spaceless(a.drop_last());
        assert(a.drop_last().push(a.last()) =~= a);
        assert(seq![a.drop_last()].update(0, a.drop_last().push(a.last())) =~= seq![a]);
    } else {
        assert(a =~= Seq::<char>::empty());
    }
}

/// A word with no space, a space and the rest split into the word, then the
/// pieces of the rest.
pub proof fn lemma_split_word_then(a: Seq<char>, t: Seq<char>)
    requires
        spaceless(a),
    ensures
        split_spaces(a + seq![' '] + t) == seq![a] + split_spaces(t),
    decreases t.len(),
{
    let s = a + seq![' '] + t;
    if t.len() == 0 {
        assert(s == a + seq![' ']);
        assert(s.drop_last() =~= a);
        lemma_split_spaceless(a);
        assert(seq![a].push(Seq::<char>::empty()) =~= seq![a] + seq![Seq::<char>::empty()]);
    } else {
        lemma_split_word_then(a, t.drop_last());
        assert(s.drop_last() =~= a + seq![' '] + t.drop_last());
        assert(s.last() == t.last());
        lemma_split_nonempty(t.drop_last());
        let p = split_spaces(t.drop_last());
        if t.last() == ' ' {
            assert((seq![a] + p).push(Seq::<char>::empty()) =~= seq![a] + p.push(Seq::<char>::empty()));
        } else {
            let q = seq![a] + p;
            assert(q.update(q.len() - 1, q.last().push(t.last())) =~= seq![a] + p.update(p.len() - 1, p.last().push(t.last())));
        }
    }
}

/// Joining the pieces of a splitting at spaces with single spaces gives back the text.
pub proof fn lemma_join_split(s: Seq<char>)
    ensures
        join(split_spaces(s), " "@) == s,
    decreases s.len(),
{
    reveal_strlit(" ");
    if s.len() > 0 {
        let t = s.drop_last();
        let p = split_spaces(t);
        lemma_join_split(t);
        lemma_split_nonempty(t);
        if s.last() == ' ' {
            assert(split_spaces(s) == p.push(Seq::<char>::empty()));
            assert(p.push(Seq::<char>::empty()).drop_last() =~= p);
            assert(join(split_spaces(s), " "@) =~= t + " "@ + Seq::<char>::empty());
            assert(t + " "@ + Seq::<char>::empty() =~= s);
        } else {
            let q = p.update(p.len() - 1, p.last().push(s.last()));
            assert(split_spaces(s) == q);
            if p.len() == 1 {
                assert(join(q, " "@) == q[0]);
                assert(q[0] =~= s);
            } else {
                assert(q.drop_last() =~= p.drop_last());
                assert(join(q, " "@) == join(p.drop_last(), " "@) + " "@ + p.last().push(s.last()));
                assert(join(p, " "@) == join(p.drop_last(), " "@) + " "@ + p.last());
                let j = join(p.drop_last(), " "@);
                assert(j + " "@ + p.last().push(s.last()) =~= (j + " "@ + p.last()).push(s.last()));
                assert(t.push(s.last()) =~= s);
            }
        }
    }
}

/// Splits `input` at every space character, keeping empty pieces.
pub fn split_on_space(input: &str) -> (r: Vec<String>)
    ensures
        views(r@) == split_spaces(input@),
{
    let cs = chars_of(input);
    let n = cs.len();
    let mut pieces: Vec<String> = Vec::new();
    let mut start: usize = 0;
    let mut i: usize = 0;
    assert(input@.take(0) =~= Seq::<char>::empty());
    assert(views(pieces@) =~= Seq::<Seq<char>>::empty());
    assert(input@.subrange(0, 0) =~= Seq::<char>::empty());
    while i < n
        invariant
            cs@ == input@,
            n == cs@.len(),
            start <= i <= n,
            views(pieces@).push(input@.subrange(start as int, i as int)) == split_spaces(
                input@.take(i as int),
            ),
        decreases n - i,
    {
        let ghost s = input@;
        assert(s.take(i + 1).drop_last() =~= s.take(i as int));
        proof {
            lemma_split_nonempty(s.take(i as int));
        }
        if cs[i] == ' ' {
            let piece = String::from_str(input.substring_char(start, i));
            let ghost before = pieces@;
            pieces.push(piece);
            assert(views(pieces@) =~= views(before).push(s.subrange(start as int, i as int))) by {
                assert(pieces@ =~= before.push(piece));
            }
            start = i + 1;
            assert(s.take(i + 1).last() == ' ');
            assert(s.subrange(start as int, i + 1) =~= Seq::<char>::empty());
            assert(views(pieces@).push(s.subrange(start as int, i + 1)) =~= split_spaces(s.take(i + 1)));
        } else {
            assert(s.subrange(start as int, i + 1) =~= s.subrange(start as int, i as int).push(s[i as int]));
            assert(views(pieces@).push(s.subrange(start as int, i + 1)) =~= split_spaces(s.take(i + 1)));
        }
        i = i + 1;
    }
    let last = String::from_str(input.substring_char(start, n));
    let ghost before = pieces@;
    pieces.push(last);
    assert(input@.take(n as int) =~= input@);
    assert(views(pieces@) =~= views(before).push(input@.subrange(start as int, n as int))) by {
        assert(pieces@ =~= before.push(last));
    }
    pieces
}

/// Whether two string slices hold the same characters.
pub fn str_eq(a: &str, b: &str) -> (r: bool)
    ensures
        r == (a@ == b@),
{
    let x = String::from_str(a);
    let y = String::from_str(b);
    x == y
}

/// The decimal digit for `d`.
pub open spec fn digit_char(d: nat) -> char {
    if d == 0 { '0' }
    else if d == 1 { '1' }
    else if d == 2 { '2' }
    else if d == 3 { '3' }
    else if d == 4 { '4' }
    else if d == 5 { '5' }
    else if d == 6 { '6' }
    else if d == 7 { '7' }
    else if d == 8 { '8' }
    else { '9' }
}

/// The decimal representation of `n`, most significant digit first, without leading zeros.
pub open spec fn decimal(n: nat) -> Seq<char>
    decreases n,
{
    if n < 10 {
        seq![digit_char(n)]
    } else {
        decimal(n / 10).push(digit_char(n % 10))
    }
}

fn digit_str(d: u128) -> (r: &'static str)
    requires
        d < 10,
    ensures
        r@ == seq![digit_char(d as nat)],
{
    proof {
        reveal_strlit("0");
        reveal_strlit("1");
        reveal_strlit("2");
        reveal_strlit("3");
        reveal_strlit("4");
        reveal_strlit("5");
        reveal_strlit("6");
        reveal_strlit("7");
        reveal_strlit("8");
        reveal_strlit("9");
    }
    if d == 0 { "0" }
    else if d == 1 { "1" }
    else if d == 2 { "2" }
    else if d == 3 { "3" }
    else if d == 4 { "4" }
    else if d == 5 { "5" }
    else if d == 6 { "6" }
    else if d == 7 { "7" }
    else if d == 8 { "8" }
    else { "9" }
}

/// Writes `n` in decimal, as its `Display` form does.
pub fn decimal_text(n: u128) -> (r: String)
    ensures
        r@ == decimal(n as nat),
    decreases n,
{
    if n < 10 {
        String::from_str(digit_str(n))
    } else {
        let mut s = decimal_text(n / 10);
        s.append(digit_str(n % 10));
        s
    }
}

/// Concatenates two string slices into a new string.
pub fn concat2(a: &str, b: &str) -> (r: String)
    ensures
        r@ == a@ + b@,
{
    let mut s = String::from_str(a);
    s.append(b);
    s
}

/// Concatenates three string slices into a new string.
pub fn concat3(a: &str, b: &str, c: &str) -> (r: String)
    ensures
        r@ == a@ + b@ + c@,
{
    let mut s = String::from_str(a);
    s.append(b);
    s.append(c);
    s
}

/// The pieces joined together with `sep` between each two of them.
pub open spec fn join(parts: Seq<Seq<char>>, sep: Seq<char>) -> Seq<char>
    decreases parts.len(),
{
    if parts.len() == 0 {
        Seq::empty()
    } else if parts.len() == 1 {
        parts[0]
    } else {
        join(parts.drop_last(), sep) + sep + parts.last()
    }
}

/// Joins the strings with `sep` between each two of them.
pub fn join_strings(parts: &Vec<String>, sep: &str) -> (r: String)
    ensures
        r@ == join(views(parts@), sep@),
{
    let mut out = String::new();
    let ghost ps = views(parts@);
    let mut i: usize = 0;
    assert(ps.take(0) =~= Seq::<Seq<char>>::empty());
    while i < parts.len()
        invariant
            i <= parts@.len(),
            ps == views(parts@),
            out@ == join(ps.take(i as int), sep@),
        decreases parts@.len() - i,
    {
        assert(ps.take(i + 1).drop_last() =~= ps.take(i as int));
        if i > 0 {
            out.append(sep);
        } else {
            assert(out@ =~= Seq::<char>::empty());
        }
        out.append(parts[i].as_str());
        i = i + 1;
    }
    assert(ps.take(parts@.len() as int) =~= ps);
    out
}

/// The characters of `s` before its first line break, or all of them when there is none.
pub open spec fn first_line(s: Seq<char>) -> Seq<char>
    decreases s.len(),
{
    if s.len() == 0 {
        s
    } else if s[0] == '\n' {
        Seq::empty()
    } else {
        seq![s[0]] + first_line(s.drop_first())
    }
}

proof fn lemma_first_line(s: Seq<char>, i: int)
    requires
        0 <= i <= s.len(),
        forall|j: int| 0 <= j < i ==> s[j] != '\n',
        i == s.len() || s[i] == '\n',
    ensures
        first_line(s) == s.take(i),
    decreases s.len(),
{
    if s.len() == 0 {
        assert(s.take(0) =~= s);
    } else if s[0] == '\n' {
        assert(s.take(i) =~= Seq::<char>::empty());
    } else {
        let t = s.drop_first();
        assert forall|j: int| 0 <= j < i - 1 implies t[j] != '\n' by {
            assert(t[j] == s[j + 1]);
        }
        if i < s.len() {
            assert(t[i - 1] == s[i]);
        }
        lemma_first_line(t, i - 1);
        assert(seq![s[0]] + t.take(i - 1) =~= s.take(i));
    }
}

/// The first line of `s`: everything before its first line break.
pub fn first_line_of(s: &str) -> (r: String)
    ensures
        r@ == first_line(s@),
{
    let cs = chars_of(s);
    let mut i: usize = 0;
    while i < cs.len() && cs[i] != '\n'
        invariant
            cs@ == s@,
            i <= cs@.len(),
            forall|j: int| 0 <= j < i ==> s@[j] != '\n',
        decreases cs@.len() - i,
    {
        i = i + 1;
    }
    proof {
        lemma_first_line(s@, i as int);
    }
    assert(s@.subrange(0, i as int) =~= s@.take(i as int));
    String::from_str(s.substring_char(0, i))
}

/// Whether `p` is a prefix of `s`.
pub open spec fn is_prefix(p: Seq<char>, s: Seq<char>) -> bool {
    p.len() <= s.len() && s.take(p.len() as int) == p
}

/// Whether `s` starts with `p`.
pub fn starts_with(s: &str, p: &str) -> (r: bool)
    ensures
        r == is_prefix(p@, s@),
{
    let a = chars_of(s);
    let b = chars_of(p);
    if b.len() > a.len() {
        return false;
    }
    let mut i: usize = 0;
    while i < b.len()
        invariant
            a@ == s@,
            b@ == p@,
            b@.len() <= a@.len(),
            i <= b@.len(),
            forall|j: int| 0 <= j < i ==> a@[j] == b@[j],
        decreases b@.len() - i,
    {
        if a[i] != b[i] {
            assert(s@.take(p@.len() as int)[i as int] != p@[i as int]);
            return false;
        }
        i = i + 1;
    }
    assert(s@.take(p@.len() as int) =~= p@);
    true
}

/// The characters of `s` from position `start` on.
pub fn suffix_from(s: &str, start: usize) -> (r: String)
    requires
        start <= s@.len(),
    ensures
        r@ == s@.skip(start as int),
{
    let n = s.unicode_len();
    assert(s@.subrange(start as int, n as int) =~= s@.skip(start as int));
    String::from_str(s.substring_char(start, n))
}

} // verus!
