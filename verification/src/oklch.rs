//! The syntax of `oklch(L C H)` and `oklch(L C H / A)` colors: where the
//! numbers are in such a text. Reading the numbers themselves (floating
//! point) is left to the caller.

use vstd::prelude::*;

verus! {

/// Unicode's White_Space characters.
pub open spec fn is_ws(c: char) -> bool {
    let n = c as u32;
    ||| 0x9 <= n <= 0xd
    ||| n == 0x20
    ||| n == 0x85
    ||| n == 0xa0
    ||| n == 0x1680
    ||| 0x2000 <= n <= 0x200a
    ||| n == 0x2028
    ||| n == 0x2029
    ||| n == 0x202f
    ||| n == 0x205f
    ||| n == 0x3000
}

/// Whether `c` is a Unicode White_Space character.
pub fn is_whitespace(c: char) -> (b: bool)
    ensures
        b == is_ws(c),
{
    let n = c as u32;
    (0x9 <= n && n <= 0xd) || n == 0x20 || n == 0x85 || n == 0xa0 || n == 0x1680 || (0x2000 <= n
        && n <= 0x200a) || n == 0x2028 || n == 0x2029 || n == 0x202f || n == 0x205f || n == 0x3000
}

/// `s` without its leading whitespace.
pub open spec fn trim_start(s: Seq<char>) -> Seq<char>
    decreases s.len(),
{
    if s.len() > 0 && is_ws(s[0]) {
        trim_start(s.drop_first())
    } else {
        s
    }
}

/// `s` without its trailing whitespace.
pub open spec fn trim_end(s: Seq<char>) -> Seq<char>
    decreases s.len(),
{
    if s.len() > 0 && is_ws(s.last()) {
        trim_end(s.drop_last())
    } else {
        s
    }
}

/// `s` without its leading and trailing whitespace.
pub open spec fn trim(s: Seq<char>) -> Seq<char> {
    trim_end(trim_start(s))
}

/// The pieces of `s` between the separators `sep`, empty ones included.
pub open spec fn split_on(s: Seq<char>, sep: char) -> Seq<Seq<char>>
    decreases s.len(),
{
    if s.len() == 0 {
        seq![Seq::<char>::empty()]
    } else {
        let p = split_on(s.drop_last(), sep);
        if s.last() == sep {
            p.push(Seq::empty())
        } else {
            p.update(p.len() - 1, p.last().push(s.last()))
        }
    }
}

/// The words of `s`: its maximal runs of non-whitespace.
pub open spec fn words(s: Seq<char>) -> Seq<Seq<char>>
    decreases s.len(),
{
    if s.len() == 0 {
        Seq::empty()
    } else {
        let w = words(s.drop_last());
        let c = s.last();
        if is_ws(c) {
            w
        } else if s.len() >= 2 && !is_ws(s[s.len() - 2]) {
            w.update(w.len() - 1, w.last().push(c))
        } else {
            w.push(seq![c])
        }
    }
}

/// The index of the first `c` in `s`, if any.
pub open spec fn first_index(s: Seq<char>, c: char) -> Option<int>
    decreases s.len(),
{
    if s.len() == 0 {
        None
    } else {
        match first_index(s.drop_last(), c) {
            Some(i) => Some(i),
            None => if s.last() == c {
                Some(s.len() - 1)
            } else {
                None
            },
        }
    }
}

/// What is between the parentheses of a text of the form `oklch(...)`
/// (whitespace around it aside), if it has that form.
pub open spec fn oklch_body(s: Seq<char>) -> Option<Seq<char>> {
    let t = trim(s);
    if t.len() >= 7 && t.take(6) == seq!['o', 'k', 'l', 'c', 'h', '('] && t.last() == ')' {
        Some(t.subrange(6, t.len() - 1))
    } else {
        None
    }
}

/// The color part and the alpha part (after the first `/`) of a body, each
/// trimmed.
pub open spec fn color_and_alpha(body: Seq<char>) -> (Seq<char>, Option<Seq<char>>) {
    match first_index(body, '/') {
        Some(i) => (trim(body.take(i)), Some(trim(body.skip(i + 1)))),
        None => (trim(body), None),
    }
}

/// The components of a color part: split at commas and trimmed when it has
/// a comma, its words otherwise.
pub open spec fn components(color: Seq<char>) -> Seq<Seq<char>> {
    if color.contains(',') {
        split_on(color, ',').map_values(|p: Seq<char>| trim(p))
    } else {
        words(color)
    }
}

/// Where the numbers of an `oklch(...)` color are.
pub struct OklchPieces {
    /// The components of the color part (three for a well-formed color).
    pub parts: Vec<Vec<char>>,
    /// The alpha, when the color has one.
    pub alpha: Option<Vec<char>>,
}

/// A text that is not of the form `oklch(...)`.
#[derive(Debug, Clone, Copy, PartialEq, Eq, Structural)]
pub struct NotOklch;

pub open spec fn char_vecs(v: Seq<Vec<char>>) -> Seq<Seq<char>> {
    v.map_values(|x: Vec<char>| x@)
}

/// The chars of a string.
fn to_chars(s: &str) -> (v: Vec<char>)
    ensures
        v@ == s@,
{
    let n = s.unicode_len();
    let mut v: Vec<char> = Vec::new();
    let mut i: usize = 0;
    while i < n
        invariant
            n == s@.len(),
            i <= n,
            v@ == s@.take(i as int),
        decreases n - i,
    {
        v.push(s.get_char(i));
        i += 1;
        proof {
            assert(v@ =~= s@.take(i as int));
        }
    }
    proof {
        assert(s@.take(n as int) =~= s@);
    }
    v
}

/// The chars `lo..hi` of `v`.
fn copy_range(v: &Vec<char>, lo: usize, hi: usize) -> (r: Vec<char>)
    requires
        lo <= hi <= v@.len(),
    ensures
        r@ == v@.subrange(lo as int, hi as int),
{
    let mut r: Vec<char> = Vec::new();
    let mut i: usize = lo;
    while i < hi
        invariant
            lo <= i <= hi,
            hi <= v@.len(),
            r@ == v@.subrange(lo as int, i as int),
        decreases hi - i,
    {
        r.push(v[i]);
        i += 1;
        proof {
            assert(r@ =~= v@.subrange(lo as int, i as int));
        }
    }
    r
}

/// `v` without its leading and trailing whitespace.
pub fn trim_chars(v: &Vec<char>) -> (r: Vec<char>)
    ensures
        r@ == trim(v@),
{
    let n = v.len();
    let mut lo: usize = 0;
    proof {
        assert(v@.subrange(0, n as int) =~= v@);
    }
    while lo < n && is_whitespace(v[lo])
        invariant
            lo <= n,
            n == v@.len(),
            trim_start(v@) == trim_start(v@.subrange(lo as int, n as int)),
        decreases n - lo,
    {
        proof {
            assert(v@.subrange(lo as int, n as int).drop_first() =~= v@.subrange(lo + 1, n as int));
        }
        lo += 1;
    }
    proof {
        assert(trim_start(v@) == v@.subrange(lo as int, n as int));
    }
    let mut hi: usize = n;
    while hi > lo && is_whitespace(v[hi - 1])
        invariant
            lo <= hi <= n,
            n == v@.len(),
            trim(v@) == trim_end(v@.subrange(lo as int, hi as int)),
        decreases hi - lo,
    {
        proof {
            assert(v@.subrange(lo as int, hi as int).drop_last() =~= v@.subrange(lo as int, hi - 1));
        }
        hi -= 1;
    }
    proof {
        assert(trim(v@) == v@.subrange(lo as int, hi as int));
    }
    copy_range(v, lo, hi)
}

/// The pieces of `v` between the separators `sep`.
fn split_chars(v: &Vec<char>, sep: char) -> (r: Vec<Vec<char>>)
    ensures
        char_vecs(r@) == split_on(v@, sep),
{
    let mut pieces: Vec<Vec<char>> = Vec::new();
    let mut current: Vec<char> = Vec::new();
    let mut i: usize = 0;
    proof {
        assert(v@.take(0) =~= Seq::<char>::empty());
        assert(char_vecs(pieces@).push(current@) =~= seq![Seq::<char>::empty()]);
    }
    while i < v.len()
        invariant
            i <= v@.len(),
            char_vecs(pieces@).push(current@) == split_on(v@.take(i as int), sep),
        decreases v@.len() - i,
    {
        proof {
            assert(v@.take(i + 1).drop_last() =~= v@.take(i as int));
        }
        let c = v[i];
        let ghost before = char_vecs(pieces@).push(current@);
        if c == sep {
            let ghost old_pieces = pieces@;
            pieces.push(current);
            current = Vec::new();
            proof {
                assert(char_vecs(pieces@).push(current@) =~= before.push(Seq::<char>::empty()));
            }
        } else {
            let ghost old_current = current@;
            current.push(c);
            proof {
                assert(char_vecs(pieces@).push(current@) =~= before.update(
                    before.len() - 1,
                    before.last().push(c),
                ));
            }
        }
        i += 1;
    }
    proof {
        assert(v@.take(i as int) =~= v@);
    }
    let ghost last = current@;
    let ghost before = char_vecs(pieces@);
    pieces.push(current);
    proof {
        assert(char_vecs(pieces@) =~= before.push(last));
    }
    pieces
}

/// The words of `v`.
fn words_chars(v: &Vec<char>) -> (r: Vec<Vec<char>>)
    ensures
        char_vecs(r@) == words(v@),
{
    let mut out: Vec<Vec<char>> = Vec::new();
    let mut i: usize = 0;
    proof {
        assert(v@.take(0) =~= Seq::<char>::empty());
        assert(char_vecs(out@) =~= Seq::<Seq<char>>::empty());
    }
    while i < v.len()
        invariant
            i <= v@.len(),
            char_vecs(out@) == words(v@.take(i as int)),
            i > 0 && !is_ws(v@[i - 1]) ==> out@.len() > 0,
        decreases v@.len() - i,
    {
        proof {
            assert(v@.take(i + 1).drop_last() =~= v@.take(i as int));
        }
        let c = v[i];
        let ghost before = char_vecs(out@);
        if is_whitespace(c) {
        } else if i > 0 && !is_whitespace(v[i - 1]) {
            let mut last = out.pop().unwrap();
            let ghost last_before = last@;
            last.push(c);
            out.push(last);
            proof {
                assert(char_vecs(out@) =~= before.update(before.len() - 1, before.last().push(c)));
            }
        } else {
            let mut w: Vec<char> = Vec::new();
            w.push(c);
            out.push(w);
            proof {
                assert(char_vecs(out@) =~= before.push(seq![c]));
            }
        }
        i += 1;
    }
    proof {
        assert(v@.take(i as int) =~= v@);
    }
    out
}

/// `first_index` finds the first `c`.
proof fn lemma_first_index(s: Seq<char>, c: char)
    ensures
        match first_index(s, c) {
            Some(i) => 0 <= i < s.len() && s[i] == c && forall|k: int| 0 <= k < i ==> s[k] != c,
            None => forall|k: int| 0 <= k < s.len() ==> s[k] != c,
        },
    decreases s.len(),
{
    if s.len() > 0 {
        lemma_first_index(s.drop_last(), c);
        assert forall|k: int| 0 <= k < s.len() - 1 implies s.drop_last()[k] == s[k] by {}
    }
}

/// The index of the first `c` in `v`.
fn find_char(v: &Vec<char>, c: char) -> (r: Option<usize>)
    ensures
        match r {
            Some(i) => first_index(v@, c) == Some(i as int),
            None => first_index(v@, c) is None,
        },
{
    proof {
        lemma_first_index(v@, c);
    }
    let mut i: usize = 0;
    while i < v.len()
        invariant
            i <= v@.len(),
            forall|k: int| 0 <= k < i ==> v@[k] != c,
        decreases v@.len() - i,
    {
        if v[i] == c {
            proof {
                lemma_first_index(v@, c);
                match first_index(v@, c) {
                    Some(j) => {
                        assert(v@[j] == c);
                        assert(!(j < i));
                        assert(!(i < j));
                    },
                    None => {
                        assert(v@[i as int] == c);
                    },
                }
            }
            return Some(i);
        }
        i += 1;
    }
    proof {
        lemma_first_index(v@, c);
    }
    None
}

pub open spec fn opt_chars(o: Option<Vec<char>>) -> Option<Seq<char>> {
    match o {
        Some(v) => Some(v@),
        None => None,
    }
}

/// Finds the numbers of a color written `oklch(L C H)` or `oklch(L C H / A)`
/// (the components may also be separated by commas). A text of another form
/// is refused.
pub fn split_oklch(value: &str) -> (r: Result<OklchPieces, NotOklch>)
    ensures
        match oklch_body(value@) {
            None => r is Err,
            Some(body) => r matches Ok(p) && char_vecs(p.parts@) == components(
                color_and_alpha(body).0,
            ) && opt_chars(p.alpha) == color_and_alpha(body).1,
        },
{
    let chars = to_chars(value);
    let t = trim_chars(&chars);
    let n = t.len();
    if !(n >= 7 && t[0] == 'o' && t[1] == 'k' && t[2] == 'l' && t[3] == 'c' && t[4] == 'h' && t[5]
        == '(' && t[n - 1] == ')') {
        proof {
            if n >= 7 && t@.take(6) == seq!['o', 'k', 'l', 'c', 'h', '('] {
                assert(t@.take(6)[0] == 'o' && t@.take(6)[1] == 'k' && t@.take(6)[2] == 'l');
                assert(t@.take(6)[3] == 'c' && t@.take(6)[4] == 'h' && t@.take(6)[5] == '(');
            }
        }
        return Err(NotOklch);
    }
    proof {
        assert(t@.take(6) =~= seq!['o', 'k', 'l', 'c', 'h', '(']);
    }
    let body = copy_range(&t, 6, n - 1);
    proof {
        lemma_first_index(body@, '/');
    }
    let (color_raw, alpha) = match find_char(&body, '/') {
        Some(i) => {
            let head = copy_range(&body, 0, i);
            let tail = copy_range(&body, i + 1, body.len());
            proof {
                assert(head@ =~= body@.take(i as int));
                assert(tail@ =~= body@.skip(i + 1));
            }
            (trim_chars(&head), Some(trim_chars(&tail)))
        },
        None => (trim_chars(&body), None),
    };
    let color = color_raw;
    let has_comma = match find_char(&color, ',') {
        Some(_) => true,
        None => false,
    };
    proof {
        lemma_first_index(color@, ',');
        if color@.contains(',') {
            let k = choose|k: int| 0 <= k < color@.len() && color@[k] == ',';
        }
    }
    let parts = if has_comma {
        let pieces = split_chars(&color, ',');
        let mut trimmed: Vec<Vec<char>> = Vec::new();
        let mut j: usize = 0;
        while j < pieces.len()
            invariant
                j <= pieces@.len(),
                trimmed@.len() == j,
                char_vecs(trimmed@) == char_vecs(pieces@).take(j as int).map_values(
                    |p: Seq<char>| trim(p),
                ),
            decreases pieces@.len() - j,
        {
            let ghost before = char_vecs(trimmed@);
            let piece = trim_chars(&pieces[j]);
            let ghost piece_view = piece@;
            trimmed.push(piece);
            j += 1;
            proof {
                let target = char_vecs(pieces@).take(j as int).map_values(|p: Seq<char>| trim(p));
                assert(piece_view == trim(char_vecs(pieces@)[j - 1]));
                assert forall|k: int| 0 <= k < j implies char_vecs(trimmed@)[k] == target[k] by {
                    if k < j - 1 {
                        assert(char_vecs(trimmed@)[k] == before[k]);
                    }
                }
                assert(char_vecs(trimmed@) =~= target);
            }
        }
        proof {
            assert(char_vecs(pieces@).take(j as int) =~= char_vecs(pieces@));
        }
        trimmed
    } else {
        words_chars(&color)
    };
    Ok(OklchPieces { parts, alpha })
}

impl OklchPieces {
    /// The three components L, C and H, when there are exactly three.
    pub fn components(&self) -> (r: Option<(&Vec<char>, &Vec<char>, &Vec<char>)>)
        ensures
            self.parts@.len() == 3 ==> (r matches Some((l, c, h)) && l@ == self.parts@[0]@ && c@
                == self.parts@[1]@ && h@ == self.parts@[2]@),
            self.parts@.len() != 3 ==> r is None,
    {
        if self.parts.len() != 3 {
            return None;
        }
        Some((&self.parts[0], &self.parts[1], &self.parts[2]))
    }
}

} // verus!
