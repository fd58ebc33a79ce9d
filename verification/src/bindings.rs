//! Key bindings and their storage format, a JSON array of the key names.
use vstd::prelude::*;

verus! {

/// `String::push`: appends one character to the string.
#[verifier::external_body]
pub(crate) fn push_char(s: &mut String, c: char)
    ensures
        final(s)@ == old(s)@.push(c),
{
    s.push(c);
}

#[derive(Clone)]
pub struct KeyBindings {
    /// Keys for each action, indexed by ACTION_* constants
    pub keys: [String; 9],
}

impl View for KeyBindings {
    type V = Seq<Seq<char>>;

    open spec fn view(&self) -> Seq<Seq<char>> {
        Seq::new(9, |i: int| self.keys[i]@)
    }
}

/// What one local player plays with: keyboard bindings and, where one is
/// assigned, the index of a gamepad.
pub struct PlayerInputConfig {
    pub keyboard: KeyBindings,
    pub gamepad_index: Option<u32>,
}

// ---------------------------------------------------------------------------
// The storage format
// ---------------------------------------------------------------------------

/// A key character inside a JSON string: backslash and double quote are
/// escaped with a backslash.
pub open spec fn escape_char(c: char) -> Seq<char> {
    if c == '\\' {
        seq!['\\', '\\']
    } else if c == '"' {
        seq!['\\', '"']
    } else {
        seq![c]
    }
}

/// A key's characters escaped for a JSON string.
pub open spec fn escape(k: Seq<char>) -> Seq<char>
    decreases k.len(),
{
    if k.len() == 0 {
        Seq::empty()
    } else {
        escape(k.drop_last()) + escape_char(k.last())
    }
}

/// A key as a JSON string.
pub open spec fn quoted(k: Seq<char>) -> Seq<char> {
    seq!['"'] + escape(k) + seq!['"']
}

/// The texts joined with commas.
pub open spec fn join(parts: Seq<Seq<char>>) -> Seq<char>
    decreases parts.len(),
{
    if parts.len() == 0 {
        Seq::empty()
    } else if parts.len() == 1 {
        parts[0]
    } else {
        join(parts.drop_last()) + seq![','] + parts.last()
    }
}

/// The keys as a JSON array of strings.
pub open spec fn spec_to_json(keys: Seq<Seq<char>>) -> Seq<char> {
    seq!['['] + join(keys.map_values(|k: Seq<char>| quoted(k))) + seq![']']
}

impl KeyBindings {
    pub fn default_p1() -> (r: Self)
        ensures
            r@ == seq!["a"@, "d"@, "w"@, "s"@, "j"@, "k"@, "l"@, ";"@, "h"@],
    {
        let r = Self {
            keys: [
                String::from_str("a"),
                String::from_str("d"),
                String::from_str("w"),
                String::from_str("s"),
                String::from_str("j"),
                String::from_str("k"),
                String::from_str("l"),
                String::from_str(";"),
                String::from_str("h"),
            ],
        };
        assert(r@ =~= seq!["a"@, "d"@, "w"@, "s"@, "j"@, "k"@, "l"@, ";"@, "h"@]);
        r
    }

    pub fn default_p2() -> (r: Self)
        ensures
            r@ == seq![
                "ArrowLeft"@,
                "ArrowRight"@,
                "ArrowUp"@,
                "ArrowDown"@,
                "1"@,
                "2"@,
                "3"@,
                "0"@,
                "4"@,
            ],
    {
        let r = Self {
            keys: [
                String::from_str("ArrowLeft"),
                String::from_str("ArrowRight"),
                String::from_str("ArrowUp"),
                String::from_str("ArrowDown"),
                String::from_str("1"),
                String::from_str("2"),
                String::from_str("3"),
                String::from_str("0"),
                String::from_str("4"),
            ],
        };
        assert(r@ =~= seq![
            "ArrowLeft"@,
            "ArrowRight"@,
            "ArrowUp"@,
            "ArrowDown"@,
            "1"@,
            "2"@,
            "3"@,
            "0"@,
            "4"@,
        ]);
        r
    }

    /// Rebind an action; returns the key it was bound to.
    pub fn set_key(&mut self, action: usize, key: String) -> (r: String)
        requires
            action < 9,
        ensures
            r@ == old(self)@[action as int],
            final(self)@ == old(self)@.update(action as int, key@),
    {
        let mut replaced = key;
        std::mem::swap(&mut self.keys[action], &mut replaced);
        assert(self@ =~= old(self)@.update(action as int, key@));
        replaced
    }

    /// The bindings as a JSON array of strings.
    pub fn to_json(&self) -> (r: String)
        ensures
            r@ == spec_to_json(self@),
    {
        let mut out = String::new();
        push_char(&mut out, '[');
        let mut i: usize = 0;
        while i < 9
            invariant
                i <= 9,
                out@ == seq!['['] + join(self@.take(i as int).map_values(|k: Seq<char>| quoted(k))),
            decreases 9 - i,
        {
            let ghost before = out@;
            if i > 0 {
                push_char(&mut out, ',');
            }
            push_char(&mut out, '"');
            push_escaped(&mut out, self.keys[i].as_str());
            push_char(&mut out, '"');
            proof {
                let q = |k: Seq<char>| quoted(k);
                let prev = self@.take(i as int).map_values(q);
                let next = self@.take(i + 1).map_values(q);
                assert(next.drop_last() =~= prev);
                assert(next.last() == quoted(self.keys[i as int]@));
                if i == 0 {
                    assert(join(prev) =~= Seq::<char>::empty());
                    assert(out@ =~= seq!['['] + join(next));
                } else {
                    assert(out@ =~= seq!['['] + join(next));
                }
            }
            i += 1;
        }
        push_char(&mut out, ']');
        proof {
            assert(self@.take(9) =~= self@);
        }
        out
    }
}

/// Append a key's characters, escaped for a JSON string.
fn push_escaped(out: &mut String, key: &str)
    ensures
        final(out)@ == old(out)@ + escape(key@),
{
    let n = key.unicode_len();
    let mut j: usize = 0;
    while j < n
        invariant
            j <= n,
            n == key@.len(),
            out@ == old(out)@ + escape(key@.take(j as int)),
        decreases n - j,
    {
        let c = key.get_char(j);
        if c == '\\' {
            push_char(out, '\\');
            push_char(out, '\\');
        } else if c == '"' {
            push_char(out, '\\');
            push_char(out, '"');
        } else {
            push_char(out, c);
        }
        proof {
            assert(key@.take(j + 1).drop_last() =~= key@.take(j as int));
            assert(out@ =~= old(out)@ + escape(key@.take(j + 1)));
        }
        j += 1;
    }
    proof {
        assert(key@.take(n as int) =~= key@);
    }
}

// ---------------------------------------------------------------------------
// Reading the storage format back
// ---------------------------------------------------------------------------

/// White space as Unicode defines it (the `White_Space` property that
/// `char::is_whitespace` tests).
pub open spec fn is_ws(c: char) -> bool {
    let u = c as u32;
    (9 <= u <= 13) || u == 32 || u == 0x85 || u == 0xa0 || u == 0x1680 || (0x2000 <= u <= 0x200a)
        || u == 0x2028 || u == 0x2029 || u == 0x202f || u == 0x205f || u == 0x3000
}

/// Without its leading white space.
pub open spec fn trim_start(s: Seq<char>) -> Seq<char>
    decreases s.len(),
{
    if s.len() > 0 && is_ws(s[0]) {
        trim_start(s.drop_first())
    } else {
        s
    }
}

/// Without its trailing white space.
pub open spec fn trim_end(s: Seq<char>) -> Seq<char>
    decreases s.len(),
{
    if s.len() > 0 && is_ws(s.last()) {
        trim_end(s.drop_last())
    } else {
        s
    }
}

/// Without leading and trailing white space.
pub open spec fn trim(s: Seq<char>) -> Seq<char> {
    trim_end(trim_start(s))
}

/// The pieces of `s` between occurrences of `sep` (one piece, `s`
/// itself, when it has none).
pub open spec fn split(s: Seq<char>, sep: char) -> Seq<Seq<char>>
    decreases s.len(),
{
    if s.len() == 0 {
        seq![Seq::<char>::empty()]
    } else {
        let rest = split(s.drop_first(), sep);
        if s[0] == sep {
            seq![Seq::<char>::empty()] + rest
        } else {
            rest.update(0, seq![s[0]] + rest[0])
        }
    }
}

/// The pieces of `p + s`, where `p` holds no separator.
pub open spec fn split_after(p: Seq<char>, s: Seq<char>, sep: char) -> Seq<Seq<char>> {
    split(s, sep).update(0, p + split(s, sep)[0])
}

/// `s` with every occurrence of the pair `a b` replaced by `r`, scanning
/// from the left without overlaps.
pub open spec fn replace_pair(s: Seq<char>, a: char, b: char, r: char) -> Seq<char>
    decreases s.len(),
{
    if s.len() == 0 {
        s
    } else if s.len() >= 2 && s[0] == a && s[1] == b {
        seq![r] + replace_pair(s.subrange(2, s.len() as int), a, b, r)
    } else {
        seq![s[0]] + replace_pair(s.drop_first(), a, b, r)
    }
}

/// The escapes of a JSON string undone: `\"` to `"`, then `\\` to `\`.
pub open spec fn unescape(s: Seq<char>) -> Seq<char> {
    replace_pair(replace_pair(s, '\\', '"', '"'), '\\', '\\', '\\')
}

/// One element of the array: a JSON string, white space around it allowed.
pub open spec fn parse_key(part: Seq<char>) -> Option<Seq<char>> {
    let p = trim(part);
    if p.len() >= 2 && p[0] == '"' && p.last() == '"' {
        Some(unescape(p.subrange(1, p.len() - 1)))
    } else {
        None
    }
}

/// Every element read, or nothing if one is not a string.
pub open spec fn parse_all(parts: Seq<Seq<char>>) -> Option<Seq<Seq<char>>>
    decreases parts.len(),
{
    if parts.len() == 0 {
        Some(Seq::empty())
    } else {
        match (parse_all(parts.drop_last()), parse_key(parts.last())) {
            (Some(keys), Some(k)) => Some(keys.push(k)),
            _ => None,
        }
    }
}

/// The keys of a JSON array of exactly nine strings (elements split at
/// every comma), white space around the array allowed.
pub open spec fn spec_from_json(s: Seq<char>) -> Option<Seq<Seq<char>>> {
    let t = trim(s);
    if !(t.len() > 0 && t[0] == '[' && t.last() == ']') {
        None
    } else {
        match parse_all(split(t.subrange(1, t.len() - 1), ',')) {
            Some(keys) => if keys.len() == 9 {
                Some(keys)
            } else {
                None
            },
            None => None,
        }
    }
}

pub(crate) proof fn lemma_split_nonempty(s: Seq<char>, sep: char)
    ensures
        split(s, sep).len() >= 1,
    decreases s.len(),
{
    if s.len() > 0 {
        lemma_split_nonempty(s.drop_first(), sep);
    }
}

/// Reading past a separator closes the current piece.
pub(crate) proof fn lemma_split_at_sep(p: Seq<char>, s: Seq<char>, sep: char)
    requires
        s.len() > 0,
        s[0] == sep,
    ensures
        split_after(p, s, sep) == seq![p] + split_after(Seq::empty(), s.drop_first(), sep),
{
    lemma_split_nonempty(s.drop_first(), sep);
    let rest = split(s.drop_first(), sep);
    assert(split_after(Seq::empty(), s.drop_first(), sep) =~= rest);
    assert(split_after(p, s, sep) =~= seq![p] + rest);
}

/// Reading another character extends the current piece.
pub(crate) proof fn lemma_split_at_char(p: Seq<char>, s: Seq<char>, sep: char)
    requires
        s.len() > 0,
        s[0] != sep,
    ensures
        split_after(p, s, sep) == split_after(p.push(s[0]), s.drop_first(), sep),
{
    lemma_split_nonempty(s.drop_first(), sep);
    assert(p + (seq![s[0]] + split(s.drop_first(), sep)[0]) =~= p.push(s[0]) + split(
        s.drop_first(),
        sep,
    )[0]);
    assert(split_after(p, s, sep) =~= split_after(p.push(s[0]), s.drop_first(), sep));
}

/// Once an element fails, the whole array fails.
proof fn lemma_parse_all_fails(x: Seq<Seq<char>>, y: Seq<Seq<char>>)
    requires
        parse_all(x) is None,
    ensures
        parse_all(x + y) is None,
    decreases y.len(),
{
    if y.len() == 0 {
        assert(x + y =~= x);
    } else {
        lemma_parse_all_fails(x, y.drop_last());
        assert((x + y).drop_last() =~= x + y.drop_last());
    }
}

/// White space as Unicode defines it.
fn is_whitespace(c: char) -> (r: bool)
    ensures
        r == is_ws(c),
{
    let u = c as u32;
    (9 <= u && u <= 13) || u == 32 || u == 0x85 || u == 0xa0 || u == 0x1680 || (0x2000 <= u && u
        <= 0x200a) || u == 0x2028 || u == 0x2029 || u == 0x202f || u == 0x205f || u == 0x3000
}

pub(crate) fn chars_of(s: &str) -> (r: Vec<char>)
    ensures
        r@ == s@,
{
    let n = s.unicode_len();
    let mut cs: Vec<char> = Vec::new();
    let mut j: usize = 0;
    while j < n
        invariant
            j <= n,
            n == s@.len(),
            cs@ == s@.take(j as int),
        decreases n - j,
    {
        cs.push(s.get_char(j));
        j += 1;
        assert(cs@ =~= s@.take(j as int));
    }
    assert(s@.take(n as int) =~= s@);
    cs
}

/// The bounds of `cs[lo..hi]` without its leading and trailing white space.
fn trim_range(cs: &Vec<char>, lo: usize, hi: usize) -> (r: (usize, usize))
    requires
        lo <= hi <= cs@.len(),
    ensures
        lo <= r.0 <= r.1 <= hi,
        cs@.subrange(r.0 as int, r.1 as int) == trim(cs@.subrange(lo as int, hi as int)),
{
    let mut a = lo;
    while a < hi && is_whitespace(cs[a])
        invariant
            lo <= a <= hi <= cs@.len(),
            trim_start(cs@.subrange(lo as int, hi as int)) == trim_start(
                cs@.subrange(a as int, hi as int),
            ),
        decreases hi - a,
    {
        assert(cs@.subrange(a as int, hi as int).drop_first() =~= cs@.subrange(a + 1, hi as int));
        a += 1;
    }
    let mut b = hi;
    while b > a && is_whitespace(cs[b - 1])
        invariant
            lo <= a <= b <= hi <= cs@.len(),
            trim_start(cs@.subrange(lo as int, hi as int)) == cs@.subrange(a as int, hi as int),
            trim_end(cs@.subrange(a as int, hi as int)) == trim_end(cs@.subrange(a as int, b as int)),
        decreases b - a,
    {
        assert(cs@.subrange(a as int, b as int).drop_last() =~= cs@.subrange(a as int, b - 1));
        b -= 1;
    }
    (a, b)
}

/// `cs[lo..hi]` with the pair `a b` replaced by `r`.
fn replace_pair_in(cs: &Vec<char>, lo: usize, hi: usize, a: char, b: char, r: char) -> (out: Vec<
    char,
>)
    requires
        lo <= hi <= cs@.len(),
    ensures
        out@ == replace_pair(cs@.subrange(lo as int, hi as int), a, b, r),
{
    let mut out: Vec<char> = Vec::new();
    let mut j = lo;
    while j < hi
        invariant
            lo <= j <= hi <= cs@.len(),
            replace_pair(cs@.subrange(lo as int, hi as int), a, b, r) == out@ + replace_pair(
                cs@.subrange(j as int, hi as int),
                a,
                b,
                r,
            ),
        decreases hi - j,
    {
        let ghost rest = cs@.subrange(j as int, hi as int);
        if j + 1 < hi && cs[j] == a && cs[j + 1] == b {
            assert(rest.subrange(2, rest.len() as int) =~= cs@.subrange(j + 2, hi as int));
            out.push(r);
            j += 2;
        } else {
            assert(rest.drop_first() =~= cs@.subrange(j + 1, hi as int));
            out.push(cs[j]);
            j += 1;
        }
    }
    assert(cs@.subrange(hi as int, hi as int) =~= Seq::<char>::empty());
    out
}

fn string_of(cs: &Vec<char>) -> (r: String)
    ensures
        r@ == cs@,
{
    let mut out = String::new();
    let mut j: usize = 0;
    while j < cs.len()
        invariant
            j <= cs@.len(),
            out@ == cs@.take(j as int),
        decreases cs@.len() - j,
    {
        push_char(&mut out, cs[j]);
        j += 1;
        assert(out@ =~= cs@.take(j as int));
    }
    assert(cs@.take(cs@.len() as int) =~= cs@);
    out
}

/// One element of the array, `cs[lo..hi]`.
fn parse_part(cs: &Vec<char>, lo: usize, hi: usize) -> (r: Option<String>)
    requires
        lo <= hi <= cs@.len(),
    ensures
        match r {
            Some(k) => parse_key(cs@.subrange(lo as int, hi as int)) == Some(k@),
            None => parse_key(cs@.subrange(lo as int, hi as int)) is None,
        },
{
    let (a, b) = trim_range(cs, lo, hi);
    if b - a >= 2 && cs[a] == '"' && cs[b - 1] == '"' {
        let once = replace_pair_in(cs, a + 1, b - 1, '\\', '"', '"');
        let twice = replace_pair_in(&once, 0, once.len(), '\\', '\\', '\\');
        proof {
            let p = cs@.subrange(a as int, b as int);
            assert(p.subrange(1, p.len() - 1) =~= cs@.subrange(a + 1, b - 1));
            assert(once@.subrange(0, once@.len() as int) =~= once@);
        }
        Some(string_of(&twice))
    } else {
        None
    }
}

/// The views of a list of strings.
pub open spec fn views(keys: Seq<String>) -> Seq<Seq<char>> {
    keys.map_values(|k: String| k@)
}

/// The elements of the array body `cs[lo..end]`, split at every comma.
fn parse_elements(cs: &Vec<char>, lo: usize, end: usize) -> (r: Option<Vec<String>>)
    requires
        lo <= end <= cs@.len(),
    ensures
        match r {
            Some(keys) => parse_all(split(cs@.subrange(lo as int, end as int), ',')) == Some(
                views(keys@),
            ),
            None => parse_all(split(cs@.subrange(lo as int, end as int), ',')) is None,
        },
{
    let ghost inner = cs@.subrange(lo as int, end as int);
    proof {
        lemma_split_nonempty(inner, ',');
        assert(split_after(Seq::empty(), inner, ',') =~= split(inner, ','));
        assert(cs@.subrange(lo as int, lo as int) =~= Seq::<char>::empty());
    }
    let mut keys: Vec<String> = Vec::new();
    let ghost mut done: Seq<Seq<char>> = Seq::empty();
    let mut st = lo;
    let mut j = lo;
    while j < end
        invariant
            lo <= st <= j <= end <= cs@.len(),
            inner == cs@.subrange(lo as int, end as int),
            split(inner, ',') == done + split_after(
                cs@.subrange(st as int, j as int),
                cs@.subrange(j as int, end as int),
                ',',
            ),
            parse_all(done) == Some(views(keys@)),
        decreases end - j,
    {
        let ghost rest = cs@.subrange(j as int, end as int);
        proof {
            assert(rest.drop_first() =~= cs@.subrange(j + 1, end as int));
        }
        if cs[j] == ',' {
            let ghost p = cs@.subrange(st as int, j as int);
            let ghost tail = split_after(Seq::empty(), cs@.subrange(j + 1, end as int), ',');
            proof {
                lemma_split_at_sep(p, rest, ',');
                assert(done + (seq![p] + tail) =~= done.push(p) + tail);
                assert(done.push(p).drop_last() =~= done);
            }
            match parse_part(cs, st, j) {
                Some(k) => {
                    keys.push(k);
                    proof {
                        assert(views(keys@) =~= views(without_last(keys@)).push(k@));
                        assert(cs@.subrange(j + 1, j + 1) =~= Seq::<char>::empty());
                        done = done.push(p);
                    }
                },
                None => {
                    proof {
                        lemma_parse_all_fails(done.push(p), tail);
                    }
                    return None;
                },
            }
            st = j + 1;
        } else {
            proof {
                lemma_split_at_char(cs@.subrange(st as int, j as int), rest, ',');
                assert(cs@.subrange(st as int, j + 1) =~= cs@.subrange(st as int, j as int).push(
                    cs@[j as int],
                ));
            }
        }
        j += 1;
    }
    // The last element runs to the end.
    let ghost p = cs@.subrange(st as int, end as int);
    proof {
        assert(cs@.subrange(end as int, end as int) =~= Seq::<char>::empty());
        assert(split_after(p, Seq::empty(), ',') =~= seq![p]);
        assert(split(inner, ',') =~= done.push(p));
        assert(done.push(p).drop_last() =~= done);
    }
    match parse_part(cs, st, end) {
        Some(k) => {
            keys.push(k);
            proof {
                assert(views(keys@) =~= views(without_last(keys@)).push(k@));
            }
            Some(keys)
        },
        None => None,
    }
}

impl KeyBindings {
    /// Read bindings back from a JSON array of nine strings, as `to_json`
    /// writes them.
    pub fn from_json(s: &str) -> (r: Option<Self>)
        ensures
            match r {
                Some(kb) => spec_from_json(s@) == Some(kb@),
                None => spec_from_json(s@) is None,
            },
    {
        // Minimal JSON array parser for ["key1","key2",...]
        let cs = chars_of(s);
        let (lo, hi) = trim_range(&cs, 0, cs.len());
        proof {
            assert(cs@.subrange(0, cs@.len() as int) =~= s@);
        }
        if !(lo < hi && cs[lo] == '[' && cs[hi - 1] == ']') {
            return None;
        }
        proof {
            let t = cs@.subrange(lo as int, hi as int);
            assert(t.subrange(1, t.len() - 1) =~= cs@.subrange(lo + 1, hi - 1));
        }
        let mut keys = match parse_elements(&cs, lo + 1, hi - 1) {
            Some(keys) => keys,
            None => {
                return None;
            },
        };
        if keys.len() != 9 {
            return None;
        }
        let ghost all = views(keys@);
        let k8 = keys.pop().unwrap();
        let k7 = keys.pop().unwrap();
        let k6 = keys.pop().unwrap();
        let k5 = keys.pop().unwrap();
        let k4 = keys.pop().unwrap();
        let k3 = keys.pop().unwrap();
        let k2 = keys.pop().unwrap();
        let k1 = keys.pop().unwrap();
        let k0 = keys.pop().unwrap();
        let kb = KeyBindings { keys: [k0, k1, k2, k3, k4, k5, k6, k7, k8] };
        proof {
            assert(kb@ =~= all);
        }
        Some(kb)
    }
}

/// The list before its last element.
pub open spec fn without_last(keys: Seq<String>) -> Seq<String> {
    keys.drop_last()
}

// ---------------------------------------------------------------------------
// Reading back what was written
// ---------------------------------------------------------------------------

/// No comma in the text.
pub open spec fn comma_free(k: Seq<char>) -> bool {
    forall|i: int| 0 <= i < k.len() ==> k[i] != ','
}

proof fn lemma_escape_append(a: Seq<char>, b: Seq<char>)
    ensures
        escape(a + b) == escape(a) + escape(b),
    decreases b.len(),
{
    if b.len() == 0 {
        assert(a + b =~= a);
        assert(escape(a) + escape(b) =~= escape(a));
    } else {
        lemma_escape_append(a, b.drop_last());
        assert((a + b).drop_last() =~= a + b.drop_last());
        assert((a + b).last() == b.last());
        assert(escape(a + b) =~= escape(a) + escape(b));
    }
}

/// Escaping works character by character from the front too.
proof fn lemma_escape_front(k: Seq<char>)
    requires
        k.len() > 0,
    ensures
        escape(k) == escape_char(k[0]) + escape(k.drop_first()),
        escape(k)[0] != '"',
{
    lemma_escape_append(seq![k[0]], k.drop_first());
    assert(seq![k[0]] + k.drop_first() =~= k);
    assert(seq![k[0]].drop_last() =~= Seq::<char>::empty());
    assert(escape(Seq::<char>::empty()) =~= Seq::<char>::empty());
    assert(seq![k[0]].last() == k[0]);
    assert(escape(seq![k[0]]) == escape(seq![k[0]].drop_last()) + escape_char(k[0]));
    assert(escape(seq![k[0]]) =~= escape_char(k[0]));
}

/// A key with its quotes unescaped but its backslashes still doubled.
pub open spec fn half_escape(k: Seq<char>) -> Seq<char>
    decreases k.len(),
{
    if k.len() == 0 {
        k
    } else {
        (if k[0] == '\\' {
            seq!['\\', '\\']
        } else {
            seq![k[0]]
        }) + half_escape(k.drop_first())
    }
}

proof fn lemma_unescape_quotes(k: Seq<char>)
    ensures
        replace_pair(escape(k), '\\', '"', '"') == half_escape(k),
    decreases k.len(),
{
    if k.len() == 0 {
        assert(escape(k) =~= Seq::<char>::empty());
    } else {
        let c = k[0];
        let rest = k.drop_first();
        let e = escape(rest);
        lemma_escape_front(k);
        lemma_unescape_quotes(rest);
        let s = escape(k);
        if c == '"' {
            assert(s.subrange(2, s.len() as int) =~= e);
        } else if c == '\\' {
            let t = s.drop_first();
            assert(t =~= seq!['\\'] + e);
            if e.len() > 0 {
                lemma_escape_front(rest);
            }
            assert(t.drop_first() =~= e);
            assert(replace_pair(t, '\\', '"', '"') == seq!['\\'] + replace_pair(e, '\\', '"', '"'));
            assert(replace_pair(s, '\\', '"', '"') =~= seq!['\\', '\\'] + half_escape(rest));
        } else {
            assert(s.drop_first() =~= e);
        }
    }
}

proof fn lemma_unescape_backslashes(k: Seq<char>)
    ensures
        replace_pair(half_escape(k), '\\', '\\', '\\') == k,
    decreases k.len(),
{
    if k.len() > 0 {
        let h = half_escape(k);
        let rest = k.drop_first();
        lemma_unescape_backslashes(rest);
        if k[0] == '\\' {
            assert(h.subrange(2, h.len() as int) =~= half_escape(rest));
        } else {
            assert(h.drop_first() =~= half_escape(rest));
        }
        assert(seq![k[0]] + rest =~= k);
    }
}

/// Unescaping undoes escaping.
pub proof fn lemma_unescape_escape(k: Seq<char>)
    ensures
        unescape(escape(k)) == k,
{
    lemma_unescape_quotes(k);
    lemma_unescape_backslashes(k);
}

proof fn lemma_quoted_comma_free(k: Seq<char>)
    requires
        comma_free(k),
    ensures
        comma_free(quoted(k)),
    decreases k.len(),
{
    if k.len() > 0 {
        lemma_quoted_comma_free(k.drop_last());
        let e = escape(k.drop_last());
        assert forall|i: int| 0 <= i < e.len() implies e[i] != ',' by {
            assert(e[i] == quoted(k.drop_last())[i + 1]);
        }
        assert(comma_free(escape(k.drop_last())));
        assert(k.last() != ',');
        assert(comma_free(escape(k)));
    }
}

proof fn lemma_parse_quoted(k: Seq<char>)
    ensures
        parse_key(quoted(k)) == Some(k),
{
    let q = quoted(k);
    assert(q[0] == '"');
    assert(q.last() == '"');
    assert(trim_start(q) == q);
    assert(trim_end(q) == q);
    assert(q.subrange(1, q.len() - 1) =~= escape(k));
    lemma_unescape_escape(k);
}

proof fn lemma_split_append_sep(a: Seq<char>, b: Seq<char>, sep: char)
    ensures
        split(a + seq![sep] + b, sep) == split(a, sep) + split(b, sep),
    decreases a.len(),
{
    let s = a + seq![sep] + b;
    if a.len() == 0 {
        assert(s.drop_first() =~= b);
    } else {
        lemma_split_append_sep(a.drop_first(), b, sep);
        assert(s.drop_first() =~= a.drop_first() + seq![sep] + b);
        lemma_split_nonempty(a.drop_first(), sep);
        assert(split(s, sep) =~= split(a, sep) + split(b, sep));
    }
}

proof fn lemma_split_without_sep(b: Seq<char>, sep: char)
    requires
        forall|i: int| 0 <= i < b.len() ==> b[i] != sep,
    ensures
        split(b, sep) == seq![b],
    decreases b.len(),
{
    if b.len() == 0 {
        assert(b =~= Seq::<char>::empty());
        assert(split(b, sep) =~= seq![b]);
    } else {
        let rest = b.drop_first();
        assert forall|i: int| 0 <= i < rest.len() implies rest[i] != sep by {
            assert(rest[i] == b[i + 1]);
        }
        lemma_split_without_sep(rest, sep);
        assert(seq![b[0]] + rest =~= b);
        assert(b[0] != sep);
        let r = split(rest, sep);
        assert(r.len() == 1 && r[0] == rest);
        assert(split(b, sep) == r.update(0, seq![b[0]] + r[0]));
        assert(split(b, sep).len() == 1);
        assert(split(b, sep)[0] == b);
        assert(split(b, sep) =~= seq![b]);
    }
}

proof fn lemma_split_join(parts: Seq<Seq<char>>)
    requires
        parts.len() >= 1,
        forall|i: int| 0 <= i < parts.len() ==> comma_free(#[trigger] parts[i]),
    ensures
        split(join(parts), ',') == parts,
    decreases parts.len(),
{
    if parts.len() == 1 {
        lemma_split_without_sep(parts[0], ',');
        assert(seq![parts[0]] =~= parts);
    } else {
        let init = parts.drop_last();
        assert forall|i: int| 0 <= i < init.len() implies comma_free(#[trigger] init[i]) by {
            assert(init[i] == parts[i]);
        }
        lemma_split_join(init);
        lemma_split_append_sep(join(init), parts.last(), ',');
        assert(comma_free(parts[parts.len() - 1]));
        lemma_split_without_sep(parts.last(), ',');
        assert(init + seq![parts.last()] =~= parts);
    }
}

proof fn lemma_parse_all_quoted(keys: Seq<Seq<char>>)
    ensures
        parse_all(keys.map_values(|k: Seq<char>| quoted(k))) == Some(keys),
    decreases keys.len(),
{
    let qs = keys.map_values(|k: Seq<char>| quoted(k));
    if keys.len() == 0 {
        assert(keys =~= Seq::<Seq<char>>::empty());
    } else {
        lemma_parse_all_quoted(keys.drop_last());
        assert(qs.drop_last() =~= keys.drop_last().map_values(|k: Seq<char>| quoted(k)));
        lemma_parse_quoted(keys.last());
        assert(keys.drop_last().push(keys.last()) =~= keys);
    }
}

/// Bindings written by `to_json` read back as the same bindings, as long
/// as no key contains a comma (the reader splits the array at every
/// comma).
pub proof fn lemma_json_roundtrip(keys: Seq<Seq<char>>)
    requires
        keys.len() == 9,
        forall|i: int| 0 <= i < keys.len() ==> comma_free(#[trigger] keys[i]),
    ensures
        spec_from_json(spec_to_json(keys)) == Some(keys),
{
    let qs = keys.map_values(|k: Seq<char>| quoted(k));
    let j = spec_to_json(keys);
    assert(j[0] == '[');
    assert(j.last() == ']');
    assert(trim_start(j) == j);
    assert(trim_end(j) == j);
    assert(j.subrange(1, j.len() - 1) =~= join(qs));
    assert forall|i: int| 0 <= i < qs.len() implies comma_free(#[trigger] qs[i]) by {
        lemma_quoted_comma_free(keys[i]);
    }
    lemma_split_join(qs);
    lemma_parse_all_quoted(keys);
}

} // verus!
