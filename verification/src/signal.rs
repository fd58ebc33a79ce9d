//! The address of the signaling server, from the page's address: a
//! `?signal=host:port` query parameter wins; else over HTTPS the same
//! origin's `/ws` path, and otherwise port 3536 of the page's host name.
use vstd::prelude::*;

use crate::input::same_text;
use crate::bindings::{
    chars_of, lemma_split_at_char, lemma_split_at_sep, lemma_split_nonempty, push_char, split,
    split_after,
};

verus! {

/// The text without its leading `?` characters.
pub open spec fn trim_question(s: Seq<char>) -> Seq<char>
    decreases s.len(),
{
    if s.len() > 0 && s[0] == '?' {
        trim_question(s.drop_first())
    } else {
        s
    }
}

/// The value of the first `signal=` parameter that has one.
pub open spec fn signal_param(params: Seq<Seq<char>>) -> Option<Seq<char>>
    decreases params.len(),
{
    if params.len() == 0 {
        None
    } else {
        let p = params[0];
        if p.len() > 7 && p.take(7) == "signal="@ {
            Some(p.skip(7))
        } else {
            signal_param(params.drop_first())
        }
    }
}

/// The signaling server's URL for a page with the given query string,
/// protocol (such as `https:`), host (with port) and host name.
pub open spec fn spec_signaling_url(
    search: Seq<char>,
    protocol: Seq<char>,
    host: Seq<char>,
    hostname: Seq<char>,
) -> Seq<char> {
    match signal_param(split(trim_question(search), '&')) {
        Some(server) => "ws://"@ + server,
        None => if protocol == "https:"@ {
            "wss://"@ + host + "/ws"@
        } else {
            "ws://"@ + hostname + ":3536"@
        },
    }
}

/// A parameter without a value adds nothing to what follows it.
proof fn lemma_signal_param_append(a: Seq<Seq<char>>, b: Seq<Seq<char>>)
    requires
        signal_param(a) is None,
    ensures
        signal_param(a + b) == signal_param(b),
    decreases a.len(),
{
    if a.len() > 0 {
        assert((a + b).drop_first() =~= a.drop_first() + b);
        lemma_signal_param_append(a.drop_first(), b);
    } else {
        assert(a + b =~= b);
    }
}

/// The first parameter with a value gives it, whatever follows.
proof fn lemma_signal_param_found(a: Seq<Seq<char>>, p: Seq<char>, b: Seq<Seq<char>>)
    requires
        signal_param(a) is None,
        p.len() > 7,
        p.take(7) == "signal="@,
    ensures
        signal_param(a + seq![p] + b) == Some(p.skip(7)),
{
    lemma_signal_param_append(a, seq![p] + b);
    assert(a + seq![p] + b =~= a + (seq![p] + b));
}

/// A single parameter without a `signal=` value gives nothing.
proof fn lemma_signal_param_single(p: Seq<char>)
    requires
        !(p.len() > 7 && p.take(7) == "signal="@),
    ensures
        signal_param(seq![p]) is None,
{
    let e = Seq::<Seq<char>>::empty();
    assert(signal_param(e) is None);
    assert(seq![p][0] == p);
    assert(seq![p].drop_first() =~= e);
}

/// Append a text.
pub(crate) fn push_text(out: &mut String, t: &str)
    ensures
        final(out)@ == old(out)@ + t@,
{
    let n = t.unicode_len();
    let mut j: usize = 0;
    while j < n
        invariant
            j <= n,
            n == t@.len(),
            out@ == old(out)@ + t@.take(j as int),
        decreases n - j,
    {
        push_char(out, t.get_char(j));
        proof {
            assert(t@.take(j + 1) =~= t@.take(j as int).push(t@[j as int]));
        }
        j += 1;
    }
    proof {
        assert(t@.take(n as int) =~= t@);
    }
}

/// Append `cs[lo..hi]`.
fn push_chars(out: &mut String, cs: &Vec<char>, lo: usize, hi: usize)
    requires
        lo <= hi <= cs@.len(),
    ensures
        final(out)@ == old(out)@ + cs@.subrange(lo as int, hi as int),
{
    let mut j = lo;
    while j < hi
        invariant
            lo <= j <= hi <= cs@.len(),
            out@ == old(out)@ + cs@.subrange(lo as int, j as int),
        decreases hi - j,
    {
        push_char(out, cs[j]);
        proof {
            assert(cs@.subrange(lo as int, j + 1) =~= cs@.subrange(lo as int, j as int).push(
                cs@[j as int],
            ));
        }
        j += 1;
    }
}

/// Whether `cs[lo..hi]` is `signal=` followed by a value.
fn is_signal_param(cs: &Vec<char>, lo: usize, hi: usize) -> (r: bool)
    requires
        lo <= hi <= cs@.len(),
    ensures
        r == ({
            let p = cs@.subrange(lo as int, hi as int);
            p.len() > 7 && p.take(7) == "signal="@
        }),
{
    let prefix = chars_of("signal=");
    proof {
        reveal_strlit("signal=");
    }
    if hi - lo <= 7 {
        return false;
    }
    let ghost p = cs@.subrange(lo as int, hi as int);
    let mut k: usize = 0;
    while k < 7
        invariant
            k <= 7,
            hi - lo > 7,
            lo <= hi <= cs@.len(),
            p == cs@.subrange(lo as int, hi as int),
            prefix@ == "signal="@,
            prefix@.len() == 7,
            p.take(k as int) == prefix@.take(k as int),
        decreases 7 - k,
    {
        if cs[lo + k] != prefix[k] {
            assert(p.take(7)[k as int] != "signal="@[k as int]);
            return false;
        }
        proof {
            assert(p.take(k + 1) =~= prefix@.take(k + 1));
        }
        k += 1;
    }
    proof {
        assert(prefix@.take(7) =~= prefix@);
    }
    true
}

/// Where the first parameter of `cs[lo..end]` (split at `&`) with a
/// `signal=` value lies: the value's start and end.
fn find_signal_param(cs: &Vec<char>, lo: usize, end: usize) -> (r: Option<(usize, usize)>)
    requires
        lo <= end <= cs@.len(),
    ensures
        match r {
            Some((a, b)) => a <= b <= end && signal_param(
                split(cs@.subrange(lo as int, end as int), '&'),
            ) == Some(cs@.subrange(a as int, b as int)),
            None => signal_param(split(cs@.subrange(lo as int, end as int), '&')) is None,
        },
{
    let ghost inner = cs@.subrange(lo as int, end as int);
    proof {
        lemma_split_nonempty(inner, '&');
        assert(split_after(Seq::empty(), inner, '&') =~= split(inner, '&'));
        assert(cs@.subrange(lo as int, lo as int) =~= Seq::<char>::empty());
    }
    let ghost mut done: Seq<Seq<char>> = Seq::empty();
    let mut st = lo;
    let mut j = lo;
    while j < end
        invariant
            lo <= st <= j <= end <= cs@.len(),
            inner == cs@.subrange(lo as int, end as int),
            split(inner, '&') == done + split_after(
                cs@.subrange(st as int, j as int),
                cs@.subrange(j as int, end as int),
                '&',
            ),
            signal_param(done) is None,
        decreases end - j,
    {
        let ghost rest = cs@.subrange(j as int, end as int);
        proof {
            assert(rest.drop_first() =~= cs@.subrange(j + 1, end as int));
        }
        if cs[j] == '&' {
            let ghost p = cs@.subrange(st as int, j as int);
            let ghost tail = split_after(Seq::empty(), cs@.subrange(j + 1, end as int), '&');
            proof {
                lemma_split_at_sep(p, rest, '&');
                assert(done + (seq![p] + tail) =~= done + seq![p] + tail);
            }
            if is_signal_param(cs, st, j) {
                proof {
                    lemma_signal_param_found(done, p, tail);
                    assert(p.skip(7) =~= cs@.subrange(st + 7, j as int));
                }
                return Some((st + 7, j));
            }
            proof {
                lemma_signal_param_single(p);
                lemma_signal_param_append(done, seq![p]);
                assert(cs@.subrange(j + 1, j + 1) =~= Seq::<char>::empty());
                assert(done + seq![p] + tail =~= done.push(p) + tail);
                assert(done + seq![p] =~= done.push(p));
                done = done.push(p);
            }
            st = j + 1;
        } else {
            proof {
                lemma_split_at_char(cs@.subrange(st as int, j as int), rest, '&');
                assert(cs@.subrange(st as int, j + 1) =~= cs@.subrange(st as int, j as int).push(
                    cs@[j as int],
                ));
            }
        }
        j += 1;
    }
    // The last parameter runs to the end.
    let ghost p = cs@.subrange(st as int, end as int);
    proof {
        assert(cs@.subrange(end as int, end as int) =~= Seq::<char>::empty());
        assert(split_after(p, Seq::empty(), '&') =~= seq![p]);
        assert(split(inner, '&') =~= done + seq![p] + Seq::<Seq<char>>::empty());
    }
    if is_signal_param(cs, st, end) {
        proof {
            lemma_signal_param_found(done, p, Seq::empty());
            assert(p.skip(7) =~= cs@.subrange(st + 7, end as int));
        }
        Some((st + 7, end))
    } else {
        proof {
            lemma_signal_param_single(p);
            lemma_signal_param_append(done, seq![p]);
            assert(split(inner, '&') =~= done + seq![p]);
        }
        None
    }
}

/// Build the signaling server URL from the current page's address (its
/// query string, protocol, host with port, and host name).
/// Priority: ?signal=host:port query param > same-origin /ws path.
/// Detects HTTPS and uses wss:// accordingly.
pub fn signaling_url(search: &str, protocol: &str, host: &str, hostname: &str) -> (r: String)
    ensures
        r@ == spec_signaling_url(search@, protocol@, host@, hostname@),
{
    let cs = chars_of(search);
    let mut lo: usize = 0;
    proof {
        assert(cs@.subrange(0, cs@.len() as int) =~= search@);
    }
    while lo < cs.len() && cs[lo] == '?'
        invariant
            lo <= cs@.len(),
            trim_question(search@) == trim_question(cs@.subrange(lo as int, cs@.len() as int)),
            cs@ == search@,
        decreases cs@.len() - lo,
    {
        proof {
            assert(cs@.subrange(lo as int, cs@.len() as int).drop_first() =~= cs@.subrange(
                lo + 1,
                cs@.len() as int,
            ));
        }
        lo += 1;
    }
    proof {
        assert(cs@.subrange(0, cs@.len() as int) =~= search@);
        assert(trim_question(search@) == cs@.subrange(lo as int, cs@.len() as int));
    }
    let mut out = String::new();
    // Check query param: ?signal=192.168.1.5:3536
    match find_signal_param(&cs, lo, cs.len()) {
        Some((a, b)) => {
            push_text(&mut out, "ws://");
            push_chars(&mut out, &cs, a, b);
        },
        None => {
            if same_text(protocol, "https:") {
                // Production: signaling proxied at /ws on same origin
                push_text(&mut out, "wss://");
                push_text(&mut out, host);
                push_text(&mut out, "/ws");
            } else {
                // Local dev: signaling on separate port
                push_text(&mut out, "ws://");
                push_text(&mut out, hostname);
                push_text(&mut out, ":3536");
            }
        },
    }
    out
}

} // verus!
