//! Text handling: cutting a text into pieces and joining pieces, flattening a
//! message to one line, and decimal numerals.

use itertools::Itertools;
use vstd::prelude::*;

verus! {

/// `String::push` of std appends one character to the end of the string.
pub assume_specification[ String::push ](s: &mut String, ch: char)
    ensures
        final(s)@ == old(s)@.push(ch),
;

/// The texts of a list of strings.
pub open spec fn texts(parts: Seq<String>) -> Seq<Seq<char>> {
    parts.map_values(|p: String| p@)
}

/// The pieces of `s` that lie between the occurrences of `sep`. There is
/// always one piece more than there are separators, so at least one.
pub open spec fn split(s: Seq<char>, sep: char) -> Seq<Seq<char>>
    decreases s.len(),
{
    if s.len() == 0 {
        seq![Seq::empty()]
    } else {
        let head = split(s.drop_last(), sep);
        if s.last() == sep {
            head.push(Seq::empty())
        } else {
            head.update(head.len() - 1, head.last().push(s.last()))
        }
    }
}

/// Cuts `msg` at every occurrence of `sep`.
pub fn split_on(msg: &str, sep: char) -> (parts: Vec<String>)
    ensures
        texts(parts@) == split(msg@, sep),
{
    let mut parts: Vec<String> = Vec::new();
    let mut current = String::new();
    for c in it: msg.chars()
        invariant
            it.seq() == msg@,
            texts(parts@).push(current@) == split(msg@.take(it.index() as int), sep),
    {
        let ghost k = it.index() as int;
        let ghost head = split(msg@.take(k), sep);
        proof {
            assert(msg@.take(k + 1).drop_last() =~= msg@.take(k));
            assert(msg@.take(k + 1).last() == c);
        }
        if c == sep {
            parts.push(current);
            current = String::new();
            proof {
                assert(texts(parts@) =~= head);
            }
        } else {
            current.push(c);
            proof {
                assert(texts(parts@).push(current@) =~= head.update(
                    head.len() - 1,
                    head.last().push(c),
                ));
            }
        }
    }
    proof {
        assert(msg@.take(msg@.len() as int) =~= msg@);
        assert(texts(parts@.push(current)) =~= texts(parts@).push(current@));
    }
    parts.push(current);
    parts
}

/// The pieces of `parts` written one after another with `sep` between each
/// two neighbours.
pub open spec fn joined(parts: Seq<Seq<char>>, sep: Seq<char>) -> Seq<char>
    decreases parts.len(),
{
    if parts.len() == 0 {
        Seq::empty()
    } else if parts.len() == 1 {
        parts[0]
    } else {
        joined(parts.drop_last(), sep) + sep + parts.last()
    }
}

/// `itertools::Itertools::join`, called on the strings of `parts` in order.
/// The claim: the result is every element as it displays, which for a string
/// is the string itself, with `sep` written between each two neighbours, and
/// the empty string when there is no element. The separator is held to one
/// character at most, so that the capacity the call reserves up front, the
/// separator's byte length times the number of elements, stays in range.
#[verifier::external_body]
fn join(parts: &Vec<String>, sep: &str) -> (out: String)
    requires
        sep@.len() <= 1,
    ensures
        out@ == joined(texts(parts@), sep@),
{
    parts.iter().join(sep)
}

/// `s` with every occurrence of `from` replaced by `to`.
pub open spec fn replaced(s: Seq<char>, from: char, to: char) -> Seq<char> {
    s.map_values(|c: char| if c == from { to } else { c })
}

/// `s` with every line break replaced by one space.
pub open spec fn single_line(s: Seq<char>) -> Seq<char> {
    replaced(s, '\n', ' ')
}

/// Appending a character to the last piece appends it to the joined text.
proof fn lemma_joined_extend_last(parts: Seq<Seq<char>>, sep: Seq<char>, c: char)
    requires
        parts.len() >= 1,
    ensures
        joined(parts.update(parts.len() - 1, parts.last().push(c)), sep) == joined(
            parts,
            sep,
        ).push(c),
{
    let grown = parts.update(parts.len() - 1, parts.last().push(c));
    if parts.len() == 1 {
        assert(grown[0] == parts[0].push(c));
    } else {
        assert(grown.drop_last() =~= parts.drop_last());
        assert(grown.last() == parts.last().push(c));
        assert(joined(parts.drop_last(), sep) + sep + parts.last().push(c) =~= (joined(
            parts.drop_last(),
            sep,
        ) + sep + parts.last()).push(c));
    }
}

/// Cutting a text at every `from` and joining the pieces with `to` is the
/// same as replacing every `from` by `to`.
pub proof fn lemma_split_then_join(s: Seq<char>, from: char, to: char)
    ensures
        split(s, from).len() >= 1,
        joined(split(s, from), seq![to]) == replaced(s, from, to),
    decreases s.len(),
{
    if s.len() == 0 {
        assert(replaced(s, from, to) =~= Seq::<char>::empty());
    } else {
        let front = s.drop_last();
        let head = split(front, from);
        lemma_split_then_join(front, from, to);
        if s.last() == from {
            assert(head.push(Seq::empty()).drop_last() =~= head);
            assert(joined(head, seq![to]) + seq![to] + Seq::<char>::empty() =~= replaced(
                s,
                from,
                to,
            ));
        } else {
            lemma_joined_extend_last(head, seq![to], s.last());
            assert(joined(head, seq![to]).push(s.last()) =~= replaced(s, from, to));
        }
    }
}

/// Collapses a message of several lines into one line: every line break
/// becomes a single space and nothing else changes.
pub fn to_single_line(msg: &str) -> (out: String)
    ensures
        out@ == single_line(msg@),
        out@.len() == msg@.len(),
        forall|i: int| 0 <= i < out@.len() ==> out@[i] != '\n',
{
    let parts = split_on(msg, '\n');
    proof {
        reveal_strlit(" ");
        assert(" "@ =~= seq![' ']);
        lemma_split_then_join(msg@, '\n', ' ');
    }
    join(&parts, " ")
}

/// The character that writes the decimal digit `d`.
pub open spec fn digit(d: int) -> char {
    if d == 0 {
        '0'
    } else if d == 1 {
        '1'
    } else if d == 2 {
        '2'
    } else if d == 3 {
        '3'
    } else if d == 4 {
        '4'
    } else if d == 5 {
        '5'
    } else if d == 6 {
        '6'
    } else if d == 7 {
        '7'
    } else if d == 8 {
        '8'
    } else {
        '9'
    }
}

/// The decimal digits of `n`, most significant first, without leading zeros.
pub open spec fn digits(n: nat) -> Seq<char>
    decreases n,
{
    if n < 10 {
        seq![digit(n as int)]
    } else {
        digits(n / 10).push(digit((n % 10) as int))
    }
}

/// The decimal numeral of `n`, with a minus sign in front when it is negative.
pub open spec fn decimal(n: int) -> Seq<char> {
    if n < 0 {
        seq!['-'] + digits((-n) as nat)
    } else {
        digits(n as nat)
    }
}

fn digit_char(d: u64) -> (c: char)
    requires
        d < 10,
    ensures
        c == digit(d as int),
{
    if d == 0 {
        '0'
    } else if d == 1 {
        '1'
    } else if d == 2 {
        '2'
    } else if d == 3 {
        '3'
    } else if d == 4 {
        '4'
    } else if d == 5 {
        '5'
    } else if d == 6 {
        '6'
    } else if d == 7 {
        '7'
    } else if d == 8 {
        '8'
    } else {
        '9'
    }
}

/// Appends the decimal numeral of `n` to `out`.
pub fn push_decimal(out: &mut String, n: i32)
    ensures
        final(out)@ == old(out)@ + decimal(n as int),
{
    let wide: i64 = n as i64;
    let magnitude: u64 = if wide < 0 {
        out.push('-');
        (-wide) as u64
    } else {
        wide as u64
    };
    let ghost start = out@;
    let mut low: Vec<char> = Vec::new();
    low.push(digit_char(magnitude % 10));
    let mut rest: u64 = magnitude / 10;
    while rest > 0
        invariant
            low@.len() >= 1,
            digits(magnitude as nat) == if rest > 0 {
                digits(rest as nat) + low@.reverse()
            } else {
                low@.reverse()
            },
        decreases rest,
    {
        let ghost before = low@;
        low.push(digit_char(rest % 10));
        proof {
            let d = digit((rest % 10) as int);
            assert(low@.reverse() =~= seq![d] + before.reverse());
            if rest >= 10 {
                assert(digits((rest / 10) as nat).push(d) + before.reverse() =~= digits(
                    (rest / 10) as nat,
                ) + low@.reverse());
            }
        }
        rest = rest / 10;
    }
    let mut k: usize = low.len();
    while k > 0
        invariant
            k <= low@.len(),
            out@ == start + low@.reverse().take(low@.len() - k),
        decreases k,
    {
        k -= 1;
        out.push(low[k]);
        proof {
            let r = low@.reverse();
            let j = low@.len() - k - 1;
            assert(r[j] == low@[k as int]);
            assert(r.take(j + 1) =~= r.take(j).push(r[j]));
            assert(start + r.take(j + 1) =~= (start + r.take(j)).push(r[j]));
        }
    }
    proof {
        assert(low@.reverse().take(low@.len() as int) =~= low@.reverse());
        if wide < 0 {
            assert(start + digits(magnitude as nat) =~= old(out)@ + (seq!['-'] + digits(
                magnitude as nat,
            )));
        }
    }
}

/// Appends `piece` to `out`.
pub fn push_text(out: &mut String, piece: &str)
    ensures
        final(out)@ == old(out)@ + piece@,
{
    out.append(piece);
}

} // verus!
