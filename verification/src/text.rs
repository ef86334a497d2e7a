//! Byte-level facts about UTF-8 text: lines, newline counts, splitting on a
//! separator byte, and the slicing of a string between character boundaries.
use vstd::prelude::*;
use vstd::string::{StringExecFns, StringSliceAdditionalSpecFns};
use vstd::utf8::{
    encode_utf8, is_char_boundary, is_char_boundary_iff_not_is_continuation_byte,
    is_char_boundary_start_end_of_seq, is_continuation_byte, length_of_first_scalar,
    pop_first_scalar, valid_utf8, valid_utf8_split, encode_utf8_valid_utf8,
};

verus! {

/// The byte of a line feed, `'\n'`.
pub const NEWLINE: u8 = 10u8;

/// The byte of a dot, `'.'`.
pub const DOT: u8 = 46u8;

/// The byte of a carriage return, `'\r'`.
pub const CARRIAGE_RETURN: u8 = 13u8;

/// The UTF-8 bytes of a string.
pub open spec fn bytes_of(s: Seq<char>) -> Seq<u8> {
    encode_utf8(s)
}

/// `pos` is a byte offset at which the text may be cut: at most its length,
/// and not inside the encoding of a character.
pub open spec fn is_cut_point(b: Seq<u8>, pos: int) -> bool {
    0 <= pos <= b.len() && is_char_boundary(b, pos)
}

/// The offset at which the line holding byte offset `pos` starts: just after
/// the last line feed before `pos`, or 0.
pub open spec fn line_start(b: Seq<u8>, pos: int) -> int
    decreases pos,
{
    if pos <= 0 {
        0
    } else if b[pos - 1] == NEWLINE {
        pos
    } else {
        line_start(b, pos - 1)
    }
}

/// The offset at which the line holding byte offset `pos` ends: the first
/// line feed at or after `pos`, or the length of the text.
pub open spec fn line_end(b: Seq<u8>, pos: int) -> int
    decreases b.len() - pos,
{
    if pos >= b.len() {
        b.len() as int
    } else if b[pos] == NEWLINE {
        pos
    } else {
        line_end(b, pos + 1)
    }
}

/// The number of line feeds in `b`.
pub open spec fn count_newlines(b: Seq<u8>) -> nat
    decreases b.len(),
{
    if b.len() == 0 {
        0
    } else {
        count_newlines(b.drop_last()) + if b.last() == NEWLINE {
            1nat
        } else {
            0nat
        }
    }
}

/// The offset of the first byte `sep` in `b`, or the length of `b`.
pub open spec fn first_index_of(b: Seq<u8>, sep: u8) -> int
    decreases b.len(),
{
    if b.len() == 0 {
        0
    } else if b[0] == sep {
        0
    } else {
        1 + first_index_of(b.drop_first(), sep)
    }
}

/// The pieces of `b` between the bytes `sep`; there is always one more piece
/// than there are separators, and pieces may be empty.
pub open spec fn split_on(b: Seq<u8>, sep: u8) -> Seq<Seq<u8>>
    decreases b.len(),
{
    let k = first_index_of(b, sep);
    proof {
        lemma_first_index_of(b, sep);
    }
    if k >= b.len() {
        seq![b]
    } else {
        seq![b.subrange(0, k)] + split_on(b.subrange(k + 1, b.len() as int), sep)
    }
}

/// `line` without one carriage return at its end, if it has one.
pub open spec fn strip_carriage_return(line: Seq<u8>) -> Seq<u8> {
    if line.len() > 0 && line.last() == CARRIAGE_RETURN {
        line.drop_last()
    } else {
        line
    }
}

/// The lines of `b`: it is cut at each line feed, a carriage return just
/// before a line feed is dropped with it, and a last line feed ends the last
/// line rather than starting an empty one. Empty text has no lines.
pub open spec fn split_lines(b: Seq<u8>) -> Seq<Seq<u8>>
    decreases b.len(),
{
    if b.len() == 0 {
        seq![]
    } else {
        let k = first_index_of(b, NEWLINE);
        proof {
            lemma_first_index_of(b, NEWLINE);
        }
        if k >= b.len() {
            seq![b]
        } else {
            seq![strip_carriage_return(b.subrange(0, k))] + split_lines(
                b.subrange(k + 1, b.len() as int),
            )
        }
    }
}

/// `parts` joined into one sequence, with `sep` between each two of them.
pub open spec fn join_with<A>(parts: Seq<Seq<A>>, sep: Seq<A>) -> Seq<A>
    decreases parts.len(),
{
    if parts.len() == 0 {
        seq![]
    } else if parts.len() == 1 {
        parts[0]
    } else {
        join_with(parts.drop_last(), sep) + sep + parts.last()
    }
}

/// The decimal digits of `n`, most significant first, without leading zeros.
pub open spec fn decimal_digits(n: nat) -> Seq<char>
    decreases n,
{
    if n < 10 {
        seq![(48 + n) as char]
    } else {
        decimal_digits(n / 10).push((48 + n % 10) as char)
    }
}

/// The number that decimal digits stand for, most significant first.
pub open spec fn digits_value(s: Seq<char>) -> int
    decreases s.len(),
{
    if s.len() == 0 {
        0
    } else {
        digits_value(s.drop_last()) * 10 + (s.last() as int - 48)
    }
}

/// The decimal digits of a number read back as that number: there is at
/// least one, each is a digit from `'0'` to `'9'`, the first is `'0'` only for
/// zero, and their value is the number.
pub proof fn law_decimal_digits(n: nat)
    ensures
        decimal_digits(n).len() >= 1,
        forall|k: int|
            0 <= k < decimal_digits(n).len() ==> '0' <= #[trigger] decimal_digits(n)[k] <= '9',
        decimal_digits(n)[0] == '0' ==> n == 0,
        digits_value(decimal_digits(n)) == n,
    decreases n,
{
    let d = decimal_digits(n);
    if n < 10 {
        assert(d.drop_last() =~= Seq::<char>::empty());
        assert(d.last() as int == 48 + n);
        assert(digits_value(d) == digits_value(d.drop_last()) * 10 + (d.last() as int - 48));
    } else {
        law_decimal_digits(n / 10);
        let front = decimal_digits(n / 10);
        assert(d.drop_last() =~= front);
        assert(d[0] == front[0]);
        assert forall|k: int| 0 <= k < d.len() implies '0' <= #[trigger] d[k] <= '9' by {
            if k < front.len() {
                assert(d[k] == front[k]);
            }
        }
        assert(n == (n / 10) * 10 + n % 10);
        assert(d.last() as int == 48 + n % 10);
        assert(digits_value(d) == digits_value(front) * 10 + (d.last() as int - 48));
    }
}

/// `count_newlines` counts the line feeds: it is the number of bytes of `b`
/// that are a line feed.
pub proof fn law_count_newlines(b: Seq<u8>)
    ensures
        count_newlines(b) == b.filter(|x: u8| x == NEWLINE).len(),
    decreases b.len(),
{
    if b.len() > 0 {
        law_count_newlines(b.drop_last());
        assert(b =~= b.drop_last().push(b.last()));
        b.drop_last().lemma_filter_push(b.last(), |x: u8| x == NEWLINE);
    } else {
        assert(b.filter(|x: u8| x == NEWLINE) =~= Seq::<u8>::empty()) by {
            reveal(Seq::filter);
        }
    }
}

/// No piece that `split_on` gives holds the separator.
pub proof fn law_split_on_pieces(b: Seq<u8>, sep: u8)
    ensures
        forall|i: int, j: int|
            0 <= i < split_on(b, sep).len() && 0 <= j < split_on(b, sep)[i].len() ==> #[trigger] split_on(b, sep)[i][j] != sep,
    decreases b.len(),
{
    let k = first_index_of(b, sep);
    lemma_first_index_of(b, sep);
    if k < b.len() {
        let rest = b.subrange(k + 1, b.len() as int);
        law_split_on_pieces(rest, sep);
        let pieces = split_on(b, sep);
        assert(pieces == seq![b.subrange(0, k)] + split_on(rest, sep));
        assert forall|i: int, j: int|
            0 <= i < pieces.len() && 0 <= j < pieces[i].len() implies #[trigger] pieces[i][j] != sep by {
            if i == 0 {
                assert(pieces[0][j] == b[j]);
            } else {
                assert(pieces[i] == split_on(rest, sep)[i - 1]);
            }
        }
    } else {
        assert(split_on(b, sep) == seq![b]);
    }
}

/// The lines of `b` are the pieces between its line feeds, in order: each is
/// its piece with every byte kept, except that a piece followed by a line
/// feed loses one carriage return (byte 13) at its end; and there is one
/// line for each piece, but none for the empty piece after a last line feed,
/// and none at all for empty text.
pub proof fn law_split_lines(b: Seq<u8>)
    ensures
        ({
            let pieces = split_on(b, NEWLINE);
            let lines = split_lines(b);
            &&& lines.len() == if b.len() == 0 {
                0
            } else if b.last() == NEWLINE {
                pieces.len() - 1
            } else {
                pieces.len() as int
            }
            &&& forall|i: int|
                0 <= i < lines.len() ==> #[trigger] lines[i] == if i + 1 < pieces.len()
                    && pieces[i].len() > 0 && pieces[i].last() == CARRIAGE_RETURN {
                    pieces[i].drop_last()
                } else {
                    pieces[i]
                }
        }),
    decreases b.len(),
{
    let k = first_index_of(b, NEWLINE);
    lemma_first_index_of(b, NEWLINE);
    let pieces = split_on(b, NEWLINE);
    let lines = split_lines(b);
    if b.len() == 0 {
        assert(pieces == seq![b]);
    } else if k >= b.len() {
        assert(pieces == seq![b]);
        assert(lines == seq![b]);
        assert(b.last() != NEWLINE) by {
            assert(b[b.len() - 1] != NEWLINE);
        }
    } else {
        let rest = b.subrange(k + 1, b.len() as int);
        law_split_lines(rest);
        lemma_split_on_nonempty(rest, NEWLINE);
        assert(pieces == seq![b.subrange(0, k)] + split_on(rest, NEWLINE));
        assert(lines == seq![strip_carriage_return(b.subrange(0, k))] + split_lines(rest));
        if rest.len() == 0 {
            assert(split_on(rest, NEWLINE) == seq![rest]);
            assert(b.last() == NEWLINE);
        } else {
            assert(rest.last() == b.last());
        }
        assert forall|i: int| 0 <= i < lines.len() implies #[trigger] lines[i] == if i + 1
            < pieces.len() && pieces[i].len() > 0 && pieces[i].last() == CARRIAGE_RETURN {
            pieces[i].drop_last()
        } else {
            pieces[i]
        } by {
            if i > 0 {
                assert(lines[i] == split_lines(rest)[i - 1]);
                assert(pieces[i] == split_on(rest, NEWLINE)[i - 1]);
            }
        }
    }
}

/// Where `first_index_of` lands: no `sep` before it, and `sep` or the end at it.
pub proof fn lemma_first_index_of(b: Seq<u8>, sep: u8)
    ensures
        0 <= first_index_of(b, sep) <= b.len(),
        forall|i: int| 0 <= i < first_index_of(b, sep) ==> b[i] != sep,
        first_index_of(b, sep) < b.len() ==> b[first_index_of(b, sep)] == sep,
    decreases b.len(),
{
    if b.len() > 0 && b[0] != sep {
        lemma_first_index_of(b.drop_first(), sep);
        assert forall|i: int| 0 <= i < first_index_of(b, sep) implies b[i] != sep by {
            if i > 0 {
                assert(b[i] == b.drop_first()[i - 1]);
            }
        }
    }
}

/// `first_index_of` is determined by the two properties that it has.
pub proof fn lemma_first_index_of_unique(b: Seq<u8>, sep: u8, k: int)
    requires
        0 <= k <= b.len(),
        forall|i: int| 0 <= i < k ==> b[i] != sep,
        k < b.len() ==> b[k] == sep,
    ensures
        first_index_of(b, sep) == k,
{
    lemma_first_index_of(b, sep);
    let f = first_index_of(b, sep);
    if f < k {
        assert(b[f] != sep);
    } else if k < f {
        assert(b[k] != sep);
    }
}

/// The line around `pos` is delimited by line feeds, and holds none.
pub proof fn lemma_line_bounds(b: Seq<u8>, pos: int)
    requires
        0 <= pos <= b.len(),
    ensures
        0 <= line_start(b, pos) <= pos <= line_end(b, pos) <= b.len(),
        line_start(b, pos) == 0 || b[line_start(b, pos) - 1] == NEWLINE,
        line_end(b, pos) == b.len() || b[line_end(b, pos)] == NEWLINE,
        forall|i: int| line_start(b, pos) <= i < line_end(b, pos) ==> b[i] != NEWLINE,
{
    lemma_line_start(b, pos);
    lemma_line_end(b, pos);
}

proof fn lemma_line_start(b: Seq<u8>, pos: int)
    requires
        0 <= pos <= b.len(),
    ensures
        0 <= line_start(b, pos) <= pos,
        line_start(b, pos) == 0 || b[line_start(b, pos) - 1] == NEWLINE,
        forall|i: int| line_start(b, pos) <= i < pos ==> b[i] != NEWLINE,
    decreases pos,
{
    if pos > 0 && b[pos - 1] != NEWLINE {
        lemma_line_start(b, pos - 1);
    }
}

proof fn lemma_line_end(b: Seq<u8>, pos: int)
    requires
        0 <= pos <= b.len(),
    ensures
        pos <= line_end(b, pos) <= b.len(),
        line_end(b, pos) == b.len() || b[line_end(b, pos)] == NEWLINE,
        forall|i: int| pos <= i < line_end(b, pos) ==> b[i] != NEWLINE,
    decreases b.len() - pos,
{
    if pos < b.len() && b[pos] != NEWLINE {
        lemma_line_end(b, pos + 1);
    }
}

/// `count_newlines` of a prefix grows by one exactly at each line feed.
pub proof fn lemma_count_newlines_step(b: Seq<u8>, i: int)
    requires
        0 <= i < b.len(),
    ensures
        count_newlines(b.subrange(0, i + 1)) == count_newlines(b.subrange(0, i)) + if b[i]
            == NEWLINE {
            1nat
        } else {
            0nat
        },
{
    assert(b.subrange(0, i + 1).drop_last() =~= b.subrange(0, i));
}

/// Bytes without a line feed hold none.
proof fn lemma_count_newlines_none(b: Seq<u8>)
    requires
        forall|i: int| 0 <= i < b.len() ==> b[i] != NEWLINE,
    ensures
        count_newlines(b) == 0,
    decreases b.len(),
{
    if b.len() > 0 {
        lemma_count_newlines_none(b.drop_last());
    }
}

/// The line feeds of a concatenation are those of its two parts.
proof fn lemma_count_newlines_concat(a: Seq<u8>, c: Seq<u8>)
    ensures
        count_newlines(a + c) == count_newlines(a) + count_newlines(c),
    decreases c.len(),
{
    if c.len() == 0 {
        assert(a + c =~= a);
    } else {
        assert((a + c).drop_last() =~= a + c.drop_last());
        lemma_count_newlines_concat(a, c.drop_last());
    }
}

/// After a line feed at `k`, lines start where they start in the rest of the
/// text, shifted by `k + 1`.
proof fn lemma_line_start_after(b: Seq<u8>, k: int, p: int)
    requires
        0 <= k < b.len(),
        b[k] == NEWLINE,
        0 <= p <= b.len() - k - 1,
    ensures
        line_start(b, k + 1 + p) == k + 1 + line_start(b.subrange(k + 1, b.len() as int), p),
    decreases p,
{
    let r = b.subrange(k + 1, b.len() as int);
    if p > 0 {
        assert(b[k + p] == r[p - 1]);
        if r[p - 1] != NEWLINE {
            lemma_line_start_after(b, k, p - 1);
        }
    }
}

/// After a line feed at `k`, lines end where they end in the rest of the
/// text, shifted by `k + 1`.
proof fn lemma_line_end_after(b: Seq<u8>, k: int, p: int)
    requires
        0 <= k < b.len(),
        0 <= p <= b.len() - k - 1,
    ensures
        line_end(b, k + 1 + p) == k + 1 + line_end(b.subrange(k + 1, b.len() as int), p),
    decreases b.len() - k - 1 - p,
{
    let r = b.subrange(k + 1, b.len() as int);
    if p < r.len() {
        assert(b[k + 1 + p] == r[p]);
        if r[p] != NEWLINE {
            lemma_line_end_after(b, k, p + 1);
        }
    }
}

/// The line around `pos` is the line of `split_lines` whose index is the
/// number of line feeds before `pos`, but for a carriage return that
/// `split_lines` drops before a line feed. Every position has its line there
/// except one just past a last line feed.
pub proof fn lemma_line_of_position(b: Seq<u8>, pos: int)
    requires
        0 <= pos <= b.len(),
        b.len() > 0,
        pos < b.len() || b.last() != NEWLINE,
    ensures
        count_newlines(b.subrange(0, pos)) < split_lines(b).len(),
        split_lines(b)[count_newlines(b.subrange(0, pos)) as int] == if line_end(b, pos) < b.len() {
            strip_carriage_return(b.subrange(line_start(b, pos), line_end(b, pos)))
        } else {
            b.subrange(line_start(b, pos), line_end(b, pos))
        },
    decreases b.len(),
{
    let k = first_index_of(b, NEWLINE);
    lemma_first_index_of(b, NEWLINE);
    lemma_line_bounds(b, pos);
    let ls = line_start(b, pos);
    let le = line_end(b, pos);
    if pos <= k {
        lemma_count_newlines_none(b.subrange(0, pos));
        if ls > 0 {
            assert(b[ls - 1] != NEWLINE);
        }
        if k < b.len() {
            if le < k {
                assert(b[le] != NEWLINE);
            }
            if k < le {
                assert(b[k] != NEWLINE);
            }
            assert(split_lines(b)[0] == strip_carriage_return(b.subrange(0, k)));
        } else {
            if le < b.len() {
                assert(b[le] != NEWLINE);
            }
            assert(b.subrange(0, b.len() as int) =~= b);
        }
    } else {
        let r = b.subrange(k + 1, b.len() as int);
        let p = pos - k - 1;
        lemma_line_start_after(b, k, p);
        lemma_line_end_after(b, k, p);
        assert(b.subrange(0, pos) =~= b.subrange(0, k + 1) + r.subrange(0, p));
        lemma_count_newlines_concat(b.subrange(0, k + 1), r.subrange(0, p));
        lemma_count_newlines_none(b.subrange(0, k));
        lemma_count_newlines_step(b, k);
        assert(r.len() > 0);
        if p == r.len() {
            assert(r.last() == b.last());
        }
        lemma_line_of_position(r, p);
        lemma_line_bounds(r, p);
        assert(split_lines(b) == seq![strip_carriage_return(b.subrange(0, k))] + split_lines(r));
        assert(b.subrange(ls, le) =~= r.subrange(line_start(r, p), line_end(r, p)));
    }
}

/// A prefix of `n` bytes holds at most `n` line feeds.
pub proof fn lemma_count_newlines_bound(b: Seq<u8>)
    ensures
        count_newlines(b) <= b.len(),
    decreases b.len(),
{
    if b.len() > 0 {
        lemma_count_newlines_bound(b.drop_last());
    }
}

/// In valid UTF-8, an offset is a character boundary exactly when it is the
/// end of the text or its byte does not continue a character.
pub proof fn lemma_boundary_local(b: Seq<u8>, i: int)
    requires
        valid_utf8(b),
        0 <= i <= b.len(),
    ensures
        is_char_boundary(b, i) <==> (i == b.len() || !is_continuation_byte(b[i])),
{
    if i == b.len() {
        is_char_boundary_start_end_of_seq(b);
    } else {
        is_char_boundary_iff_not_is_continuation_byte(b, i);
    }
}

/// In valid UTF-8, the boundary after a one-byte (ASCII) character is a boundary.
pub proof fn lemma_boundary_after_ascii(b: Seq<u8>, i: int)
    requires
        valid_utf8(b),
        0 <= i < b.len(),
        is_char_boundary(b, i),
        b[i] < 128,
    ensures
        is_char_boundary(b, i + 1),
    decreases b.len(),
{
    reveal_with_fuel(is_char_boundary, 2);
    let l = length_of_first_scalar(b);
    let rest = pop_first_scalar(b);
    if i == 0 {
        assert(l == 1);
        assert(is_char_boundary(rest, 0));
    } else {
        assert(is_char_boundary(rest, i - l));
        assert(i - l >= 0);
        assert(rest[i - l] == b[i]);
        lemma_boundary_after_ascii(rest, i - l);
    }
}

/// The offset just after an ASCII byte of valid UTF-8 is a boundary.
pub proof fn lemma_boundary_after_ascii_byte(b: Seq<u8>, i: int)
    requires
        valid_utf8(b),
        0 < i <= b.len(),
        b[i - 1] < 128,
    ensures
        is_char_boundary(b, i),
{
    lemma_boundary_local(b, i - 1);
    lemma_boundary_after_ascii(b, i - 1);
}

/// The offset of an ASCII byte of valid UTF-8 is a boundary.
pub proof fn lemma_boundary_at_ascii_byte(b: Seq<u8>, i: int)
    requires
        valid_utf8(b),
        0 <= i < b.len(),
        b[i] < 128,
    ensures
        is_char_boundary(b, i),
{
    lemma_boundary_local(b, i);
}

/// The bytes of any string are valid UTF-8, and start and end on boundaries.
pub proof fn lemma_bytes_valid(s: Seq<char>)
    ensures
        valid_utf8(bytes_of(s)),
        is_char_boundary(bytes_of(s), 0),
        is_char_boundary(bytes_of(s), bytes_of(s).len() as int),
{
    encode_utf8_valid_utf8(s);
    is_char_boundary_start_end_of_seq(encode_utf8(s));
}

/// The bytes of a concatenation are the concatenation of the bytes.
pub proof fn lemma_bytes_of_concat(a: Seq<char>, b: Seq<char>)
    ensures
        bytes_of(a + b) == bytes_of(a) + bytes_of(b),
    decreases a.len(),
{
    if a.len() == 0 {
        assert(a + b =~= b);
    } else {
        lemma_bytes_of_concat(a.drop_first(), b);
        assert((a + b).drop_first() =~= a.drop_first() + b);
        assert((a + b)[0] == a[0]);
    }
}

/// Two strings with the same bytes are the same string.
pub proof fn lemma_bytes_of_injective(a: Seq<char>, b: Seq<char>)
    requires
        bytes_of(a) == bytes_of(b),
    ensures
        a == b,
{
    vstd::utf8::encode_utf8_decode_utf8(a);
    vstd::utf8::encode_utf8_decode_utf8(b);
}

/// Joining after one more leading part puts it and a separator in front.
pub proof fn lemma_join_with_prepend<A>(x: Seq<A>, rest: Seq<Seq<A>>, sep: Seq<A>)
    requires
        rest.len() > 0,
    ensures
        join_with(seq![x] + rest, sep) == x + sep + join_with(rest, sep),
    decreases rest.len(),
{
    let all = seq![x] + rest;
    assert(all.len() >= 2);
    assert(all.drop_last() =~= seq![x] + rest.drop_last());
    assert(all.last() == rest.last());
    assert(join_with(all, sep) == join_with(all.drop_last(), sep) + sep + all.last());
    if rest.len() == 1 {
        assert(seq![x] + rest.drop_last() =~= seq![x]);
        assert(join_with(seq![x], sep) == x);
        assert(join_with(rest, sep) == rest[0]);
        assert(x + sep + rest.last() =~= x + sep + join_with(rest, sep));
    } else {
        lemma_join_with_prepend(x, rest.drop_last(), sep);
        assert(join_with(rest, sep) == join_with(rest.drop_last(), sep) + sep + rest.last());
        assert(x + sep + join_with(rest.drop_last(), sep) + sep + rest.last() =~= x + sep + (
        join_with(rest.drop_last(), sep) + sep + rest.last()));
    }
}

/// Joining the pieces between the separators with that separator gives the
/// text back.
pub proof fn lemma_join_split_on(b: Seq<u8>, sep: u8)
    ensures
        join_with(split_on(b, sep), seq![sep]) == b,
    decreases b.len(),
{
    let k = first_index_of(b, sep);
    lemma_first_index_of(b, sep);
    if k < b.len() {
        let rest = b.subrange(k + 1, b.len() as int);
        lemma_join_split_on(rest, sep);
        let tail = split_on(rest, sep);
        assert(tail.len() > 0) by {
            lemma_split_on_nonempty(rest, sep);
        }
        lemma_join_with_prepend(b.subrange(0, k), tail, seq![sep]);
        assert(b =~= b.subrange(0, k) + seq![sep] + rest);
    }
}

/// There is always at least one piece.
pub proof fn lemma_split_on_nonempty(b: Seq<u8>, sep: u8)
    ensures
        split_on(b, sep).len() > 0,
{
    lemma_first_index_of(b, sep);
}

/// The bytes of joined strings are the joined bytes.
pub proof fn lemma_bytes_of_join(parts: Seq<Seq<char>>, sep: Seq<char>)
    ensures
        bytes_of(join_with(parts, sep)) == join_with(
            Seq::new(parts.len(), |i: int| bytes_of(parts[i])),
            bytes_of(sep),
        ),
    decreases parts.len(),
{
    let mapped = Seq::new(parts.len(), |i: int| bytes_of(parts[i]));
    if parts.len() == 0 {
        assert(bytes_of(Seq::<char>::empty()) =~= Seq::<u8>::empty());
    } else if parts.len() == 1 {
        assert(mapped[0] == bytes_of(parts[0]));
    } else {
        let front = parts.drop_last();
        lemma_bytes_of_join(front, sep);
        assert(Seq::new(front.len(), |i: int| bytes_of(front[i])) =~= mapped.drop_last());
        lemma_bytes_of_concat(join_with(front, sep), sep);
        lemma_bytes_of_concat(join_with(front, sep) + sep, parts.last());
        assert(mapped.last() == bytes_of(parts.last()));
    }
}

/// The bytes of a one-character ASCII string are that character's code.
pub proof fn lemma_bytes_of_ascii_char(c: char, code: u8)
    requires
        c as u32 == code as u32,
        code < 128,
    ensures
        bytes_of(seq![c]) == seq![code],
{
    let v = c as u32;
    assert(seq![c].drop_first() =~= Seq::<char>::empty());
    assert(encode_utf8(seq![c]) == vstd::utf8::encode_scalar(seq![c][0] as u32) + encode_utf8(
        seq![c].drop_first(),
    ));
    assert(v < 128 ==> (v & 0x7F) == v) by (bit_vector);
    assert(vstd::utf8::encode_scalar(v) =~= seq![code]);
}

/// The UTF-8 encoding of a character other than `'.'` holds no dot byte:
/// an ASCII character is encoded as its own code, and every byte of a longer
/// encoding has its high bit set.
proof fn lemma_scalar_has_no_dot(v: u32)
    requires
        v != 46,
    ensures
        forall|i: int| 0 <= i < vstd::utf8::encode_scalar(v).len() ==> vstd::utf8::encode_scalar(v)[i] != DOT,
{
    assert(v <= 0x7F && v != 46 ==> (v & 0x7F) as u8 != 46u8) by (bit_vector);
    assert((0xC0u8 | ((v >> 6) & 0x1F) as u8) != 46u8) by (bit_vector);
    assert((0xE0u8 | ((v >> 12) & 0x0F) as u8) != 46u8) by (bit_vector);
    assert((0xF0u8 | ((v >> 18) & 0x7) as u8) != 46u8) by (bit_vector);
    assert((0x80u8 | (v & 0x3F) as u8) != 46u8) by (bit_vector);
    assert((0x80u8 | ((v >> 6) & 0x3F) as u8) != 46u8) by (bit_vector);
    assert((0x80u8 | ((v >> 12) & 0x3F) as u8) != 46u8) by (bit_vector);
}

/// The bytes of text without a `'.'` hold no dot byte.
pub proof fn lemma_bytes_have_no_dot(s: Seq<char>)
    requires
        !s.contains('.'),
    ensures
        forall|i: int| 0 <= i < bytes_of(s).len() ==> bytes_of(s)[i] != DOT,
    decreases s.len(),
{
    if s.len() > 0 {
        let rest = s.drop_first();
        assert(!rest.contains('.')) by {
            if rest.contains('.') {
                let j = choose|j: int| 0 <= j < rest.len() && rest[j] == '.';
                assert(s[j + 1] == '.');
            }
        }
        lemma_bytes_have_no_dot(rest);
        assert(s[0] != '.') by {
            if s[0] == '.' {
                assert(s.contains('.'));
            }
        }
        let c = s[0];
        assert(c as u32 != 46) by {
            vstd::utf8::char_u32_cast(c, c as u32);
            vstd::utf8::char_u32_cast('.', 46);
        }
        lemma_scalar_has_no_dot(s[0] as u32);
        let head = vstd::utf8::encode_scalar(s[0] as u32);
        assert(bytes_of(s) == head + bytes_of(rest));
        assert forall|i: int| 0 <= i < bytes_of(s).len() implies bytes_of(s)[i] != DOT by {
            if i < head.len() {
                assert(bytes_of(s)[i] == head[i]);
            } else {
                assert(bytes_of(s)[i] == bytes_of(rest)[i - head.len()]);
            }
        }
    }
}

/// Splitting on dots the bytes of names joined by dots, none of which holds a
/// dot, gives the bytes of the names back.
pub proof fn lemma_split_on_join(names: Seq<Seq<char>>)
    requires
        names.len() >= 1,
        forall|i: int| 0 <= i < names.len() ==> !(#[trigger] names[i]).contains('.'),
    ensures
        split_on(bytes_of(join_with(names, seq!['.'])), DOT) == Seq::new(
            names.len(),
            |i: int| bytes_of(names[i]),
        ),
    decreases names.len(),
{
    let x = names[0];
    let bx = bytes_of(x);
    lemma_bytes_have_no_dot(x);
    if names.len() == 1 {
        lemma_first_index_of_unique(bx, DOT, bx.len() as int);
        assert(join_with(names, seq!['.']) == x);
        assert(split_on(bx, DOT) =~= seq![bx]);
        assert(Seq::new(names.len(), |i: int| bytes_of(names[i])) =~= seq![bx]);
    } else {
        let rest = names.drop_first();
        assert(names =~= seq![x] + rest);
        assert forall|i: int| 0 <= i < rest.len() implies !(#[trigger] rest[i]).contains('.') by {
            assert(rest[i] == names[i + 1]);
        }
        lemma_split_on_join(rest);
        lemma_join_with_prepend(x, rest, seq!['.']);
        let joined = join_with(rest, seq!['.']);
        let br = bytes_of(joined);
        lemma_bytes_of_concat(x, seq!['.']);
        lemma_bytes_of_concat(x + seq!['.'], joined);
        lemma_bytes_of_ascii_char('.', DOT);
        let b = bytes_of(join_with(names, seq!['.']));
        assert(b =~= bx + seq![DOT] + br);
        let k = bx.len() as int;
        assert forall|i: int| 0 <= i < k implies b[i] != DOT by {
            assert(b[i] == bx[i]);
        }
        lemma_first_index_of_unique(b, DOT, k);
        assert(b.subrange(0, k) =~= bx);
        assert(b.subrange(k + 1, b.len() as int) =~= br);
        assert(split_on(b, DOT) == seq![bx] + split_on(br, DOT));
        assert(split_on(b, DOT) =~= Seq::new(names.len(), |i: int| bytes_of(names[i])));
    }
}

/// The text of `s` between two boundaries, as a new string.
pub fn slice_text(s: &str, start: usize, end: usize) -> (res: String)
    requires
        start <= end <= s.spec_bytes().len(),
        is_char_boundary(s.spec_bytes(), start as int),
        is_char_boundary(s.spec_bytes(), end as int),
    ensures
        bytes_of(res@) == s.spec_bytes().subrange(start as int, end as int),
{
    let ghost b = s.spec_bytes();
    proof {
        lemma_bytes_valid(s@);
    }
    let (head, _tail) = s.split_at(end);
    let ghost h = head.spec_bytes();
    proof {
        valid_utf8_split(b, end as int);
        assert(h =~= b.subrange(0, end as int));
        lemma_boundary_local(b, start as int);
        lemma_boundary_local(h, start as int);
        if start < end {
            assert(h[start as int] == b[start as int]);
        }
    }
    let (_skip, line) = head.split_at(start);
    proof {
        assert(line.spec_bytes() =~= b.subrange(start as int, end as int));
    }
    line.to_owned()
}

/// The texts of `parts`, in order.
pub open spec fn texts_of(parts: Seq<String>) -> Seq<Seq<char>> {
    parts.map_values(|p: String| p@)
}

/// The texts of `parts` joined into one string, with `sep` between each two
/// of them.
pub fn join_texts(parts: &Vec<String>, sep: &str) -> (res: String)
    ensures
        res@ == join_with(texts_of(parts@), sep@),
{
    let ghost texts = texts_of(parts@);
    let mut res = String::new();
    let mut i: usize = 0;
    while i < parts.len()
        invariant
            texts == texts_of(parts@),
            i <= parts@.len(),
            res@ == join_with(texts.take(i as int), sep@),
        decreases parts@.len() - i,
    {
        proof {
            assert(texts.take(i + 1).drop_last() =~= texts.take(i as int));
            assert(texts.take(i + 1).last() == parts@[i as int]@);
            if i == 0 {
                assert(texts.take(1) =~= seq![parts@[0]@]);
            }
        }
        if i > 0 {
            res.append(sep);
        }
        res.append(parts[i].as_str());
        i = i + 1;
    }
    proof {
        assert(texts.take(parts@.len() as int) =~= texts);
    }
    res
}

/// The text of one decimal digit.
fn digit_text(d: u64) -> (res: &'static str)
    requires
        d < 10,
    ensures
        res@ == seq![(48 + d) as char],
{
    proof {
        reveal_strlit("0");
        reveal_strlit("1");
        reveal_strlit("2");
        reveal_strlit("3");
        reveal_strlit("4");
        reveal_strlit("5");
        reveal_strlit("6");
        reveal_strlit("7");
        reveal_strlit("8");
        reveal_strlit("9");
    }
    if d == 0 {
        "0"
    } else if d == 1 {
        "1"
    } else if d == 2 {
        "2"
    } else if d == 3 {
        "3"
    } else if d == 4 {
        "4"
    } else if d == 5 {
        "5"
    } else if d == 6 {
        "6"
    } else if d == 7 {
        "7"
    } else if d == 8 {
        "8"
    } else {
        "9"
    }
}

/// The decimal form of a number: its digits in base ten, without sign or
/// leading zeros.
pub fn decimal_text(n: u64) -> (res: String)
    ensures
        res@ == decimal_digits(n as nat),
    decreases n,
{
    let mut res = if n < 10 {
        String::new()
    } else {
        decimal_text(n / 10)
    };
    res.append(digit_text(n % 10));
    proof {
        if n < 10 {
            assert(res@ =~= decimal_digits(n as nat));
        } else {
            assert(res@ =~= decimal_digits(n as nat));
        }
    }
    res
}

} // verus!
