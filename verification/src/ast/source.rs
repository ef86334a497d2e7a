//! Source buffers: how they are made, and how byte offsets into them are
//! turned into lines, line numbers and pointers.
use super::{Location, SourceBuffer, SourcePointer};
use crate::text::{
    bytes_of, count_newlines, decimal_digits, decimal_text, is_cut_point, lemma_boundary_after_ascii_byte,
    lemma_boundary_at_ascii_byte, lemma_bytes_valid, lemma_count_newlines_bound,
    lemma_count_newlines_step, lemma_first_index_of_unique, lemma_line_bounds, lemma_line_of_position, law_count_newlines, line_end,
    line_start, slice_text, split_lines, first_index_of, strip_carriage_return,
    CARRIAGE_RETURN, NEWLINE,
};
use std::rc::Rc;
use vstd::prelude::*;
use vstd::string::StringExecFns;
use vstd::string::StringSliceAdditionalSpecFns;
use vstd::utf8::is_char_boundary;

verus! {

impl AsRef<str> for SourceBuffer {
    /// The text of the buffer.
    fn as_ref(&self) -> (res: &str)
        ensures
            res@ == self.content@,
    {
        self.content.as_str()
    }
}

impl SourceBuffer {
    /// The UTF-8 bytes of the text; byte offsets index into them.
    pub open spec fn text_bytes(&self) -> Seq<u8> {
        bytes_of(self.content@)
    }

    /// `pos` is a byte offset at which the text may be cut.
    pub open spec fn valid_position(&self, pos: usize) -> bool {
        is_cut_point(self.text_bytes(), pos as int)
    }

    /// A buffer holding `input`, named `<stdin>`.
    pub fn stdin(input: &str) -> (res: Self)
        ensures
            res.content@ == input@,
            res.name@ == "<stdin>"@,
    {
        Self { content: Rc::new(input.to_owned()), name: "<stdin>".to_owned() }
    }

    /// A buffer holding `input`, named `name`.
    pub fn stdin_with_name(input: &str, name: &str) -> (res: Self)
        ensures
            res.content@ == input@,
            res.name@ == name@,
    {
        Self { content: Rc::new(input.to_owned()), name: name.to_owned() }
    }

    /// A buffer for text read from `path`: it is named by the canonical form of
    /// the path where that could be had as text, and by `fallback` otherwise.
    pub fn from_loaded_text(content: String, canonical: Option<String>, fallback: &str) -> (res:
        Self)
        ensures
            res.content@ == content@,
            res.name@ == match canonical {
                Some(c) => c@,
                None => fallback@,
            },
    {
        let name = match canonical {
            Some(c) => c,
            None => fallback.to_owned(),
        };
        Self { content: Rc::new(content), name }
    }

    /// The text, as a new string.
    pub fn as_str(&self) -> (res: String)
        ensures
            res@ == self.content@,
    {
        self.content.as_str().to_owned()
    }

    /// A pointer to `loc` in this buffer.
    pub fn pointer(&self, loc: Location) -> (res: SourcePointer)
        ensures
            res.location == loc,
            res.buffer == *self,
    {
        SourcePointer { location: loc, buffer: self.clone() }
    }

    /// The lines of the text, as `str::lines` gives them: without their line
    /// feeds, a carriage return before a line feed dropped, and no empty line
    /// after a last line feed.
    pub fn lines(&self) -> (res: Vec<String>)
        ensures
            res@.len() == split_lines(self.text_bytes()).len(),
            forall|i: int|
                0 <= i < res@.len() ==> #[trigger] bytes_of(res@[i]@) == split_lines(
                    self.text_bytes(),
                )[i],
    {
        let s: &str = self.content.as_str();
        let b: &[u8] = s.as_bytes();
        let ghost bs = self.text_bytes();
        proof {
            lemma_bytes_valid(self.content@);
        }
        let n = b.len();
        let mut res: Vec<String> = Vec::new();
        let mut start: usize = 0;
        let mut j: usize = 0;
        proof {
            assert(bs.subrange(0, n as int) =~= bs);
            assert(Seq::new(res@.len(), |i: int| bytes_of(res@[i]@)) =~= Seq::<Seq<u8>>::empty());
        }
        while j < n
            invariant
                b@ == bs,
                s.spec_bytes() == bs,
                n == bs.len(),
                vstd::utf8::valid_utf8(bs),
                start <= j <= n,
                is_char_boundary(bs, start as int),
                forall|k: int| start <= k < j ==> bs[k] != NEWLINE,
                split_lines(bs) =~= Seq::new(res@.len(), |i: int| bytes_of(res@[i]@)) + split_lines(
                    bs.subrange(start as int, n as int),
                ),
            decreases n - j,
        {
            if b[j] == NEWLINE {
                let end = if j > start && b[j - 1] == CARRIAGE_RETURN {
                    j - 1
                } else {
                    j
                };
                proof {
                    lemma_boundary_at_ascii_byte(bs, end as int);
                }
                let line = slice_text(s, start, end);
                let ghost rest = bs.subrange(start as int, n as int);
                proof {
                    lemma_first_index_of_unique(rest, NEWLINE, (j - start) as int);
                    assert(rest.subrange(0, (j - start) as int) =~= bs.subrange(
                        start as int,
                        j as int,
                    ));
                    assert(strip_carriage_return(rest.subrange(0, (j - start) as int))
                        =~= bs.subrange(start as int, end as int));
                    assert(rest.subrange((j - start) as int + 1, rest.len() as int)
                        =~= bs.subrange(j + 1, n as int));
                    lemma_boundary_after_ascii_byte(bs, j + 1);
                }
                let ghost before = res@;
                res.push(line);
                proof {
                    assert(Seq::new(res@.len(), |i: int| bytes_of(res@[i]@)) =~= Seq::new(
                        before.len(),
                        |i: int| bytes_of(before[i]@),
                    ).push(bytes_of(line@)));
                }
                start = j + 1;
            }
            j = j + 1;
        }
        if start < n {
            proof {
                let rest = bs.subrange(start as int, n as int);
                lemma_first_index_of_unique(rest, NEWLINE, rest.len() as int);
                assert(split_lines(bs.subrange(n as int, n as int)) =~= Seq::<Seq<u8>>::empty());
            }
            let line = slice_text(s, start, n);
            let ghost before = res@;
            res.push(line);
            proof {
                assert(Seq::new(res@.len(), |i: int| bytes_of(res@[i]@)) =~= Seq::new(
                    before.len(),
                    |i: int| bytes_of(before[i]@),
                ).push(bytes_of(line@)));
                assert(split_lines(bs) =~= Seq::new(res@.len(), |i: int| bytes_of(res@[i]@)));
            }
        } else {
            proof {
                assert(split_lines(bs.subrange(start as int, n as int)) =~= Seq::<
                    Seq<u8>,
                >::empty());
                assert(split_lines(bs) =~= Seq::new(res@.len(), |i: int| bytes_of(res@[i]@)));
            }
        }
        proof {
            assert forall|i: int| 0 <= i < res@.len() implies #[trigger] bytes_of(res@[i]@)
                == split_lines(bs)[i] by {
                assert(Seq::new(res@.len(), |i: int| bytes_of(res@[i]@))[i] == bytes_of(
                    res@[i]@,
                ));
            }
        }
        res
    }

    /// The byte offsets `(start, end)` of the line that holds `pos`: `start` is
    /// just after the last line feed before `pos` (or 0), and `end` is at the
    /// first line feed at or after `pos` (or the length of the text).
    pub fn indices_for_position(&self, pos: usize) -> (res: (usize, usize))
        requires
            self.valid_position(pos),
        ensures
            res.0 == line_start(self.text_bytes(), pos as int),
            res.1 == line_end(self.text_bytes(), pos as int),
            res.0 <= pos <= res.1 <= self.text_bytes().len(),
            res.0 == 0 || self.text_bytes()[res.0 - 1] == NEWLINE,
            res.1 == self.text_bytes().len() || self.text_bytes()[res.1 as int] == NEWLINE,
            forall|i: int| res.0 <= i < res.1 ==> self.text_bytes()[i] != NEWLINE,
    {
        let b: &[u8] = self.content.as_str().as_bytes();
        let ghost bs = self.text_bytes();
        let mut start = pos;
        while start > 0 && b[start - 1] != NEWLINE
            invariant
                b@ == bs,
                start <= pos <= bs.len(),
                line_start(bs, start as int) == line_start(bs, pos as int),
            decreases start,
        {
            start = start - 1;
        }
        let mut end = pos;
        while end < b.len() && b[end] != NEWLINE
            invariant
                b@ == bs,
                pos <= end <= bs.len(),
                line_end(bs, end as int) == line_end(bs, pos as int),
            decreases bs.len() - end,
        {
            end = end + 1;
        }
        proof {
            lemma_line_bounds(bs, pos as int);
        }
        (start, end)
    }

    /// The text of the line that holds `pos`, without its line feed.
    pub fn line_for_position(&self, pos: usize) -> (res: String)
        requires
            self.valid_position(pos),
        ensures
            bytes_of(res@) == self.text_bytes().subrange(
                line_start(self.text_bytes(), pos as int),
                line_end(self.text_bytes(), pos as int),
            ),
    {
        let (start, end) = self.indices_for_position(pos);
        let ghost bs = self.text_bytes();
        proof {
            lemma_bytes_valid(self.content@);
            if start > 0 {
                lemma_boundary_after_ascii_byte(bs, start as int);
            }
            if end < bs.len() {
                lemma_boundary_at_ascii_byte(bs, end as int);
            }
        }
        slice_text(self.content.as_str(), start, end)
    }

    /// The number of line feeds before `pos`: the 0-based line number of `pos`.
    pub fn line_index_for_position(&self, pos: usize) -> (res: usize)
        requires
            self.valid_position(pos),
        ensures
            res == count_newlines(self.text_bytes().subrange(0, pos as int)),
    {
        let b: &[u8] = self.content.as_str().as_bytes();
        let ghost bs = self.text_bytes();
        let mut count: usize = 0;
        let mut i: usize = 0;
        while i < pos
            invariant
                b@ == bs,
                i <= pos <= bs.len(),
                count == count_newlines(bs.subrange(0, i as int)),
            decreases pos - i,
        {
            proof {
                lemma_count_newlines_step(bs, i as int);
                lemma_count_newlines_bound(bs.subrange(0, i as int));
            }
            if b[i] == NEWLINE {
                count = count + 1;
            }
            i = i + 1;
        }
        count
    }

    /// A pointer to the whole text.
    pub fn pointer_to_whole_buffer(&self) -> (res: SourcePointer)
        ensures
            res.location.start == 0,
            res.location.stop == self.text_bytes().len(),
            res.buffer == *self,
    {
        let start: usize = 0;
        let stop = self.content.as_str().as_bytes().len();
        let loc = Location { start, stop };
        self.pointer(loc)
    }

    /// A pointer to the line that holds the last byte of the text.
    pub fn pointer_to_last_line(&self) -> (res: SourcePointer)
        requires
            self.text_bytes().len() > 0,
            self.valid_position((self.text_bytes().len() - 1) as usize),
        ensures
            res.location == (Location {
                start: line_start(self.text_bytes(), self.text_bytes().len() - 1) as usize,
                stop: line_end(self.text_bytes(), self.text_bytes().len() - 1) as usize,
            }),
            res.buffer == *self,
    {
        let s: &str = self.content.as_str();
        let n = s.as_bytes().len();
        let (start, stop) = self.indices_for_position(n - 1);
        let loc = Location { start, stop };
        self.pointer(loc)
    }
}

/// Where the buffer reports a position, `lines`, `line_index_for_position`
/// and `line_for_position` agree: the line of `lines` at the position's line
/// index is the line that holds the position, but for a carriage return that
/// `lines` drops before a line feed. Only a position just past a last line
/// feed, or in empty text, has no line in `lines`.
pub proof fn law_line_of_position(buffer: SourceBuffer, pos: usize)
    requires
        buffer.valid_position(pos),
        buffer.text_bytes().len() > 0,
        pos < buffer.text_bytes().len() || buffer.text_bytes().last() != NEWLINE,
    ensures
        ({
            let b = buffer.text_bytes();
            let index = count_newlines(b.subrange(0, pos as int));
            let line = b.subrange(line_start(b, pos as int), line_end(b, pos as int));
            &&& index < split_lines(b).len()
            &&& split_lines(b)[index as int] == if line_end(b, pos as int) < b.len() {
                strip_carriage_return(line)
            } else {
                line
            }
        }),
{
    lemma_line_of_position(buffer.text_bytes(), pos as int);
}

/// The line number of a pointer depends on its buffer and its start alone:
/// two pointers into one buffer from one start have the same line number,
/// whatever their stops, and it is one more than the number of line feeds
/// in the text before the start.
pub proof fn law_pointer_line(p: SourcePointer, q: SourcePointer)
    requires
        p.buffer == q.buffer,
        p.location.start == q.location.start,
    ensures
        p.line_number() == q.line_number(),
        p.line_number() == 1 + p.buffer.text_bytes().subrange(0, p.location.start as int).filter(
            |x: u8| x == NEWLINE,
        ).len(),
{
    law_count_newlines(p.buffer.text_bytes().subrange(0, p.location.start as int));
}

impl SourcePointer {
    /// The 1-based line number of the start of this pointer.
    pub open spec fn line_number(&self) -> int {
        1 + count_newlines(self.buffer.text_bytes().subrange(0, self.location.start as int)) as int
    }

    /// The text of a pointer: the buffer's name, a colon, and the 1-based line
    /// number of its start.
    pub fn to_string(&self) -> (res: String)
        requires
            self.buffer.valid_position(self.location.start),
            self.location.start < usize::MAX,
        ensures
            res@ == self.buffer.name@ + ":"@ + decimal_digits(self.line_number() as nat),
    {
        let line = self.buffer.line_index_for_position(self.location.start);
        proof {
            lemma_count_newlines_bound(
                self.buffer.text_bytes().subrange(0, self.location.start as int),
            );
        }
        let mut res = self.buffer.name.clone();
        res.append(":");
        let number = decimal_text((line + 1) as u64);
        res.append(number.as_str());
        res
    }
}

} // verus!
