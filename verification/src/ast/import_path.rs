//! Dotted module paths: made from a dotted string, and written back as a
//! dotted string or as a relative file path.
use super::{Identifier, ImportPath, SourcePointer};
use crate::text::{
    bytes_of, join_with, lemma_bytes_of_ascii_char, lemma_bytes_of_injective, lemma_bytes_of_join,
    lemma_join_split_on, lemma_bytes_valid, lemma_boundary_after_ascii_byte,
    lemma_boundary_at_ascii_byte, lemma_first_index_of_unique, lemma_split_on_join, slice_text, split_on,
    DOT,
};
use vstd::prelude::*;
use vstd::string::StringExecFns;
use vstd::string::StringSliceAdditionalSpecFns;
use vstd::utf8::{is_char_boundary, valid_utf8};

verus! {

impl ImportPath {
    /// The names of the entries, in order.
    pub open spec fn entry_names(&self) -> Seq<Seq<char>> {
        Seq::new(self.entries@.len(), |i: int| self.entries@[i].value@)
    }

    /// `self` is the path read from `dotted` at `loc`: at `loc`, with one
    /// entry at `loc` for each piece of `dotted` between its dots (empty
    /// pieces included), whose name is that piece.
    pub open spec fn is_read_from(&self, loc: SourcePointer, dotted: Seq<char>) -> bool {
        &&& self.loc == loc
        &&& self.entries@.len() == split_on(bytes_of(dotted), DOT).len()
        &&& forall|i: int|
            0 <= i < self.entries@.len() ==> (#[trigger] self.entries@[i]).loc == loc
                && bytes_of(self.entries@[i].value@) == split_on(bytes_of(dotted), DOT)[i]
    }

    /// The path made of the pieces of `dotted` between its dots (empty pieces
    /// included), each an identifier at `loc`.
    pub fn from_dotted_string(loc: SourcePointer, dotted: &str) -> (res: Self)
        ensures
            res.is_read_from(loc, dotted@),
    {
        let b: &[u8] = dotted.as_bytes();
        let ghost bs = bytes_of(dotted@);
        proof {
            lemma_bytes_valid(dotted@);
        }
        let n = b.len();
        let mut entries: Vec<Identifier> = Vec::new();
        let mut start: usize = 0;
        let mut j: usize = 0;
        proof {
            assert(bs.subrange(0, n as int) =~= bs);
        }
        while j < n
            invariant
                b@ == bs,
                dotted.spec_bytes() == bs,
                n == bs.len(),
                valid_utf8(bs),
                start <= j <= n,
                is_char_boundary(bs, start as int),
                forall|k: int| start <= k < j ==> bs[k] != DOT,
                split_on(bs, DOT) =~= Seq::new(entries@.len(), |i: int| bytes_of(entries@[i].value@))
                    + split_on(bs.subrange(start as int, n as int), DOT),
                forall|i: int| 0 <= i < entries@.len() ==> (#[trigger] entries@[i]).loc == loc,
            decreases n - j,
        {
            if b[j] == DOT {
                proof {
                    lemma_boundary_at_ascii_byte(bs, j as int);
                }
                let piece = slice_text(dotted, start, j);
                let ghost rest = bs.subrange(start as int, n as int);
                proof {
                    lemma_first_index_of_unique(rest, DOT, (j - start) as int);
                    assert(rest.subrange(0, (j - start) as int) =~= bs.subrange(
                        start as int,
                        j as int,
                    ));
                    assert(rest.subrange((j - start) as int + 1, rest.len() as int)
                        =~= bs.subrange(j + 1, n as int));
                    lemma_boundary_after_ascii_byte(bs, j + 1);
                }
                let ghost before = entries@;
                entries.push(Identifier { loc: loc.clone(), value: piece });
                proof {
                    assert(Seq::new(entries@.len(), |i: int| bytes_of(entries@[i].value@))
                        =~= Seq::new(before.len(), |i: int| bytes_of(before[i].value@)).push(
                        bytes_of(piece@),
                    ));
                }
                start = j + 1;
            }
            j = j + 1;
        }
        proof {
            let rest = bs.subrange(start as int, n as int);
            lemma_first_index_of_unique(rest, DOT, rest.len() as int);
        }
        let piece = slice_text(dotted, start, n);
        let ghost before = entries@;
        entries.push(Identifier { loc: loc.clone(), value: piece });
        proof {
            assert(Seq::new(entries@.len(), |i: int| bytes_of(entries@[i].value@)) =~= Seq::new(
                before.len(),
                |i: int| bytes_of(before[i].value@),
            ).push(bytes_of(piece@)));
            assert(split_on(bs, DOT) =~= Seq::new(
                entries@.len(),
                |i: int| bytes_of(entries@[i].value@),
            ));
            assert forall|i: int| 0 <= i < entries@.len() implies bytes_of(entries@[i].value@)
                == split_on(bs, DOT)[i] by {
                assert(Seq::new(entries@.len(), |i: int| bytes_of(entries@[i].value@))[i]
                    == bytes_of(entries@[i].value@));
            }
        }
        Self { loc: loc, entries }
    }

    /// The entry names joined by `sep`.
    fn joined(&self, sep: &str) -> (res: String)
        ensures
            res@ == join_with(self.entry_names(), sep@),
    {
        let mut res = String::new();
        let mut i: usize = 0;
        while i < self.entries.len()
            invariant
                i <= self.entries@.len(),
                res@ == join_with(self.entry_names().take(i as int), sep@),
            decreases self.entries@.len() - i,
        {
            let ghost names = self.entry_names();
            proof {
                assert(names.take(i + 1).drop_last() =~= names.take(i as int));
                assert(names.take(i + 1).last() == self.entries@[i as int].value@);
                if i == 0 {
                    assert(names.take(1) =~= seq![self.entries@[0].value@]);
                }
            }
            if i > 0 {
                res.append(sep);
            }
            res.append(self.entries[i].value.as_str());
            i = i + 1;
        }
        proof {
            assert(self.entry_names().take(self.entries@.len() as int) =~= self.entry_names());
        }
        res
    }

    /// The entry names joined by dots, as in `a.b.c`.
    pub fn to_dotted_string(&self) -> (res: String)
        ensures
            res@ == join_with(self.entry_names(), seq!['.']),
    {
        let res = self.joined(".");
        proof {
            reveal_strlit(".");
            assert("."@ =~= seq!['.']);
        }
        res
    }

    /// The entry names joined by slashes, as in `a/b/c`.
    pub fn to_path_string(&self) -> (res: String)
        ensures
            res@ == join_with(self.entry_names(), seq!['/']),
    {
        let res = self.joined("/");
        proof {
            reveal_strlit("/");
            assert("/"@ =~= seq!['/']);
        }
        res
    }
}

/// Writing back a path read from a dotted string gives that string: names
/// whose bytes are the pieces of `dotted` between its dots, joined again by
/// dots, are `dotted`.
pub proof fn law_dotted_round_trip(dotted: Seq<char>, names: Seq<Seq<char>>)
    requires
        names.len() == split_on(bytes_of(dotted), DOT).len(),
        forall|i: int|
            0 <= i < names.len() ==> bytes_of(#[trigger] names[i]) == split_on(bytes_of(dotted), DOT)[i],
    ensures
        join_with(names, seq!['.']) == dotted,
{
    let pieces = split_on(bytes_of(dotted), DOT);
    lemma_bytes_of_join(names, seq!['.']);
    assert(Seq::new(names.len(), |i: int| bytes_of(names[i])) =~= pieces);
    lemma_bytes_of_ascii_char('.', DOT);
    lemma_join_split_on(bytes_of(dotted), DOT);
    lemma_bytes_of_injective(join_with(names, seq!['.']), dotted);
}

/// Reading back a path written as a dotted string gives the path: when it
/// has an entry, no name holds a dot and every entry is at the path's
/// location, the path read from its dotted string at its location has that
/// location and the same entries, each at the same location with the same
/// name.
pub proof fn law_dotted_read_back(ip: ImportPath, res: ImportPath)
    requires
        ip.entries@.len() >= 1,
        forall|i: int| 0 <= i < ip.entries@.len() ==> !(#[trigger] ip.entries@[i]).value@.contains('.'),
        forall|i: int| 0 <= i < ip.entries@.len() ==> (#[trigger] ip.entries@[i]).loc == ip.loc,
        res.is_read_from(ip.loc, join_with(ip.entry_names(), seq!['.'])),
    ensures
        res.loc == ip.loc,
        res.entries@.len() == ip.entries@.len(),
        forall|i: int|
            0 <= i < ip.entries@.len() ==> (#[trigger] res.entries@[i]).loc == ip.entries@[i].loc
                && res.entries@[i].value@ == ip.entries@[i].value@,
{
    let names = ip.entry_names();
    assert forall|i: int| 0 <= i < names.len() implies !(#[trigger] names[i]).contains('.') by {
        assert(names[i] == ip.entries@[i].value@);
    }
    lemma_split_on_join(names);
    assert forall|i: int| 0 <= i < ip.entries@.len() implies (#[trigger] res.entries@[i]).loc
        == ip.entries@[i].loc && res.entries@[i].value@ == ip.entries@[i].value@ by {
        assert(names[i] == ip.entries@[i].value@);
        lemma_bytes_of_injective(res.entries@[i].value@, ip.entries@[i].value@);
    }
}

} // verus!
