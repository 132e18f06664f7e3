//! Byte-sequence helpers shared by the protocol modules: equality, copying,
//! concatenation, and splitting on a separator byte.

use vstd::prelude::*;

verus! {

/// The views of each vector in a sequence of byte vectors.
pub open spec fn views_of(s: Seq<Vec<u8>>) -> Seq<Seq<u8>> {
    s.map_values(|v: Vec<u8>| v@)
}

/// Splitting on a separator byte, empty fields kept: the byte-level
/// counterpart of splitting text on every occurrence of one character.
pub open spec fn split_byte(s: Seq<u8>, sep: u8) -> Seq<Seq<u8>>
    decreases s.len(),
{
    if s.len() == 0 {
        seq![Seq::<u8>::empty()]
    } else if s[0] == sep {
        seq![Seq::<u8>::empty()] + split_byte(s.drop_first(), sep)
    } else {
        let rest = split_byte(s.drop_first(), sep);
        seq![seq![s[0]] + rest[0]] + rest.drop_first()
    }
}

/// A split always yields at least one field (an empty input yields one
/// empty field).
pub proof fn lemma_split_byte_nonempty(s: Seq<u8>, sep: u8)
    ensures
        split_byte(s, sep).len() >= 1,
    decreases s.len(),
{
    if s.len() != 0 {
        lemma_split_byte_nonempty(s.drop_first(), sep);
    }
}

/// Equality of two byte vectors, decided byte by byte.
pub fn bytes_eq(a: &Vec<u8>, b: &Vec<u8>) -> (r: bool)
    ensures
        r == (a@ == b@),
{
    if a.len() != b.len() {
        return false;
    }
    let mut i: usize = 0;
    while i < a.len()
        invariant
            i <= a.len(),
            a@.len() == b@.len(),
            forall|j: int| 0 <= j < i ==> a@[j] == b@[j],
        decreases a.len() - i,
    {
        if a[i] != b[i] {
            return false;
        }
        i += 1;
    }
    proof {
        assert(a@ =~= b@);
    }
    true
}

/// A fresh copy of a byte vector.
pub fn copy_bytes(src: &Vec<u8>) -> (r: Vec<u8>)
    ensures
        r@ == src@,
{
    let mut r: Vec<u8> = Vec::new();
    let mut i: usize = 0;
    while i < src.len()
        invariant
            i <= src.len(),
            r@ == src@.subrange(0, i as int),
        decreases src.len() - i,
    {
        r.push(src[i]);
        proof {
            assert(r@ =~= src@.subrange(0, i as int + 1));
        }
        i += 1;
    }
    proof {
        assert(src@.subrange(0, src@.len() as int) =~= src@);
    }
    r
}

/// `a` followed by `b`.
pub fn concat_bytes(a: &Vec<u8>, b: &Vec<u8>) -> (r: Vec<u8>)
    ensures
        r@ == a@ + b@,
{
    let mut r = copy_bytes(a);
    proof {
        assert(a@ + b@.subrange(0, 0) =~= a@);
    }
    let mut i: usize = 0;
    while i < b.len()
        invariant
            i <= b.len(),
            r@ == a@ + b@.subrange(0, i as int),
        decreases b.len() - i,
    {
        r.push(b[i]);
        proof {
            assert(r@ =~= a@ + b@.subrange(0, i as int + 1));
        }
        i += 1;
    }
    proof {
        assert(a@ + b@.subrange(0, b@.len() as int) =~= a@ + b@);
    }
    r
}

/// Split a byte vector at every occurrence of `sep`, keeping empty fields.
pub fn split_bytes(line: &Vec<u8>, sep: u8) -> (r: Vec<Vec<u8>>)
    ensures
        views_of(r@) == split_byte(line@, sep),
{
    let mut toks: Vec<Vec<u8>> = Vec::new();
    toks.push(Vec::new());
    proof {
        assert(line@.skip(line@.len() as int) =~= Seq::<u8>::empty());
        assert(views_of(toks@) =~~= split_byte(line@.skip(line@.len() as int), sep));
    }
    let mut i: usize = line.len();
    while i > 0
        invariant
            i <= line.len(),
            views_of(toks@) == split_byte(line@.skip(i as int), sep),
        decreases i,
    {
        i = i - 1;
        let b = line[i];
        proof {
            assert(line@.skip(i as int).len() > 0);
            assert(line@.skip(i as int)[0] == line@[i as int]);
            assert(line@.skip(i as int).drop_first() =~= line@.skip(i as int + 1));
            lemma_split_byte_nonempty(line@.skip(i as int + 1), sep);
        }
        if b == sep {
            toks.insert(0, Vec::new());
            proof {
                assert(views_of(toks@) =~~= seq![Seq::<u8>::empty()] + split_byte(
                    line@.skip(i as int + 1),
                    sep,
                ));
            }
        } else {
            let mut first = toks.remove(0);
            first.insert(0, b);
            toks.insert(0, first);
            proof {
                let rest = split_byte(line@.skip(i as int + 1), sep);
                assert(views_of(toks@) =~~= seq![seq![line@[i as int]] + rest[0]]
                    + rest.drop_first());
            }
        }
    }
    proof {
        assert(line@.skip(0) =~= line@);
    }
    toks
}

} // verus!
