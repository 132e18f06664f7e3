//! The transport's line codec and the messages that flow between the
//! transport, the protocol engine and the supervisor.
//!
//! A connection carries newline-terminated text lines. The reader strips the
//! terminator bytes from each raw line before handing it on; the writer
//! appends exactly one carriage-return/line-feed pair to each outbound line.

use vstd::prelude::*;

verus! {

/// Events and requests multiplexed through the supervisor's per-connection
/// loop: lines read from the connection, lines to be written to it, the two
/// ways a connection ends, and the protocol engine's wish to disconnect.
pub enum SocketMessage {
    /// One line read from the connection, terminator bytes stripped.
    Input(Vec<u8>),
    /// One protocol line to be written to the connection.
    Output(Vec<u8>),
    /// The peer closed the connection (end of stream).
    Disconnected,
    /// The protocol engine requests a graceful disconnect.
    WantDisconnected,
    /// A read failure ended the connection.
    Error,
}

/// The terminator appended to every outbound line: carriage return, line feed.
pub open spec fn crlf() -> Seq<u8> {
    seq![13u8, 10u8]
}

/// Carriage return and line feed are the line terminator bytes.
pub open spec fn is_terminator_byte(b: u8) -> bool {
    b == 10 || b == 13
}

/// The content of a raw line: every terminator byte removed, all other
/// bytes kept in their original order.
pub open spec fn stripped(s: Seq<u8>) -> Seq<u8>
    decreases s.len(),
{
    if s.len() == 0 {
        Seq::empty()
    } else {
        let rest = stripped(s.drop_last());
        if is_terminator_byte(s.last()) {
            rest
        } else {
            rest.push(s.last())
        }
    }
}

/// Stripping leaves no terminator byte behind.
pub proof fn lemma_stripped_clean(s: Seq<u8>)
    ensures
        forall|i: int| 0 <= i < stripped(s).len() ==> !is_terminator_byte(#[trigger] stripped(s)[i]),
    decreases s.len(),
{
    if s.len() != 0 {
        lemma_stripped_clean(s.drop_last());
        let rest = stripped(s.drop_last());
        if !is_terminator_byte(s.last()) {
            assert(stripped(s) == rest.push(s.last()));
            assert forall|i: int| 0 <= i < stripped(s).len() implies !is_terminator_byte(
                stripped(s)[i],
            ) by {
                if i < rest.len() {
                    assert(stripped(s)[i] == rest[i]);
                } else {
                    assert(stripped(s)[i] == s.last());
                }
            }
        }
    }
}

/// Stripping does not touch a sequence that holds no terminator byte.
pub proof fn lemma_stripped_identity(s: Seq<u8>)
    requires
        forall|i: int| 0 <= i < s.len() ==> !is_terminator_byte(#[trigger] s[i]),
    ensures
        stripped(s) == s,
    decreases s.len(),
{
    if s.len() != 0 {
        lemma_stripped_identity(s.drop_last());
        assert(stripped(s) =~= s);
    }
}

/// Stripping distributes over concatenation.
pub proof fn lemma_stripped_append(a: Seq<u8>, b: Seq<u8>)
    ensures
        stripped(a + b) == stripped(a) + stripped(b),
    decreases b.len(),
{
    if b.len() == 0 {
        assert(a + b =~= a);
        assert(stripped(a) + stripped(b) =~= stripped(a));
    } else {
        lemma_stripped_append(a, b.drop_last());
        assert((a + b).drop_last() =~= a + b.drop_last());
        assert((a + b).last() == b.last());
        if !is_terminator_byte(b.last()) {
            assert(stripped(a) + stripped(b) =~= (stripped(a) + stripped(b.drop_last())).push(
                b.last(),
            ));
        }
    }
}

/// Round trip through the wire format: the content of any accepted raw line,
/// re-emitted by the writer with the terminator appended, is read back as
/// exactly that content — embedded spaces, colons and every other
/// non-terminator byte survive unchanged, and the appended terminator is the
/// only one.
pub proof fn lemma_line_round_trip(raw: Seq<u8>)
    ensures
        stripped(stripped(raw) + crlf()) == stripped(raw),
        forall|i: int| 0 <= i < stripped(raw).len() ==> !is_terminator_byte(
            #[trigger] stripped(raw)[i],
        ),
{
    lemma_stripped_clean(raw);
    lemma_stripped_append(stripped(raw), crlf());
    lemma_stripped_identity(stripped(raw));
    let cr = seq![13u8];
    assert(stripped(Seq::<u8>::empty()) == Seq::<u8>::empty());
    assert(cr.drop_last() =~= Seq::<u8>::empty());
    assert(cr.last() == 13u8);
    assert(stripped(cr) == Seq::<u8>::empty());
    assert(crlf().drop_last() =~= cr);
    assert(crlf().last() == 10u8);
    assert(stripped(crlf()) == Seq::<u8>::empty());
    assert(stripped(raw) + Seq::<u8>::empty() =~= stripped(raw));
}

/// Strip every terminator byte from a raw line, as the transport reader does
/// before forwarding it.
pub fn strip_line(raw: &Vec<u8>) -> (r: Vec<u8>)
    ensures
        r@ == stripped(raw@),
{
    let mut r: Vec<u8> = Vec::new();
    let mut i: usize = 0;
    while i < raw.len()
        invariant
            i <= raw.len(),
            r@ == stripped(raw@.subrange(0, i as int)),
        decreases raw.len() - i,
    {
        let b = raw[i];
        proof {
            assert(raw@.subrange(0, i as int + 1).drop_last() =~= raw@.subrange(0, i as int));
            assert(raw@.subrange(0, i as int + 1).last() == raw@[i as int]);
        }
        if b != 10 && b != 13 {
            r.push(b);
        }
        i += 1;
    }
    proof {
        assert(raw@.subrange(0, raw@.len() as int) =~= raw@);
    }
    r
}

/// Append the protocol terminator to an outbound line, as the writer does
/// just before the bytes reach the connection.
pub fn encode_line(line: &Vec<u8>) -> (r: Vec<u8>)
    ensures
        r@ == line@ + crlf(),
{
    let mut t: Vec<u8> = Vec::new();
    t.push(13u8);
    t.push(10u8);
    proof {
        assert(t@ =~= crlf());
    }
    crate::bytes::concat_bytes(line, &t)
}

} // verus!
