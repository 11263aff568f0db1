//! Transparency: the escape scheme that keeps the frame delimiters out of the
//! bytes between them.

use vstd::prelude::*;

verus! {

/// The escape marker. It is also the smallest byte that is escaped.
pub const ESCAPE: u8 = 0xFD;

/// What is sent for one byte: the byte itself below the marker, else the
/// marker followed by the distance from it.
pub open spec fn stuff_byte(b: u8) -> Seq<u8> {
    if b >= ESCAPE {
        seq![ESCAPE, (b - ESCAPE) as u8]
    } else {
        seq![b]
    }
}

/// The escaped form of `data`.
pub open spec fn stuff(data: Seq<u8>) -> Seq<u8>
    decreases data.len(),
{
    if data.len() == 0 {
        Seq::empty()
    } else {
        stuff_byte(data[0]) + stuff(data.skip(1))
    }
}

/// Whether every marker in `s` is followed by a distance of 0, 1 or 2, so
/// that each escape pair stands for a byte.
pub open spec fn escapes_valid(s: Seq<u8>) -> bool
    decreases s.len(),
{
    if s.len() == 0 {
        true
    } else if s[0] == ESCAPE {
        s.len() >= 2 && s[1] <= 2 && escapes_valid(s.skip(2))
    } else {
        escapes_valid(s.skip(1))
    }
}

/// The bytes that `s` stands for: a marker and the distance behind it give
/// one byte, every other byte stands for itself. Meant for `s` with valid
/// escapes.
pub open spec fn unstuff(s: Seq<u8>) -> Seq<u8>
    decreases s.len(),
{
    if s.len() == 0 {
        Seq::empty()
    } else if s[0] == ESCAPE && s.len() >= 2 {
        seq![(ESCAPE + s[1]) as u8] + unstuff(s.skip(2))
    } else {
        seq![s[0]] + unstuff(s.skip(1))
    }
}

/// Escaping and then reversing it gives the bytes back, whatever they are,
/// and what escaping produces has valid escapes.
pub proof fn lemma_unstuff_stuff(data: Seq<u8>)
    ensures
        escapes_valid(stuff(data)),
        unstuff(stuff(data)) == data,
    decreases data.len(),
{
    if data.len() > 0 {
        let rest = data.skip(1);
        let out = stuff(data);
        lemma_unstuff_stuff(rest);
        if data[0] >= ESCAPE {
            assert(out.skip(2) =~= stuff(rest));
        } else {
            assert(out.skip(1) =~= stuff(rest));
        }
        assert(seq![data[0]] + rest =~= data);
    }
}

/// Escaped bytes hold neither frame delimiter: no byte above the marker.
pub proof fn lemma_stuff_below_delimiters(data: Seq<u8>)
    ensures
        forall|i: int| 0 <= i < stuff(data).len() ==> stuff(data)[i] <= ESCAPE,
    decreases data.len(),
{
    if data.len() > 0 {
        let head = stuff_byte(data[0]);
        let tail = stuff(data.skip(1));
        lemma_stuff_below_delimiters(data.skip(1));
        assert forall|i: int| 0 <= i < stuff(data).len() implies stuff(data)[i] <= ESCAPE by {
            if i >= head.len() {
                assert(stuff(data)[i] == tail[i - head.len()]);
            }
        }
    }
}

/// The escaped form is at least as long as the data and at most twice as
/// long.
pub proof fn lemma_stuff_len(data: Seq<u8>)
    ensures
        data.len() <= stuff(data).len() <= 2 * data.len(),
    decreases data.len(),
{
    if data.len() > 0 {
        lemma_stuff_len(data.skip(1));
    }
}

} // verus!
