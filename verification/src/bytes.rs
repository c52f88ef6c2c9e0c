use vstd::prelude::*;

verus! {

/// A copy of a byte vector.
pub fn copy_bytes(v: &Vec<u8>) -> (r: Vec<u8>)
    ensures
        r@ == v@,
{
    let r = v.clone();
    assert(r@ =~= v@);
    r
}

/// `len` bytes, each equal to `byte`.
pub fn filled(byte: u8, len: usize) -> (v: Vec<u8>)
    ensures
        v@ == Seq::new(len as nat, |i: int| byte),
{
    let mut v: Vec<u8> = Vec::new();
    while v.len() < len
        invariant
            v@.len() <= len,
            forall|i: int| 0 <= i < v@.len() ==> v@[i] == byte,
        decreases len - v@.len(),
    {
        v.push(byte);
    }
    assert(v@ =~= Seq::new(len as nat, |i: int| byte));
    v
}

/// Appends the bytes of `tail` to `head`.
pub fn append_bytes(head: &mut Vec<u8>, tail: &[u8])
    ensures
        final(head)@ == old(head)@ + tail@,
{
    let mut i: usize = 0;
    while i < tail.len()
        invariant
            i <= tail.len(),
            head@ == old(head)@ + tail@.subrange(0, i as int),
        decreases tail.len() - i,
    {
        head.push(tail[i]);
        assert(head@ =~= old(head)@ + tail@.subrange(0, i + 1));
        i = i + 1;
    }
    assert(tail@.subrange(0, tail.len() as int) =~= tail@);
}

} // verus!
