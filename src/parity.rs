use vstd::prelude::*;

verus! {

/// The exclusive or of all bytes of `s`.
pub open spec fn xor_all(s: Seq<u8>) -> u8
    decreases s.len(),
{
    if s.len() == 0 {
        0
    } else {
        xor_all(s.drop_last()) ^ s.last()
    }
}

/// The number of one bits of `b`.
pub open spec fn ones(b: u8) -> nat
    decreases b,
{
    if b == 0 {
        0
    } else {
        (b % 2) as nat + ones(b / 2)
    }
}

/// The parity of a signature's canonical representation: whether the bytes hold an odd number
/// of one bits, counted on their exclusive or.
pub open spec fn parity_of(s: Seq<u8>) -> bool {
    ones(xor_all(s)) % 2 == 1
}

/// The coin value that a combined signature stands for.
pub fn signature_parity(bytes: &Vec<u8>) -> (r: bool)
    ensures
        r == parity_of(bytes@),
{
    let mut acc: u8 = 0;
    let mut i: usize = 0;
    while i < bytes.len()
        invariant
            i <= bytes.len(),
            acc == xor_all(bytes@.take(i as int)),
        decreases bytes.len() - i,
    {
        assert(bytes@.take(i as int + 1).drop_last() =~= bytes@.take(i as int));
        acc = acc ^ bytes[i];
        i = i + 1;
    }
    assert(bytes@.take(i as int) =~= bytes@);
    let mut x: u8 = acc;
    let mut count: u8 = 0;
    while x != 0
        invariant
            count as nat + ones(x) == ones(acc),
            count as nat + x as nat <= 255,
        decreases x,
    {
        count = count + x % 2;
        x = x / 2;
    }
    count % 2 == 1
}

} // verus!
