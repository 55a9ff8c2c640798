use vstd::prelude::*;

verus! {

/// The low `n` bytes of `v`, least significant first.
pub open spec fn le_bytes(v: nat, n: nat) -> Seq<u8>
    decreases n,
{
    if n == 0 {
        Seq::empty()
    } else {
        seq![(v % 256) as u8] + le_bytes(v / 256, (n - 1) as nat)
    }
}

/// The eight bytes that an output word is written as, least significant first.
pub fn output_bytes(v: u64) -> (r: Vec<u8>)
    ensures
        r@ == le_bytes(v as nat, 8),
{
    let mut bytes: Vec<u8> = Vec::new();
    let mut rest: u64 = v;
    let mut i: usize = 0;
    while i < 8
        invariant
            i <= 8,
            bytes@ + le_bytes(rest as nat, (8 - i) as nat) == le_bytes(v as nat, 8),
        decreases 8 - i,
    {
        let ghost tail = le_bytes(rest as nat, (8 - i) as nat);
        assert(tail == seq![(rest % 256) as u8] + le_bytes((rest / 256) as nat, (8 - i - 1) as nat));
        bytes.push((rest % 256) as u8);
        rest = rest / 256;
        i = i + 1;
        assert(bytes@ + le_bytes(rest as nat, (8 - i) as nat) =~= le_bytes(v as nat, 8));
    }
    assert(le_bytes(rest as nat, 0) =~= Seq::<u8>::empty());
    assert(bytes@ =~= bytes@ + le_bytes(rest as nat, 0));
    bytes
}

/// The process exit status of a program result: its low 32 bits.
pub fn exit_status(code: i64) -> (r: i32)
    ensures
        r == code as i32,
{
    #[verifier::truncate]
    (code as i32)
}

} // verus!
