use vstd::prelude::*;

verus! {

/// The tag that opens the data of a swap instruction.
pub const SWAP_DISCRIMINATOR: [u8; 8] = [248, 198, 158, 145, 225, 117, 135, 200];

/// The arguments of a swap instruction.
#[derive(Debug, Clone, Copy)]
pub struct SwapIxData {
    /// The amount given, in smallest units of the input token.
    pub amount_in: u64,
    /// The partner's fee rate, in basis points.
    pub partner_fee_bps: u64,
}

/// The lowest `n` bytes of `x`, the lowest first.
pub open spec fn le_bytes(x: nat, n: nat) -> Seq<u8>
    decreases n,
{
    if n == 0 {
        Seq::empty()
    } else {
        seq![(x % 256) as u8] + le_bytes(x / 256, (n - 1) as nat)
    }
}

/// `n` bytes are `n` bytes.
proof fn lemma_le_bytes_len(x: nat, n: nat)
    ensures
        le_bytes(x, n).len() == n,
    decreases n,
{
    if n > 0 {
        lemma_le_bytes_len(x / 256, (n - 1) as nat);
    }
}

impl SwapIxData {
    /// The data of the instruction: the tag, then the amount and the partner's
    /// rate, each as eight bytes with the lowest first.
    pub open spec fn instruction_data_spec(&self) -> Seq<u8> {
        SWAP_DISCRIMINATOR@ + le_bytes(self.amount_in as nat, 8) + le_bytes(
            self.partner_fee_bps as nat,
            8,
        )
    }

    /// Writes the data of the instruction.
    pub fn instruction_data(&self) -> (data: Vec<u8>)
        ensures
            data@ == self.instruction_data_spec(),
            data@.len() == 24,
    {
        let mut data: Vec<u8> = Vec::with_capacity(24);
        let mut i: usize = 0;
        while i < 8
            invariant
                i <= 8,
                data@ == SWAP_DISCRIMINATOR@.subrange(0, i as int),
            decreases 8 - i,
        {
            data.push(SWAP_DISCRIMINATOR[i]);
            assert(data@ =~= SWAP_DISCRIMINATOR@.subrange(0, i + 1));
            i = i + 1;
        }
        assert(data@ =~= SWAP_DISCRIMINATOR@);
        push_le_bytes(&mut data, self.amount_in);
        push_le_bytes(&mut data, self.partner_fee_bps);
        proof {
            lemma_le_bytes_len(self.amount_in as nat, 8);
            lemma_le_bytes_len(self.partner_fee_bps as nat, 8);
        }
        data
    }
}

/// Appends the eight bytes of `x`, the lowest first.
fn push_le_bytes(data: &mut Vec<u8>, x: u64)
    ensures
        final(data)@ == old(data)@ + le_bytes(x as nat, 8),
{
    let mut rest = x;
    let mut i: usize = 0;
    let ghost before = data@;
    assert(before + le_bytes(rest as nat, 8) =~= data@ + le_bytes(rest as nat, 8));
    while i < 8
        invariant
            i <= 8,
            data@ + le_bytes(rest as nat, (8 - i) as nat) == before + le_bytes(x as nat, 8),
        decreases 8 - i,
    {
        let ghost prev = data@;
        data.push((rest % 256) as u8);
        assert(data@ + le_bytes((rest / 256) as nat, (8 - i - 1) as nat) =~= prev + le_bytes(
            rest as nat,
            (8 - i) as nat,
        ));
        rest = rest / 256;
        i = i + 1;
    }
    assert(data@ + le_bytes(rest as nat, 0) =~= data@);
}

} // verus!
