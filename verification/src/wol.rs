//! The Wake-on-LAN magic packet: 6 bytes of `0xFF` followed by the
//! 6-byte hardware address repeated 16 times, 102 bytes in all.

use vstd::prelude::*;

use crate::mac::MacAddr;

verus! {

/// The payload length of a magic packet.
pub const MAGIC_PACKET_LEN: usize = 102;

/// The magic packet for a 6-byte hardware address.
pub open spec fn spec_magic_packet(mac: Seq<u8>) -> Seq<u8> {
    Seq::new(102, |i: int| if i < 6 { 0xffu8 } else { mac[(i - 6) % 6] })
}

/// Builds the magic packet: `FF` six times, then the address sixteen
/// times.
pub fn magic_packet(mac: &MacAddr) -> (r: Vec<u8>)
    ensures
        r@ == spec_magic_packet(mac@),
{
    let mut out: Vec<u8> = Vec::new();
    let mut i: usize = 0;
    while i < 6
        invariant
            i <= 6,
            out@.len() == i,
            forall|t: int| 0 <= t < i ==> out@[t] == spec_magic_packet(mac@)[t],
        decreases 6 - i,
    {
        out.push(0xff);
        i = i + 1;
    }
    let mut rep: usize = 0;
    while rep < 16
        invariant
            rep <= 16,
            out@.len() == 6 + 6 * rep,
            forall|t: int| 0 <= t < out@.len() ==> out@[t] == spec_magic_packet(mac@)[t],
        decreases 16 - rep,
    {
        let mut j: usize = 0;
        while j < 6
            invariant
                rep < 16,
                j <= 6,
                out@.len() == 6 + 6 * rep + j,
                forall|t: int| 0 <= t < out@.len() ==> out@[t] == spec_magic_packet(mac@)[t],
            decreases 6 - j,
        {
            proof {
                assert((6 * rep + j) % 6 == j) by (nonlinear_arith)
                    requires
                        0 <= j < 6,
                        0 <= rep,
                ;
            }
            out.push(mac.byte(j));
            j = j + 1;
        }
        rep = rep + 1;
    }
    proof {
        assert(out@ =~= spec_magic_packet(mac@));
    }
    out
}

/// The shape law: for any 6-byte address the packet is 102 bytes long,
/// opens with six `0xFF` bytes, and the remaining 96 bytes are the
/// address repeated sixteen times.
pub proof fn lemma_magic_packet_shape(mac: Seq<u8>)
    requires
        mac.len() == 6,
    ensures
        spec_magic_packet(mac).len() == 102,
        forall|i: int| 0 <= i < 6 ==> spec_magic_packet(mac)[i] == 0xffu8,
        forall|i: int| 6 <= i < 102 ==> spec_magic_packet(mac)[i] == mac[(i - 6) % 6],
{
}

} // verus!
