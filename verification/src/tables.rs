//! The fixed data of the wire format: cipher suites, protocol names and the
//! extensions whose content never changes.

use vstd::prelude::*;
use crate::probe::CipherList;

verus! {

/// The cipher suites that a probe can offer, two bytes each, in the order in
/// which `FORWARD` sends them.
pub const CIPHER_SUITES: [u8; 138] = [
    0x00, 0x16, 0x00, 0x33, 0x00, 0x67, 0xc0, 0x9e, 0xc0, 0xa2, 0x00, 0x9e, 0x00, 0x39, 0x00, 0x6b,
    0xc0, 0x9f, 0xc0, 0xa3, 0x00, 0x9f, 0x00, 0x45, 0x00, 0xbe, 0x00, 0x88, 0x00, 0xc4, 0x00, 0x9a,
    0xc0, 0x08, 0xc0, 0x09, 0xc0, 0x23, 0xc0, 0xac, 0xc0, 0xae, 0xc0, 0x2b, 0xc0, 0x0a, 0xc0, 0x24,
    0xc0, 0xad, 0xc0, 0xaf, 0xc0, 0x2c, 0xc0, 0x72, 0xc0, 0x73, 0xcc, 0xa9, 0x13, 0x02, 0x13, 0x01,
    0xcc, 0x14, 0xc0, 0x07, 0xc0, 0x12, 0xc0, 0x13, 0xc0, 0x27, 0xc0, 0x2f, 0xc0, 0x14, 0xc0, 0x28,
    0xc0, 0x30, 0xc0, 0x60, 0xc0, 0x61, 0xc0, 0x76, 0xc0, 0x77, 0xcc, 0xa8, 0x13, 0x05, 0x13, 0x04,
    0x13, 0x03, 0xcc, 0x13, 0xc0, 0x11, 0x00, 0x0a, 0x00, 0x2f, 0x00, 0x3c, 0xc0, 0x9c, 0xc0, 0xa0,
    0x00, 0x9c, 0x00, 0x35, 0x00, 0x3d, 0xc0, 0x9d, 0xc0, 0xa1, 0x00, 0x9d, 0x00, 0x41, 0x00, 0xba,
    0x00, 0x84, 0x00, 0xc0, 0x00, 0x07, 0x00, 0x04, 0x00, 0x05,
];

/// The cipher suites of [`CIPHER_SUITES`] as a list of blocks of two bytes.
pub open spec fn all_suites() -> Seq<Seq<u8>> {
    Seq::new(69, |i: int| seq![CIPHER_SUITES[2 * i], CIPHER_SUITES[2 * i + 1]])
}

/// A suite that exists in TLS 1.3 only: its first byte is `0x13`.
pub open spec fn is_tls13_suite(suite: Seq<u8>) -> bool {
    suite[0] == 0x13
}

/// The suites that a probe offers, before they are rearranged.
pub open spec fn offered_suites(list: CipherList) -> Seq<Seq<u8>> {
    match list {
        CipherList::ALL => all_suites(),
        CipherList::NO1_3 => all_suites().filter(|suite: Seq<u8>| !is_tls13_suite(suite)),
    }
}

/// The suites that a probe offers, as blocks of two bytes.
pub(crate) fn cipher_table(list: &CipherList) -> (table: Vec<Vec<u8>>)
    ensures
        table.deep_view() == offered_suites(*list),
{
    let keep_all = match list {
        CipherList::ALL => true,
        CipherList::NO1_3 => false,
    };
    let ghost keep = |suite: Seq<u8>| !is_tls13_suite(suite);
    let mut table: Vec<Vec<u8>> = Vec::new();
    let mut i: usize = 0;
    while i < 69
        invariant
            i <= 69,
            keep_all == (*list == CipherList::ALL),
            keep == |suite: Seq<u8>| !is_tls13_suite(suite),
            keep_all ==> table.deep_view() == all_suites().take(i as int),
            !keep_all ==> table.deep_view() == all_suites().take(i as int).filter(keep),
        decreases 69 - i,
    {
        let first = CIPHER_SUITES[2 * i];
        let second = CIPHER_SUITES[2 * i + 1];
        let ghost before = table.deep_view();
        proof {
            reveal(Seq::filter);
            let grown = all_suites().take(i + 1);
            assert(grown.drop_last() =~= all_suites().take(i as int));
        }
        if keep_all || first != 0x13 {
            let suite = vec![first, second];
            table.push(suite);
            assert(table.deep_view() =~~= before.push(seq![first, second]));
        }
        i = i + 1;
    }
    assert(all_suites().take(69) =~= all_suites());
    table
}

/// The protocol names that a probe offers, each behind the byte that holds
/// its length. `spdy/3` and `h2` share one block of the usual table and stay
/// together when the table is rearranged; the rare table has `spdy/3` alone
/// and no `http/1.1`.
pub open spec fn offered_protocols(rare: bool) -> Seq<Seq<u8>> {
    if rare {
        seq![
            seq![0x08u8, 0x68, 0x74, 0x74, 0x70, 0x2f, 0x30, 0x2e, 0x39],
            seq![0x08u8, 0x68, 0x74, 0x74, 0x70, 0x2f, 0x31, 0x2e, 0x30],
            seq![0x06u8, 0x73, 0x70, 0x64, 0x79, 0x2f, 0x31],
            seq![0x06u8, 0x73, 0x70, 0x64, 0x79, 0x2f, 0x32],
            seq![0x06u8, 0x73, 0x70, 0x64, 0x79, 0x2f, 0x33],
            seq![0x03u8, 0x68, 0x32, 0x63],
            seq![0x02u8, 0x68, 0x71],
        ]
    } else {
        seq![
            seq![0x08u8, 0x68, 0x74, 0x74, 0x70, 0x2f, 0x30, 0x2e, 0x39],
            seq![0x08u8, 0x68, 0x74, 0x74, 0x70, 0x2f, 0x31, 0x2e, 0x30],
            seq![0x08u8, 0x68, 0x74, 0x74, 0x70, 0x2f, 0x31, 0x2e, 0x31],
            seq![0x06u8, 0x73, 0x70, 0x64, 0x79, 0x2f, 0x31],
            seq![0x06u8, 0x73, 0x70, 0x64, 0x79, 0x2f, 0x32],
            seq![0x06u8, 0x73, 0x70, 0x64, 0x79, 0x2f, 0x33, 0x02, 0x68, 0x32],
            seq![0x03u8, 0x68, 0x32, 0x63],
            seq![0x02u8, 0x68, 0x71],
        ]
    }
}

/// The protocol names that a probe offers.
pub(crate) fn protocol_table(rare: bool) -> (table: Vec<Vec<u8>>)
    ensures
        table.deep_view() == offered_protocols(rare),
{
    let table = if rare {
        vec![
            vec![0x08u8, 0x68, 0x74, 0x74, 0x70, 0x2f, 0x30, 0x2e, 0x39],
            vec![0x08u8, 0x68, 0x74, 0x74, 0x70, 0x2f, 0x31, 0x2e, 0x30],
            vec![0x06u8, 0x73, 0x70, 0x64, 0x79, 0x2f, 0x31],
            vec![0x06u8, 0x73, 0x70, 0x64, 0x79, 0x2f, 0x32],
            vec![0x06u8, 0x73, 0x70, 0x64, 0x79, 0x2f, 0x33],
            vec![0x03u8, 0x68, 0x32, 0x63],
            vec![0x02u8, 0x68, 0x71],
        ]
    } else {
        vec![
            vec![0x08u8, 0x68, 0x74, 0x74, 0x70, 0x2f, 0x30, 0x2e, 0x39],
            vec![0x08u8, 0x68, 0x74, 0x74, 0x70, 0x2f, 0x31, 0x2e, 0x30],
            vec![0x08u8, 0x68, 0x74, 0x74, 0x70, 0x2f, 0x31, 0x2e, 0x31],
            vec![0x06u8, 0x73, 0x70, 0x64, 0x79, 0x2f, 0x31],
            vec![0x06u8, 0x73, 0x70, 0x64, 0x79, 0x2f, 0x32],
            vec![0x06u8, 0x73, 0x70, 0x64, 0x79, 0x2f, 0x33, 0x02, 0x68, 0x32],
            vec![0x03u8, 0x68, 0x32, 0x63],
            vec![0x02u8, 0x68, 0x71],
        ]
    };
    assert(table.deep_view() =~~= offered_protocols(rare));
    table
}

/// The extension `extended_master_secret`, without content.
pub const EXTENDED_MASTER_SECRET: [u8; 4] = [0x00, 0x17, 0x00, 0x00];

/// The extension `max_fragment_length`, asking for fragments of 512 bytes.
pub const MAX_FRAGMENT_LENGTH: [u8; 5] = [0x00, 0x01, 0x00, 0x01, 0x01];

/// The extension `renegotiation_info`, with an empty list.
pub const RENEGOTIATION_INFO: [u8; 5] = [0xff, 0x01, 0x00, 0x01, 0x00];

/// The extension `supported_groups`: x25519, secp256r1, secp384r1, secp521r1.
pub const SUPPORTED_GROUPS: [u8; 14] = [
    0x00, 0x0a, 0x00, 0x0a, 0x00, 0x08, 0x00, 0x1d, 0x00, 0x17, 0x00, 0x18, 0x00, 0x19,
];

/// The extension `ec_point_formats`: uncompressed points.
pub const EC_POINT_FORMATS: [u8; 6] = [0x00, 0x0b, 0x00, 0x02, 0x01, 0x00];

/// The extension `session_ticket`, without a ticket.
pub const SESSION_TICKET: [u8; 4] = [0x00, 0x23, 0x00, 0x00];

/// The extension `signature_algorithms` with its nine algorithms.
pub const SIGNATURE_ALGORITHMS: [u8; 24] = [
    0x00, 0x0d, 0x00, 0x14, 0x00, 0x12, 0x04, 0x03, 0x08, 0x04, 0x04, 0x01, 0x05, 0x03, 0x08, 0x05,
    0x05, 0x01, 0x08, 0x06, 0x06, 0x01, 0x02, 0x01,
];

/// The extension `psk_key_exchange_modes`: PSK with (EC)DHE.
pub const PSK_KEY_EXCHANGE_MODES: [u8; 6] = [0x00, 0x2d, 0x00, 0x02, 0x01, 0x01];

/// The cipher suites in the order of their rank in a fingerprint: the first
/// has rank 1, the last rank 69.
pub const CIPHER_RANKS: [u8; 138] = [
    0x00, 0x04, 0x00, 0x05, 0x00, 0x07, 0x00, 0x0a, 0x00, 0x16, 0x00, 0x2f, 0x00, 0x33, 0x00, 0x35,
    0x00, 0x39, 0x00, 0x3c, 0x00, 0x3d, 0x00, 0x41, 0x00, 0x45, 0x00, 0x67, 0x00, 0x6b, 0x00, 0x84,
    0x00, 0x88, 0x00, 0x9a, 0x00, 0x9c, 0x00, 0x9d, 0x00, 0x9e, 0x00, 0x9f, 0x00, 0xba, 0x00, 0xbe,
    0x00, 0xc0, 0x00, 0xc4, 0xc0, 0x07, 0xc0, 0x08, 0xc0, 0x09, 0xc0, 0x0a, 0xc0, 0x11, 0xc0, 0x12,
    0xc0, 0x13, 0xc0, 0x14, 0xc0, 0x23, 0xc0, 0x24, 0xc0, 0x27, 0xc0, 0x28, 0xc0, 0x2b, 0xc0, 0x2c,
    0xc0, 0x2f, 0xc0, 0x30, 0xc0, 0x60, 0xc0, 0x61, 0xc0, 0x72, 0xc0, 0x73, 0xc0, 0x76, 0xc0, 0x77,
    0xc0, 0x9c, 0xc0, 0x9d, 0xc0, 0x9e, 0xc0, 0x9f, 0xc0, 0xa0, 0xc0, 0xa1, 0xc0, 0xa2, 0xc0, 0xa3,
    0xc0, 0xac, 0xc0, 0xad, 0xc0, 0xae, 0xc0, 0xaf, 0xcc, 0x13, 0xcc, 0x14, 0xcc, 0xa8, 0xcc, 0xa9,
    0x13, 0x01, 0x13, 0x02, 0x13, 0x03, 0x13, 0x04, 0x13, 0x05,
];

} // verus!
