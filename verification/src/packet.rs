//! The ClientHello of a probe, byte by byte.
//!
//! A packet is a TLS record that holds one handshake message:
//!
//! ```text
//! 16  record version (2)  length (2)
//!     01  00  length (2)
//!         hello version (2)  random (32)  id length (1)  session id (32)
//!         suites length (2)  cipher suites  01 00
//!         extensions length (2)  extensions
//! ```
//!
//! Every length of two bytes is written big-endian and holds the low 16 bits
//! of the number.

use vstd::prelude::*;
use vstd::utf8::encode_utf8;
use crate::permute::{cipher_mung, permuted};
use crate::probe::{PacketSpecification, ProbeModel, TlsVersion, TlsVersionSupport};
use crate::rng::{test_block, test_grease, JarmRng, TestRng};
use crate::tables::{
    cipher_table, offered_protocols, offered_suites, protocol_table, EC_POINT_FORMATS,
    EXTENDED_MASTER_SECRET, MAX_FRAGMENT_LENGTH, PSK_KEY_EXCHANGE_MODES, RENEGOTIATION_INFO,
    SESSION_TICKET, SIGNATURE_ALGORITHMS, SUPPORTED_GROUPS,
};

verus! {

/// The low 16 bits of `n` in two bytes, the high byte first.
pub open spec fn short_bytes(n: nat) -> Seq<u8> {
    seq![((n / 256) % 256) as u8, (n % 256) as u8]
}

/// Only the low 16 bits of a number reach its two bytes, so a sum can be
/// taken on the low 16 bits of its first term.
pub proof fn lemma_short_bytes_of_sum(n: nat, k: nat)
    ensures
        short_bytes(n % 65536 + k) == short_bytes(n + k),
{
}

/// The random values of one packet. A field that the packet does not use may
/// hold anything.
pub struct Draws {
    /// The random block of the ClientHello.
    pub client_random: Seq<u8>,
    /// The session id.
    pub session_id: Seq<u8>,
    /// The GREASE value in front of the cipher suites.
    pub cipher_grease: Seq<u8>,
    /// The GREASE value that stands as an extension of its own.
    pub extension_grease: Seq<u8>,
    /// The GREASE value in front of the key share.
    pub key_share_grease: Seq<u8>,
    /// The key of the key share.
    pub key_exchange: Seq<u8>,
    /// The GREASE value in front of the supported versions.
    pub versions_grease: Seq<u8>,
}

/// `block` is a block of 32 bytes that `rng` can hand out.
pub open spec fn block_from<R: JarmRng + ?Sized>(rng: &R, block: Seq<u8>) -> bool {
    block.len() == 32 && rng.yields_bytes(block)
}

/// Where a GREASE value is wanted, `grease` is one of two bytes that `rng`
/// can hand out.
pub open spec fn grease_from<R: JarmRng + ?Sized>(
    rng: &R,
    wanted: bool,
    grease: Seq<u8>,
) -> bool {
    wanted ==> grease.len() == 2 && rng.yields_grease(grease)
}

/// Whether the packet carries the extension `supported_versions`: it does
/// for TLS 1.3, and where the probe declares support up to TLS 1.2.
pub open spec fn sends_versions(probe: ProbeModel) -> bool {
    probe.tls_version == TlsVersion::TLS1_3 || probe.tls_version_support
        == TlsVersionSupport::TLS1_2
}

/// The values in `draws` that the extensions of `probe` use come from `rng`.
pub open spec fn drawn_for_extensions<R: JarmRng + ?Sized>(
    rng: &R,
    probe: ProbeModel,
    draws: Draws,
) -> bool {
    &&& grease_from(rng, probe.use_grease, draws.extension_grease)
    &&& grease_from(rng, probe.use_grease, draws.key_share_grease)
    &&& block_from(rng, draws.key_exchange)
    &&& grease_from(rng, probe.use_grease && sends_versions(probe), draws.versions_grease)
}

/// The values in `draws` that the packet of `probe` uses come from `rng`.
pub open spec fn drawn_for_packet<R: JarmRng + ?Sized>(
    rng: &R,
    probe: ProbeModel,
    draws: Draws,
) -> bool {
    &&& block_from(rng, draws.client_random)
    &&& block_from(rng, draws.session_id)
    &&& grease_from(rng, probe.use_grease, draws.cipher_grease)
    &&& drawn_for_extensions(rng, probe, draws)
}

/// The version in the record header.
pub open spec fn record_version(version: TlsVersion) -> Seq<u8> {
    match version {
        TlsVersion::TLS1_1 => seq![0x03u8, 0x02u8],
        TlsVersion::TLS1_2 => seq![0x03u8, 0x03u8],
        TlsVersion::TLS1_3 => seq![0x03u8, 0x01u8],
    }
}

/// The version in the ClientHello. TLS 1.3 announces itself as TLS 1.2 here.
pub open spec fn hello_version(version: TlsVersion) -> Seq<u8> {
    match version {
        TlsVersion::TLS1_1 => seq![0x03u8, 0x02u8],
        TlsVersion::TLS1_2 => seq![0x03u8, 0x03u8],
        TlsVersion::TLS1_3 => seq![0x03u8, 0x03u8],
    }
}

/// The cipher suites of the packet: the GREASE value where the probe uses
/// one, then the offered suites in the order of the probe.
pub open spec fn cipher_suite_bytes(probe: ProbeModel, grease: Seq<u8>) -> Seq<u8> {
    (if probe.use_grease {
        grease
    } else {
        Seq::<u8>::empty()
    }) + permuted(offered_suites(probe.cipher_list), probe.cipher_order).flatten()
}

/// The extension `server_name` for a host name of the given bytes.
pub open spec fn server_name_extension(host: Seq<u8>) -> Seq<u8> {
    seq![0x00u8, 0x00u8] + short_bytes(host.len() + 5) + short_bytes(host.len() + 3) + seq![0x00u8]
        + short_bytes(host.len()) + host
}

/// The extension `application_layer_protocol_negotiation`: the offered
/// protocol names in the order of the probe.
pub open spec fn alpn_extension(probe: ProbeModel) -> Seq<u8> {
    let names = permuted(offered_protocols(probe.use_rare_apln), probe.extension_order).flatten();
    seq![0x00u8, 0x10u8] + short_bytes(names.len() + 2) + short_bytes(names.len()) + names
}

/// The extension `key_share`: one x25519 share with the given key, behind a
/// GREASE share of one zero byte where `grease` is set.
pub open spec fn key_share_extension(
    grease: bool,
    grease_value: Seq<u8>,
    key: Seq<u8>,
) -> Seq<u8> {
    let shares = (if grease {
        grease_value + seq![0x00u8, 0x01u8, 0x00u8]
    } else {
        Seq::<u8>::empty()
    }) + seq![0x00u8, 0x1du8] + seq![0x00u8, 0x20u8] + key;
    seq![0x00u8, 0x33u8] + short_bytes(shares.len() + 2) + short_bytes(shares.len())
        + shares
}

/// The versions that a probe lists: up to TLS 1.2 where it declares that,
/// up to TLS 1.3 otherwise.
pub open spec fn offered_versions(support: TlsVersionSupport) -> Seq<Seq<u8>> {
    if support == TlsVersionSupport::TLS1_2 {
        seq![seq![0x03u8, 0x01u8], seq![0x03u8, 0x02u8], seq![0x03u8, 0x03u8]]
    } else {
        seq![
            seq![0x03u8, 0x01u8],
            seq![0x03u8, 0x02u8],
            seq![0x03u8, 0x03u8],
            seq![0x03u8, 0x04u8],
        ]
    }
}

/// The extension `supported_versions`: the GREASE value where the probe uses
/// one, then the offered versions in the order of the probe.
pub open spec fn supported_versions_extension(probe: ProbeModel, grease: Seq<u8>) -> Seq<u8> {
    let versions = (if probe.use_grease {
        grease
    } else {
        Seq::<u8>::empty()
    }) + permuted(offered_versions(probe.tls_version_support), probe.extension_order).flatten();
    seq![0x00u8, 0x2bu8] + short_bytes(versions.len() + 1) + seq![versions.len() as u8] + versions
}

/// The extensions of the packet, one after the other.
pub open spec fn extension_list(probe: ProbeModel, draws: Draws) -> Seq<u8> {
    (if probe.use_grease {
        draws.extension_grease + seq![0x00u8, 0x00u8]
    } else {
        Seq::<u8>::empty()
    }) + server_name_extension(encode_utf8(probe.host)) + EXTENDED_MASTER_SECRET@
        + MAX_FRAGMENT_LENGTH@ + RENEGOTIATION_INFO@ + SUPPORTED_GROUPS@ + EC_POINT_FORMATS@
        + SESSION_TICKET@ + alpn_extension(probe) + SIGNATURE_ALGORITHMS@ + key_share_extension(
        probe.use_grease,
        draws.key_share_grease,
        draws.key_exchange,
    ) + PSK_KEY_EXCHANGE_MODES@ + (if sends_versions(probe) {
        supported_versions_extension(probe, draws.versions_grease)
    } else {
        Seq::<u8>::empty()
    })
}

/// The extensions of the packet behind their length.
pub open spec fn extension_block(probe: ProbeModel, draws: Draws) -> Seq<u8> {
    short_bytes(extension_list(probe, draws).len()) + extension_list(probe, draws)
}

/// The ClientHello without its header.
pub open spec fn client_hello(probe: ProbeModel, draws: Draws) -> Seq<u8> {
    let suites = cipher_suite_bytes(probe, draws.cipher_grease);
    hello_version(probe.tls_version) + draws.client_random + seq![draws.session_id.len() as u8]
        + draws.session_id + short_bytes(suites.len()) + suites + seq![0x01u8, 0x00u8]
        + extension_block(probe, draws)
}

/// The handshake message: type 1, a zero byte and the length in two bytes,
/// then the ClientHello.
pub open spec fn handshake_message(probe: ProbeModel, draws: Draws) -> Seq<u8> {
    seq![0x01u8, 0x00u8] + short_bytes(client_hello(probe, draws).len()) + client_hello(
        probe,
        draws,
    )
}

/// The whole packet: the record header, then the handshake message.
pub open spec fn client_hello_record(probe: ProbeModel, draws: Draws) -> Seq<u8> {
    seq![0x16u8] + record_version(probe.tls_version) + short_bytes(
        handshake_message(probe, draws).len(),
    ) + handshake_message(probe, draws)
}

/// Appends `more` to `bytes`.
fn append(bytes: &mut Vec<u8>, more: &[u8])
    ensures
        final(bytes)@ == old(bytes)@ + more@,
{
    let mut i: usize = 0;
    while i < more.len()
        invariant
            i <= more@.len(),
            bytes@ == old(bytes)@ + more@.take(i as int),
        decreases more@.len() - i,
    {
        bytes.push(more[i]);
        i = i + 1;
    }
}

/// The blocks one after the other.
fn flatten_blocks(blocks: &Vec<Vec<u8>>) -> (bytes: Vec<u8>)
    ensures
        bytes@ == blocks.deep_view().flatten(),
{
    let mut bytes: Vec<u8> = Vec::new();
    let mut i: usize = 0;
    while i < blocks.len()
        invariant
            i <= blocks@.len(),
            bytes@ == blocks.deep_view().take(i as int).flatten(),
        decreases blocks@.len() - i,
    {
        proof {
            let done = blocks.deep_view().take(i as int);
            assert(blocks.deep_view()[i as int] =~= blocks@[i as int]@);
            assert(blocks.deep_view().take(i + 1) =~= done.push(blocks@[i as int]@));
            done.lemma_flatten_push(blocks@[i as int]@);
        }
        append(&mut bytes, blocks[i].as_slice());
        i = i + 1;
    }
    assert(blocks.deep_view().take(blocks@.len() as int) =~= blocks.deep_view());
    bytes
}

/// Packs a number below 256 into one byte.
pub fn pack_as_unsigned_char(n: usize) -> (byte: u8)
    requires
        n < 256,
    ensures
        byte == n,
{
    n as u8
}

/// Packs the low 16 bits of a number into two bytes, the high byte first.
pub fn pack_as_unsigned_short(n: usize) -> (bytes: Vec<u8>)
    ensures
        bytes@ == short_bytes(n as nat),
{
    let high = ((n / 256) % 256) as u8;
    let low = (n % 256) as u8;
    let bytes = vec![high, low];
    bytes
}

/// The random values of one packet as they were drawn; [`Draws`] is their
/// mathematical content.
struct Drawn {
    client_random: Vec<u8>,
    session_id: Vec<u8>,
    cipher_grease: Vec<u8>,
    extension_grease: Vec<u8>,
    key_share_grease: Vec<u8>,
    key_exchange: Vec<u8>,
    versions_grease: Vec<u8>,
}

impl View for Drawn {
    type V = Draws;

    closed spec fn view(&self) -> Draws {
        Draws {
            client_random: self.client_random@,
            session_id: self.session_id@,
            cipher_grease: self.cipher_grease@,
            extension_grease: self.extension_grease@,
            key_share_grease: self.key_share_grease@,
            key_exchange: self.key_exchange@,
            versions_grease: self.versions_grease@,
        }
    }
}

/// Every value in `draws` has the length that a random source gives it, or
/// is empty.
spec fn of_drawn_lengths(draws: Draws) -> bool {
    &&& draws.client_random.len() <= 32
    &&& draws.session_id.len() <= 32
    &&& draws.cipher_grease.len() <= 2
    &&& draws.extension_grease.len() <= 2
    &&& draws.key_share_grease.len() <= 2
    &&& draws.key_exchange.len() <= 32
    &&& draws.versions_grease.len() <= 2
}

/// A GREASE value from `rng` where one is wanted, nothing otherwise.
fn draw_grease<R: JarmRng + ?Sized>(wanted: bool, rng: &R) -> (grease: Vec<u8>)
    ensures
        grease_from(rng, wanted, grease@),
        grease@.len() <= 2,
{
    if wanted {
        rng.random_grease()
    } else {
        Vec::new()
    }
}

/// Whether the packet carries the extension `supported_versions`.
fn with_versions(jarm_details: &PacketSpecification) -> (sends: bool)
    ensures
        sends == sends_versions(jarm_details@),
{
    match jarm_details.tls_version {
        TlsVersion::TLS1_3 => true,
        _ => match jarm_details.tls_version_support {
            TlsVersionSupport::TLS1_2 => true,
            _ => false,
        },
    }
}

/// What the extensions of a probe need from `rng`, in the order in which
/// they stand in the packet.
fn draw_for_extensions<R: JarmRng + ?Sized>(
    jarm_details: &PacketSpecification,
    rng: &R,
) -> (drawn: Drawn)
    ensures
        drawn_for_extensions(rng, jarm_details@, drawn@),
        of_drawn_lengths(drawn@),
{
    let extension_grease = draw_grease(jarm_details.use_grease, rng);
    let key_share_grease = draw_grease(jarm_details.use_grease, rng);
    let key_exchange = rng.random_bytes();
    let versions_grease = draw_grease(
        jarm_details.use_grease && with_versions(jarm_details),
        rng,
    );
    Drawn {
        client_random: Vec::new(),
        session_id: Vec::new(),
        cipher_grease: Vec::new(),
        extension_grease,
        key_share_grease,
        key_exchange,
        versions_grease,
    }
}

/// The cipher suites of the packet with the given GREASE value.
fn cipher_suites_with(
    jarm_details: &PacketSpecification,
    grease: &Vec<u8>,
) -> (bytes: Vec<u8>)
    ensures
        bytes@ == cipher_suite_bytes(jarm_details@, grease@),
{
    let mut list = cipher_table(&jarm_details.cipher_list);
    cipher_mung(&mut list, &jarm_details.cipher_order);
    let mut selected: Vec<u8> = Vec::new();
    if jarm_details.use_grease {
        append(&mut selected, grease.as_slice());
    }
    let suites = flatten_blocks(&list);
    append(&mut selected, suites.as_slice());
    selected
}

/// The cipher suites of the packet, see [`cipher_suite_bytes`]. The GREASE
/// value is drawn from `rng` where the probe uses one.
pub fn get_ciphers<R: JarmRng + ?Sized>(
    jarm_details: &PacketSpecification,
    rng: &R,
) -> (bytes: Vec<u8>)
    ensures
        exists|grease: Seq<u8>|
            grease_from(rng, jarm_details.use_grease, grease) && bytes@
                == #[trigger] cipher_suite_bytes(jarm_details@, grease),
{
    let grease = draw_grease(jarm_details.use_grease, rng);
    cipher_suites_with(jarm_details, &grease)
}

/// The extension `server_name` with the host of the probe, see
/// [`server_name_extension`].
pub fn extension_server_name(jarm_details: &PacketSpecification) -> (bytes: Vec<u8>)
    ensures
        bytes@ == server_name_extension(encode_utf8(jarm_details@.host)),
{
    let host = jarm_details.host.as_str().as_bytes();
    let host_length = host.len();
    // The lengths keep 16 bits only, so the sums are taken on the low 16 bits.
    let low = host_length % 65536;
    let mut ext_sni: Vec<u8> = vec![0x00u8, 0x00u8];
    let outer = pack_as_unsigned_short(low + 5);
    let list = pack_as_unsigned_short(low + 3);
    let name = pack_as_unsigned_short(host_length);
    proof {
        lemma_short_bytes_of_sum(host_length as nat, 5);
        lemma_short_bytes_of_sum(host_length as nat, 3);
    }
    append(&mut ext_sni, outer.as_slice());
    append(&mut ext_sni, list.as_slice());
    ext_sni.push(0x00u8);
    append(&mut ext_sni, name.as_slice());
    append(&mut ext_sni, host);
    ext_sni
}

/// The extension with the protocol names, see [`alpn_extension`].
pub fn aplns(jarm_details: &PacketSpecification) -> (bytes: Vec<u8>)
    ensures
        bytes@ == alpn_extension(jarm_details@),
{
    let mut ext: Vec<u8> = vec![0x00u8, 0x10u8];
    let mut alpns = protocol_table(jarm_details.use_rare_apln);
    cipher_mung(&mut alpns, &jarm_details.extension_order);
    let all_alpns = flatten_blocks(&alpns);
    let second_length = all_alpns.len();
    let low = second_length % 65536;
    let first = pack_as_unsigned_short(low + 2);
    let second = pack_as_unsigned_short(second_length);
    proof {
        lemma_short_bytes_of_sum(second_length as nat, 2);
    }
    append(&mut ext, first.as_slice());
    append(&mut ext, second.as_slice());
    append(&mut ext, all_alpns.as_slice());
    ext
}

/// The extension `key_share` with the given GREASE value and key.
fn key_share_with(grease: bool, grease_value: &Vec<u8>, key: &Vec<u8>) -> (bytes: Vec<u8>)
    requires
        grease_value@.len() <= 2,
        key@.len() <= 32,
    ensures
        bytes@ == key_share_extension(grease, grease_value@, key@),
{
    let mut ext: Vec<u8> = vec![0x00u8, 0x33u8];
    let mut share_ext: Vec<u8> = Vec::new();
    if grease {
        append(&mut share_ext, grease_value.as_slice());
        share_ext.push(0x00u8);
        share_ext.push(0x01u8);
        share_ext.push(0x00u8);
    }
    share_ext.push(0x00u8);
    share_ext.push(0x1du8);
    share_ext.push(0x00u8);
    share_ext.push(0x20u8);
    append(&mut share_ext, key.as_slice());
    let second_length = share_ext.len();
    let first = pack_as_unsigned_short(second_length + 2);
    let second = pack_as_unsigned_short(second_length);
    append(&mut ext, first.as_slice());
    append(&mut ext, second.as_slice());
    append(&mut ext, share_ext.as_slice());
    ext
}

/// The extension `key_share`, see [`key_share_extension`]. The GREASE value
/// where `grease` is set, then the key, are drawn from `rng`.
pub fn key_share<R: JarmRng + ?Sized>(grease: bool, rng: &R) -> (bytes: Vec<u8>)
    ensures
        exists|grease_value: Seq<u8>, key: Seq<u8>|
            grease_from(rng, grease, grease_value) && block_from(rng, key) && bytes@
                == #[trigger] key_share_extension(grease, grease_value, key),
{
    let grease_value = draw_grease(grease, rng);
    let key = rng.random_bytes();
    key_share_with(grease, &grease_value, &key)
}

/// The blocks of the versions that a probe lists, see [`offered_versions`].
fn version_table(support: &TlsVersionSupport) -> (table: Vec<Vec<u8>>)
    ensures
        table.deep_view() == offered_versions(*support),
{
    let mut table = vec![vec![0x03u8, 0x01u8], vec![0x03u8, 0x02u8], vec![0x03u8, 0x03u8]];
    match support {
        TlsVersionSupport::TLS1_2 => {},
        _ => {
            table.push(vec![0x03u8, 0x04u8]);
        },
    }
    assert(table.deep_view() =~~= offered_versions(*support));
    table
}

/// The listed versions take at most eight bytes, in every order.
proof fn lemma_versions_are_short(probe: ProbeModel)
    ensures
        permuted(offered_versions(probe.tls_version_support), probe.extension_order).flatten().len()
            <= 8,
{
    let listed = permuted(offered_versions(probe.tls_version_support), probe.extension_order);
    assert forall|i: int| 0 <= i < listed.len() implies (#[trigger] listed[i]).len() <= 2 by {}
    listed.lemma_flatten_length_le_mul(2);
    listed.lemma_flatten_and_flatten_alt_are_equivalent();
}

/// The extension `supported_versions` with the given GREASE value.
fn supported_versions_with(
    jarm_details: &PacketSpecification,
    grease: &Vec<u8>,
) -> (bytes: Vec<u8>)
    requires
        grease@.len() <= 2,
    ensures
        bytes@ == supported_versions_extension(jarm_details@, grease@),
{
    let mut tls = version_table(&jarm_details.tls_version_support);
    cipher_mung(&mut tls, &jarm_details.extension_order);
    let mut ext: Vec<u8> = vec![0x00u8, 0x2bu8];
    let mut versions: Vec<u8> = Vec::new();
    if jarm_details.use_grease {
        append(&mut versions, grease.as_slice());
    }
    let listed = flatten_blocks(&tls);
    proof {
        lemma_versions_are_short(jarm_details@);
    }
    append(&mut versions, listed.as_slice());
    let second_length = versions.len();
    let first = pack_as_unsigned_short(second_length + 1);
    append(&mut ext, first.as_slice());
    ext.push(pack_as_unsigned_char(second_length));
    append(&mut ext, versions.as_slice());
    ext
}

/// The extension `supported_versions`, see
/// [`supported_versions_extension`]. The GREASE value is drawn from `rng`
/// where the probe uses one.
pub fn supported_versions<R: JarmRng + ?Sized>(
    jarm_details: &PacketSpecification,
    rng: &R,
) -> (bytes: Vec<u8>)
    ensures
        exists|grease: Seq<u8>|
            grease_from(rng, jarm_details.use_grease, grease) && bytes@
                == #[trigger] supported_versions_extension(jarm_details@, grease),
{
    let grease = draw_grease(jarm_details.use_grease, rng);
    supported_versions_with(jarm_details, &grease)
}

/// The extensions of the packet behind their length, with the given random
/// values.
fn extensions_with(jarm_details: &PacketSpecification, drawn: &Drawn) -> (bytes: Vec<u8>)
    requires
        of_drawn_lengths(drawn@),
    ensures
        bytes@ == extension_block(jarm_details@, drawn@),
{
    let mut all_extensions: Vec<u8> = Vec::new();
    if jarm_details.use_grease {
        append(&mut all_extensions, drawn.extension_grease.as_slice());
        all_extensions.push(0x00u8);
        all_extensions.push(0x00u8);
    }
    let server_name = extension_server_name(jarm_details);
    append(&mut all_extensions, server_name.as_slice());

    append(&mut all_extensions, EXTENDED_MASTER_SECRET.as_slice());
    append(&mut all_extensions, MAX_FRAGMENT_LENGTH.as_slice());
    append(&mut all_extensions, RENEGOTIATION_INFO.as_slice());
    append(&mut all_extensions, SUPPORTED_GROUPS.as_slice());
    append(&mut all_extensions, EC_POINT_FORMATS.as_slice());
    append(&mut all_extensions, SESSION_TICKET.as_slice());

    let protocols = aplns(jarm_details);
    append(&mut all_extensions, protocols.as_slice());
    append(&mut all_extensions, SIGNATURE_ALGORITHMS.as_slice());

    let share = key_share_with(
        jarm_details.use_grease,
        &drawn.key_share_grease,
        &drawn.key_exchange,
    );
    append(&mut all_extensions, share.as_slice());
    append(&mut all_extensions, PSK_KEY_EXCHANGE_MODES.as_slice());

    if with_versions(jarm_details) {
        let versions = supported_versions_with(jarm_details, &drawn.versions_grease);
        append(&mut all_extensions, versions.as_slice());
    }

    let mut extension_bytes = pack_as_unsigned_short(all_extensions.len());
    append(&mut extension_bytes, all_extensions.as_slice());
    extension_bytes
}

/// The extensions of the packet behind their length, see
/// [`extension_block`]. What is random in them is drawn from `rng`.
pub fn get_extensions<R: JarmRng + ?Sized>(
    jarm_details: &PacketSpecification,
    rng: &R,
) -> (bytes: Vec<u8>)
    ensures
        exists|draws: Draws|
            drawn_for_extensions(rng, jarm_details@, draws) && bytes@ == #[trigger] extension_block(
                jarm_details@,
                draws,
            ),
{
    let drawn = draw_for_extensions(jarm_details, rng);
    extensions_with(jarm_details, &drawn)
}

/// The packet of a probe with the given random values.
fn packet_with(jarm_details: &PacketSpecification, drawn: &Drawn) -> (payload: Vec<u8>)
    requires
        of_drawn_lengths(drawn@),
    ensures
        payload@ == client_hello_record(jarm_details@, drawn@),
{
    let mut client_hello_bytes: Vec<u8> = Vec::new();
    let mut payload: Vec<u8> = vec![0x16u8];

    match jarm_details.tls_version {
        TlsVersion::TLS1_1 => {
            payload.push(0x03u8);
            payload.push(0x02u8);
            client_hello_bytes.push(0x03u8);
            client_hello_bytes.push(0x02u8);
        },
        TlsVersion::TLS1_2 => {
            payload.push(0x03u8);
            payload.push(0x03u8);
            client_hello_bytes.push(0x03u8);
            client_hello_bytes.push(0x03u8);
        },
        TlsVersion::TLS1_3 => {
            payload.push(0x03u8);
            payload.push(0x01u8);
            client_hello_bytes.push(0x03u8);
            client_hello_bytes.push(0x03u8);
        },
    }

    append(&mut client_hello_bytes, drawn.client_random.as_slice());
    let session_id_length = pack_as_unsigned_char(drawn.session_id.len());
    client_hello_bytes.push(session_id_length);
    append(&mut client_hello_bytes, drawn.session_id.as_slice());

    let cipher_choice = cipher_suites_with(jarm_details, &drawn.cipher_grease);
    let client_suites_length = pack_as_unsigned_short(cipher_choice.len());
    append(&mut client_hello_bytes, client_suites_length.as_slice());
    append(&mut client_hello_bytes, cipher_choice.as_slice());
    client_hello_bytes.push(0x01u8);
    client_hello_bytes.push(0x00u8);
    let extensions = extensions_with(jarm_details, drawn);
    append(&mut client_hello_bytes, extensions.as_slice());

    let mut handshake_protocol: Vec<u8> = vec![0x01u8, 0x00u8];
    let inner_length = pack_as_unsigned_short(client_hello_bytes.len());
    append(&mut handshake_protocol, inner_length.as_slice());
    append(&mut handshake_protocol, client_hello_bytes.as_slice());
    let outer_length = pack_as_unsigned_short(handshake_protocol.len());
    append(&mut payload, outer_length.as_slice());
    append(&mut payload, handshake_protocol.as_slice());
    payload
}

/// The packet of a probe, see [`client_hello_record`]. What is random in it
/// is drawn from `rng`: the random block first, then the session id, the
/// GREASE value of the cipher suites, and what the extensions need.
pub fn build_packet<R: JarmRng + ?Sized>(
    jarm_details: &PacketSpecification,
    rng: &R,
) -> (payload: Vec<u8>)
    ensures
        exists|draws: Draws|
            drawn_for_packet(rng, jarm_details@, draws) && payload@
                == #[trigger] client_hello_record(jarm_details@, draws),
{
    let client_random = rng.random_bytes();
    let session_id = rng.random_bytes();
    let cipher_grease = draw_grease(jarm_details.use_grease, rng);
    let rest = draw_for_extensions(jarm_details, rng);
    let drawn = Drawn {
        client_random,
        session_id,
        cipher_grease,
        extension_grease: rest.extension_grease,
        key_share_grease: rest.key_share_grease,
        key_exchange: rest.key_exchange,
        versions_grease: rest.versions_grease,
    };
    packet_with(jarm_details, &drawn)
}

/// `rng` has one block and one GREASE value to hand out and no other.
pub open spec fn hands_out_only<R: JarmRng + ?Sized>(
    rng: &R,
    block: Seq<u8>,
    grease: Seq<u8>,
) -> bool {
    &&& forall|bytes: Seq<u8>| #[trigger] rng.yields_bytes(bytes) ==> bytes == block
    &&& forall|value: Seq<u8>| #[trigger] rng.yields_grease(value) ==> value == grease
}

/// A source without randomness gives every probe one packet: whatever is
/// drawn from it for a probe, the packet is the same.
pub proof fn lemma_fixed_source_fixes_the_packet<R: JarmRng + ?Sized>(
    rng: &R,
    block: Seq<u8>,
    grease: Seq<u8>,
    probe: ProbeModel,
    first: Draws,
    second: Draws,
)
    requires
        hands_out_only(rng, block, grease),
        drawn_for_packet(rng, probe, first),
        drawn_for_packet(rng, probe, second),
    ensures
        client_hello_record(probe, first) == client_hello_record(probe, second),
{
}

/// [`TestRng`] is a source without randomness.
pub proof fn lemma_test_source_is_fixed()
    ensures
        hands_out_only(&TestRng {}, test_block(), test_grease()),
{
}

} // verus!
