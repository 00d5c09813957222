//! Active TLS fingerprinting: ten crafted ClientHello messages, the summary of
//! what a server answers to each, and the fingerprint that the ten summaries
//! fold into.
//!
//! The library builds the packets and reads the answers; sending a packet and
//! receiving the answer is left to the caller.

pub mod encoding;
pub mod fingerprint;
pub mod packet;
pub mod permute;
pub mod probe;
pub mod rng;
pub mod scan;
pub mod server_hello;
pub mod sha;
pub mod tables;

pub use fingerprint::{
    alpns_and_extensions, cipher_bytes, fingerprint_with_digest, version_byte,
};
pub use packet::{
    aplns, build_packet, extension_server_name, get_ciphers, get_extensions, key_share,
    pack_as_unsigned_char, pack_as_unsigned_short, supported_versions,
};
pub use permute::cipher_mung;
pub use probe::{
    CipherList, CipherOrder, PacketSpecification, ProbeModel, TlsVersion, TlsVersionSupport,
};
pub use rng::{JarmRng, PseudoRng, TestRng};
pub use scan::Jarm;
pub use server_hello::{
    add_formatting_hyphen, as_u32_be, extract_extension_info, find_extension, read_packet, JarmPart,
};
