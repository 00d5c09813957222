//! Description of one probe: the parameters of a single ClientHello.

use vstd::prelude::*;

verus! {

/// Protocol version that a probe announces.
#[derive(Clone, Copy, Debug, PartialEq, Eq, Structural)]
pub enum TlsVersion {
    TLS1_1,
    TLS1_2,
    TLS1_3,
}

/// Which table of cipher suites a probe offers.
#[derive(Clone, Copy, Debug, PartialEq, Eq, Structural)]
pub enum CipherList {
    /// Every suite of the table.
    ALL,
    /// The table without the suites that exist in TLS 1.3 only.
    NO1_3,
}

/// How a list of blocks is rearranged before it is written to the wire.
#[allow(non_camel_case_types)]
#[derive(Clone, Copy, Debug, PartialEq, Eq, Structural)]
pub enum CipherOrder {
    FORWARD,
    REVERSE,
    TOP_HALF,
    BOTTOM_HALF,
    MIDDLE_OUT,
}

/// What a probe says in its list of supported versions.
#[allow(non_camel_case_types)]
#[derive(Clone, Copy, Debug, PartialEq, Eq, Structural)]
pub enum TlsVersionSupport {
    /// Versions up to TLS 1.2.
    TLS1_2,
    /// Versions up to TLS 1.3.
    TLS1_3,
    NO_SUPPORT,
}

/// The parameters of one probe.
pub struct PacketSpecification {
    pub host: String,
    pub port: String,
    pub tls_version: TlsVersion,
    pub cipher_list: CipherList,
    pub cipher_order: CipherOrder,
    pub use_grease: bool,
    pub use_rare_apln: bool,
    pub tls_version_support: TlsVersionSupport,
    pub extension_order: CipherOrder,
}

/// A probe description as a mathematical value: the strings are sequences of
/// characters, the rest is as in [`PacketSpecification`].
pub struct ProbeModel {
    pub host: Seq<char>,
    pub port: Seq<char>,
    pub tls_version: TlsVersion,
    pub cipher_list: CipherList,
    pub cipher_order: CipherOrder,
    pub use_grease: bool,
    pub use_rare_apln: bool,
    pub tls_version_support: TlsVersionSupport,
    pub extension_order: CipherOrder,
}

impl View for PacketSpecification {
    type V = ProbeModel;

    open spec fn view(&self) -> ProbeModel {
        ProbeModel {
            host: self.host@,
            port: self.port@,
            tls_version: self.tls_version,
            cipher_list: self.cipher_list,
            cipher_order: self.cipher_order,
            use_grease: self.use_grease,
            use_rare_apln: self.use_rare_apln,
            tls_version_support: self.tls_version_support,
            extension_order: self.extension_order,
        }
    }
}

} // verus!
