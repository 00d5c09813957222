//! A scan: the ten probes of the fingerprint and the answers to them.

use std::time::Duration;
use vstd::prelude::*;
use vstd::string::StringExecFns;
use vstd::utf8::encode_utf8;
use crate::fingerprint::{
    all_sentinel, alpns_and_extensions, empty_fingerprint, fingerprint, fingerprint_with_digest,
    hashed_text, is_unanswered, lemma_fingerprint_shape, part_texts, zeros,
};
use crate::probe::{
    CipherList, CipherOrder, PacketSpecification, ProbeModel, TlsVersion, TlsVersionSupport,
};
use crate::rng::{is_grease, JarmRng, PseudoRng};
use crate::server_hello::JarmPart;
use crate::sha::{sha256, sha256_digest};

verus! {

/// Seconds that a scan waits for a server unless told otherwise.
pub const DEFAULT_TIMEOUT_SECONDS: u64 = 30;

/// The duration of `secs` whole seconds, as `std::time::Duration::from_secs`
/// makes it.
pub uninterp spec fn whole_seconds(secs: u64) -> Duration;

/// `std::time::Duration::from_secs` makes a duration of whole seconds. A
/// duration is opaque here and only carried to whoever talks to the
/// network, so the contract does no more than give the result its name.
pub assume_specification[ Duration::from_secs ](secs: u64) -> (duration: Duration)
    ensures
        duration == whole_seconds(secs),
;

/// A scan of one server.
pub struct Jarm {
    /// The answers that were read so far, one for each probe of `queue`.
    pub parts: Vec<JarmPart>,
    /// The probes to send, in this order.
    pub queue: Vec<PacketSpecification>,
    /// The source of the random parts of the packets.
    pub rng: Box<dyn JarmRng + 'static>,
    /// How long to wait for the server, for connecting and for reading.
    pub timeout: Duration,
}

/// One row of the table of probes, for the given server.
pub open spec fn probe_row(
    host: Seq<char>,
    port: Seq<char>,
    tls_version: TlsVersion,
    cipher_list: CipherList,
    cipher_order: CipherOrder,
    use_grease: bool,
    use_rare_apln: bool,
    tls_version_support: TlsVersionSupport,
    extension_order: CipherOrder,
) -> ProbeModel {
    ProbeModel {
        host,
        port,
        tls_version,
        cipher_list,
        cipher_order,
        use_grease,
        use_rare_apln,
        tls_version_support,
        extension_order,
    }
}

/// The ten probes that make a fingerprint, for the given server. The table
/// is the definition of the fingerprint: two scans compare only if both sent
/// these ten probes in this order.
pub open spec fn probe_catalog(host: Seq<char>, port: Seq<char>) -> Seq<ProbeModel> {
    seq![
        probe_row(
            host,
            port,
            TlsVersion::TLS1_2,
            CipherList::ALL,
            CipherOrder::FORWARD,
            false,
            false,
            TlsVersionSupport::TLS1_2,
            CipherOrder::REVERSE,
        ),
        probe_row(
            host,
            port,
            TlsVersion::TLS1_2,
            CipherList::ALL,
            CipherOrder::REVERSE,
            false,
            false,
            TlsVersionSupport::TLS1_2,
            CipherOrder::FORWARD,
        ),
        probe_row(
            host,
            port,
            TlsVersion::TLS1_2,
            CipherList::ALL,
            CipherOrder::TOP_HALF,
            false,
            false,
            TlsVersionSupport::NO_SUPPORT,
            CipherOrder::FORWARD,
        ),
        probe_row(
            host,
            port,
            TlsVersion::TLS1_2,
            CipherList::ALL,
            CipherOrder::BOTTOM_HALF,
            false,
            true,
            TlsVersionSupport::NO_SUPPORT,
            CipherOrder::FORWARD,
        ),
        probe_row(
            host,
            port,
            TlsVersion::TLS1_2,
            CipherList::ALL,
            CipherOrder::MIDDLE_OUT,
            true,
            true,
            TlsVersionSupport::NO_SUPPORT,
            CipherOrder::REVERSE,
        ),
        probe_row(
            host,
            port,
            TlsVersion::TLS1_1,
            CipherList::ALL,
            CipherOrder::FORWARD,
            false,
            false,
            TlsVersionSupport::NO_SUPPORT,
            CipherOrder::FORWARD,
        ),
        probe_row(
            host,
            port,
            TlsVersion::TLS1_3,
            CipherList::ALL,
            CipherOrder::FORWARD,
            false,
            false,
            TlsVersionSupport::TLS1_3,
            CipherOrder::REVERSE,
        ),
        probe_row(
            host,
            port,
            TlsVersion::TLS1_3,
            CipherList::ALL,
            CipherOrder::REVERSE,
            false,
            false,
            TlsVersionSupport::TLS1_3,
            CipherOrder::FORWARD,
        ),
        probe_row(
            host,
            port,
            TlsVersion::TLS1_3,
            CipherList::NO1_3,
            CipherOrder::FORWARD,
            false,
            false,
            TlsVersionSupport::TLS1_3,
            CipherOrder::FORWARD,
        ),
        probe_row(
            host,
            port,
            TlsVersion::TLS1_3,
            CipherList::ALL,
            CipherOrder::MIDDLE_OUT,
            true,
            false,
            TlsVersionSupport::TLS1_3,
            CipherOrder::REVERSE,
        ),
    ]
}

impl Jarm {
    /// A scan of `host` at `port` that has sent nothing yet: the ten probes
    /// of [`probe_catalog`] are queued, the random parts come from
    /// [`PseudoRng`], and the timeout is that of
    /// [`DEFAULT_TIMEOUT_SECONDS`].
    pub fn new(host: String, port: String) -> (jarm: Jarm)
        ensures
            jarm.parts@.len() == 0,
            jarm.queue@.len() == 10,
            forall|i: int|
                0 <= i < 10 ==> (#[trigger] jarm.queue@[i])@ == probe_catalog(host@, port@)[i],
            forall|bytes: Seq<u8>| #[trigger] jarm.rng.yields_bytes(bytes) <==> bytes.len() == 32,
            forall|grease: Seq<u8>| #[trigger]
                jarm.rng.yields_grease(grease) <==> is_grease(grease),
            jarm.timeout == whole_seconds(DEFAULT_TIMEOUT_SECONDS),
    {
        let queue = vec![
            PacketSpecification {
                host: host.clone(),
                port: port.clone(),
                tls_version: TlsVersion::TLS1_2,
                cipher_list: CipherList::ALL,
                cipher_order: CipherOrder::FORWARD,
                use_grease: false,
                use_rare_apln: false,
                tls_version_support: TlsVersionSupport::TLS1_2,
                extension_order: CipherOrder::REVERSE,
            },
            PacketSpecification {
                host: host.clone(),
                port: port.clone(),
                tls_version: TlsVersion::TLS1_2,
                cipher_list: CipherList::ALL,
                cipher_order: CipherOrder::REVERSE,
                use_grease: false,
                use_rare_apln: false,
                tls_version_support: TlsVersionSupport::TLS1_2,
                extension_order: CipherOrder::FORWARD,
            },
            PacketSpecification {
                host: host.clone(),
                port: port.clone(),
                tls_version: TlsVersion::TLS1_2,
                cipher_list: CipherList::ALL,
                cipher_order: CipherOrder::TOP_HALF,
                use_grease: false,
                use_rare_apln: false,
                tls_version_support: TlsVersionSupport::NO_SUPPORT,
                extension_order: CipherOrder::FORWARD,
            },
            PacketSpecification {
                host: host.clone(),
                port: port.clone(),
                tls_version: TlsVersion::TLS1_2,
                cipher_list: CipherList::ALL,
                cipher_order: CipherOrder::BOTTOM_HALF,
                use_grease: false,
                use_rare_apln: true,
                tls_version_support: TlsVersionSupport::NO_SUPPORT,
                extension_order: CipherOrder::FORWARD,
            },
            PacketSpecification {
                host: host.clone(),
                port: port.clone(),
                tls_version: TlsVersion::TLS1_2,
                cipher_list: CipherList::ALL,
                cipher_order: CipherOrder::MIDDLE_OUT,
                use_grease: true,
                use_rare_apln: true,
                tls_version_support: TlsVersionSupport::NO_SUPPORT,
                extension_order: CipherOrder::REVERSE,
            },
            PacketSpecification {
                host: host.clone(),
                port: port.clone(),
                tls_version: TlsVersion::TLS1_1,
                cipher_list: CipherList::ALL,
                cipher_order: CipherOrder::FORWARD,
                use_grease: false,
                use_rare_apln: false,
                tls_version_support: TlsVersionSupport::NO_SUPPORT,
                extension_order: CipherOrder::FORWARD,
            },
            PacketSpecification {
                host: host.clone(),
                port: port.clone(),
                tls_version: TlsVersion::TLS1_3,
                cipher_list: CipherList::ALL,
                cipher_order: CipherOrder::FORWARD,
                use_grease: false,
                use_rare_apln: false,
                tls_version_support: TlsVersionSupport::TLS1_3,
                extension_order: CipherOrder::REVERSE,
            },
            PacketSpecification {
                host: host.clone(),
                port: port.clone(),
                tls_version: TlsVersion::TLS1_3,
                cipher_list: CipherList::ALL,
                cipher_order: CipherOrder::REVERSE,
                use_grease: false,
                use_rare_apln: false,
                tls_version_support: TlsVersionSupport::TLS1_3,
                extension_order: CipherOrder::FORWARD,
            },
            PacketSpecification {
                host: host.clone(),
                port: port.clone(),
                tls_version: TlsVersion::TLS1_3,
                cipher_list: CipherList::NO1_3,
                cipher_order: CipherOrder::FORWARD,
                use_grease: false,
                use_rare_apln: false,
                tls_version_support: TlsVersionSupport::TLS1_3,
                extension_order: CipherOrder::FORWARD,
            },
            PacketSpecification {
                host,
                port,
                tls_version: TlsVersion::TLS1_3,
                cipher_list: CipherList::ALL,
                cipher_order: CipherOrder::MIDDLE_OUT,
                use_grease: true,
                use_rare_apln: false,
                tls_version_support: TlsVersionSupport::TLS1_3,
                extension_order: CipherOrder::REVERSE,
            },
        ];
        Jarm {
            parts: Vec::new(),
            queue,
            rng: Box::new(PseudoRng {}),
            timeout: Duration::from_secs(DEFAULT_TIMEOUT_SECONDS),
        }
    }

    /// The fingerprint of the answers in `parts`, see [`fingerprint`]: 62
    /// zeros where no answer is a ServerHello, otherwise three characters
    /// for each answer and 32 hexadecimal digits of the SHA-256 digest of
    /// the protocol names and extension types. The answers are those that
    /// the caller has put into `parts`; nothing is sent or received here.
    pub fn hash(&self) -> (text: String)
        ensures
            text@ == fingerprint(
                part_texts(self.parts@),
                sha256(encode_utf8(hashed_text(part_texts(self.parts@)))),
            ),
            all_sentinel(part_texts(self.parts@)) ==> text@ == empty_fingerprint(),
            self.parts@.len() == 10 ==> text@.len() == 62,
    {
        if is_unanswered(&self.parts) {
            return zeros();
        }
        let hashed = alpns_and_extensions(&self.parts);
        let digest = sha256_digest(hashed.as_str().as_bytes());
        proof {
            lemma_fingerprint_shape(part_texts(self.parts@), digest@);
        }
        fingerprint_with_digest(&self.parts, digest.as_slice())
    }
}

impl Default for Jarm {
    /// A scan of `localhost` at port 80.
    fn default() -> (jarm: Jarm)
        ensures
            jarm.parts@.len() == 0,
            jarm.queue@.len() == 10,
            forall|i: int|
                0 <= i < 10 ==> (#[trigger] jarm.queue@[i])@ == probe_catalog(
                    "localhost"@,
                    "80"@,
                )[i],
            forall|bytes: Seq<u8>| #[trigger] jarm.rng.yields_bytes(bytes) <==> bytes.len() == 32,
            forall|grease: Seq<u8>| #[trigger]
                jarm.rng.yields_grease(grease) <==> is_grease(grease),
            jarm.timeout == whole_seconds(DEFAULT_TIMEOUT_SECONDS),
    {
        Jarm::new(String::from_str("localhost"), String::from_str("80"))
    }
}

} // verus!
