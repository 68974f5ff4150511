//! The TLS handler: owns the certificate authority material and mints
//! per-host leaf certificates, cached so that every later request for the
//! same host reuses the same TLS server configuration.
//!
//! Certificate contents are decided here as plain data (a `CertProfile`);
//! the crypto library only turns a profile into a signed certificate.

use vstd::prelude::*;
use vstd::string::StringExecFns;

verus! {

#[verifier::external_type_specification]
#[verifier::external_body]
pub struct ExCertificate(rcgen::Certificate);

#[verifier::external_type_specification]
#[verifier::external_body]
pub struct ExKeyPair(rcgen::KeyPair);

#[verifier::external_type_specification]
#[verifier::external_body]
pub struct ExTlsAcceptor(tokio_rustls::TlsAcceptor);

#[verifier::external_type_specification]
#[verifier::external_body]
pub struct ExCertificateParams(rcgen::CertificateParams);

/// Errors of the TLS handler.
#[derive(Debug)]
pub enum TlsError {
    /// The peer refused the synthesized certificate (the CA is not in its
    /// trust store).
    TlsRejected,
    /// The crypto library failed to build or sign a certificate.
    CertGenError,
}

/// A calendar date, as certificate validity bounds are written.
pub struct DateYmd {
    pub year: i32,
    pub month: u8,
    pub day: u8,
}

/// Everything this library decides about a certificate: subject common
/// name, the sole DNS subject alternative name if any, validity bounds and
/// whether the certificate is a CA.
pub struct CertProfile {
    pub common_name: String,
    pub san_dns: Option<String>,
    pub not_before: DateYmd,
    pub not_after: DateYmd,
    pub is_ca: bool,
}

/// The profile of the installation's certificate authority: CN
/// `yatangaki_ca`, no SAN, valid 2023-01-01 to 4096-01-01, a CA.
pub open spec fn is_ca_profile(p: CertProfile) -> bool {
    &&& p.common_name@ == "yatangaki_ca"@
    &&& p.san_dns is None
    &&& p.not_before.year == 2023 && p.not_before.month == 1 && p.not_before.day == 1
    &&& p.not_after.year == 4096 && p.not_after.month == 1 && p.not_after.day == 1
    &&& p.is_ca
}

/// The profile of a leaf certificate for one host: CN and sole DNS SAN both
/// exactly the host, valid 2023-01-01 to 2048-01-01, not a CA.
pub open spec fn is_leaf_profile_for(p: CertProfile, host: Seq<char>) -> bool {
    &&& p.common_name@ == host
    &&& (p.san_dns matches Some(s) && s@ == host)
    &&& p.not_before.year == 2023 && p.not_before.month == 1 && p.not_before.day == 1
    &&& p.not_after.year == 2048 && p.not_after.month == 1 && p.not_after.day == 1
    &&& !p.is_ca
}

impl CertProfile {
    /// The CA profile.
    pub fn ca() -> (p: CertProfile)
        ensures
            is_ca_profile(p),
    {
        CertProfile {
            common_name: String::from_str("yatangaki_ca"),
            san_dns: None,
            not_before: DateYmd { year: 2023, month: 1, day: 1 },
            not_after: DateYmd { year: 4096, month: 1, day: 1 },
            is_ca: true,
        }
    }

    /// The leaf profile for one host.
    pub fn leaf_for(host: &str) -> (p: CertProfile)
        ensures
            is_leaf_profile_for(p, host@),
    {
        CertProfile {
            common_name: String::from_str(host),
            san_dns: Some(String::from_str(host)),
            not_before: DateYmd { year: 2023, month: 1, day: 1 },
            not_after: DateYmd { year: 2048, month: 1, day: 1 },
            is_ca: false,
        }
    }
}

/// Relies on `rcgen::KeyPair::generate`: a fresh random keypair; nothing can
/// be promised of it.
#[verifier::external_body]
fn generate_keypair() -> (r: Result<rcgen::KeyPair, TlsError>) {
    rcgen::KeyPair::generate().map_err(|_| TlsError::CertGenError)
}

/// Relies on `rcgen::CertificateParams` and `rcgen::date_time_ymd`:
/// certificate params carrying exactly the profile's validity bounds and CA
/// flag. `date_time_ymd` panics on a date that is not a valid calendar
/// date, so the profile is restricted to the two shapes this library
/// mints, whose bounds are fixed January firsts.
#[verifier::external_body]
fn new_cert_params(profile: &CertProfile) -> (r: Result<rcgen::CertificateParams, TlsError>)
    requires
        is_ca_profile(*profile) || (exists|host: Seq<char>| is_leaf_profile_for(*profile, host)),
{
    let mut params = rcgen::CertificateParams::default();
    let nb = &profile.not_before;
    let na = &profile.not_after;
    params.not_before = rcgen::date_time_ymd(nb.year, nb.month, nb.day);
    params.not_after = rcgen::date_time_ymd(na.year, na.month, na.day);
    if profile.is_ca {
        params.is_ca = rcgen::IsCa::Ca(rcgen::BasicConstraints::Unconstrained);
    }
    Ok(params)
}

/// Relies on `rcgen::SanType::DnsName` and `DistinguishedName::push`: adds
/// exactly the profile's DNS SAN, if any, and its common name to the params.
#[verifier::external_body]
fn set_subject(params: &mut rcgen::CertificateParams, profile: &CertProfile) -> (r: Result<
    (),
    TlsError,
>) {
    if let Some(san) = &profile.san_dns {
        let name = rcgen::Ia5String::try_from(san.as_str()).map_err(|_| TlsError::CertGenError)?;
        params.subject_alt_names = vec![rcgen::SanType::DnsName(name)];
    }
    params.distinguished_name.push(rcgen::DnType::CommonName, profile.common_name.as_str());
    Ok(())
}

/// Relies on `rcgen::CertificateParams::self_signed`: the certificate
/// carries exactly the given params and is signed by `key`.
#[verifier::external_body]
fn self_sign_params(params: rcgen::CertificateParams, key: &rcgen::KeyPair) -> (r: Result<
    rcgen::Certificate,
    TlsError,
>) {
    params.self_signed(key).map_err(|_| TlsError::CertGenError)
}

/// Relies on `rcgen::CertificateParams::signed_by` and
/// `rustls::ServerConfig::builder`: a leaf certificate carrying exactly the
/// given params, signed by the CA over a fresh keypair, wrapped as a TLS
/// acceptor.
#[verifier::external_body]
fn sign_leaf_acceptor(
    params: rcgen::CertificateParams,
    ca: &rcgen::Certificate,
    ca_key: &rcgen::KeyPair,
) -> (r: Result<tokio_rustls::TlsAcceptor, TlsError>) {
    let keys = rcgen::KeyPair::generate().map_err(|_| TlsError::CertGenError)?;
    let certificate = params.signed_by(&keys, ca, ca_key).map_err(|_| TlsError::CertGenError)?;
    let der_key = rustls::pki_types::PrivatePkcs8KeyDer::from(keys.serialize_der());
    let config = rustls::ServerConfig::builder().with_no_client_auth().with_single_cert(
        vec![certificate.der().to_owned()],
        rustls::pki_types::PrivateKeyDer::Pkcs8(der_key),
    ).map_err(|_| TlsError::CertGenError)?;
    Ok(tokio_rustls::TlsAcceptor::from(std::sync::Arc::new(config)))
}

/// Relies on `tokio_rustls::TlsAcceptor::clone`: the clone shares the same
/// TLS server configuration, so it is the same acceptor value.
#[verifier::external_body]
fn clone_acceptor(a: &tokio_rustls::TlsAcceptor) -> (r: tokio_rustls::TlsAcceptor)
    ensures
        r == *a,
{
    a.clone()
}

/// Relies on `rcgen::Certificate::pem`: the certificate as PEM text, for the
/// caller to persist.
#[verifier::external_body]
fn ca_cert_pem(cert: &rcgen::Certificate) -> String {
    cert.pem()
}

/// Relies on `rcgen::KeyPair::serialize_pem`: the private key as PEM text,
/// for the caller to persist.
#[verifier::external_body]
fn ca_key_pem(key: &rcgen::KeyPair) -> String {
    key.serialize_pem()
}

/// Relies on `rcgen::CertificateParams::from_ca_cert_pem`,
/// `rcgen::KeyPair::from_pem` and `rcgen::CertificateParams::self_signed`:
/// rebuilds the CA certificate and keypair from their PEM texts.
#[verifier::external_body]
fn parse_ca(cert_pem: &str, key_pem: &str) -> (r: Result<
    (rcgen::Certificate, rcgen::KeyPair),
    TlsError,
>) {
    let params = rcgen::CertificateParams::from_ca_cert_pem(cert_pem).map_err(
        |_| TlsError::CertGenError,
    )?;
    let key = rcgen::KeyPair::from_pem(key_pem).map_err(|_| TlsError::CertGenError)?;
    let ca = params.self_signed(&key).map_err(|_| TlsError::CertGenError)?;
    Ok((ca, key))
}

/// One cached leaf: the host, the profile the leaf was minted from, and the
/// TLS acceptor holding the signed certificate.
struct LeafEntry {
    host: String,
    profile: CertProfile,
    acceptor: tokio_rustls::TlsAcceptor,
}

/// The TLS handler: CA material and the per-host leaf cache. When this
/// process minted the CA, the profile it was minted from is kept alongside;
/// a CA rebuilt from persisted PEM carries none.
pub struct TlsHandler {
    ca: rcgen::Certificate,
    ca_key: rcgen::KeyPair,
    ca_minted_from: Ghost<Option<CertProfile>>,
    entries: Vec<LeafEntry>,
}

/// The first cached acceptor for a host, in cache order.
spec fn first_acceptor(entries: Seq<LeafEntry>, host: Seq<char>) -> tokio_rustls::TlsAcceptor
    decreases entries.len(),
{
    if entries.len() == 0 {
        arbitrary()
    } else if entries.first().host@ == host {
        entries.first().acceptor
    } else {
        first_acceptor(entries.drop_first(), host)
    }
}

/// Pushing a new entry does not change the first match for a host that
/// already has one.
proof fn lemma_first_acceptor_push(entries: Seq<LeafEntry>, e: LeafEntry, h: Seq<char>)
    requires
        exists|i: int| 0 <= i < entries.len() && (#[trigger] entries[i]).host@ == h,
    ensures
        first_acceptor(entries.push(e), h) == first_acceptor(entries, h),
    decreases entries.len(),
{
    let i = choose|i: int| 0 <= i < entries.len() && (#[trigger] entries[i]).host@ == h;
    assert(entries.push(e).first() == entries.first());
    if entries.first().host@ == h {
    } else {
        assert(i >= 1);
        assert(entries.drop_first()[i - 1].host@ == h);
        assert(entries.push(e).drop_first() =~= entries.drop_first().push(e));
        lemma_first_acceptor_push(entries.drop_first(), e, h);
    }
}

/// The first match in a seq of entries is the one `first_acceptor` returns.
proof fn lemma_first_acceptor_at(entries: Seq<LeafEntry>, host: Seq<char>, i: int)
    requires
        0 <= i < entries.len(),
        entries[i].host@ == host,
        forall|k: int| 0 <= k < i ==> (#[trigger] entries[k]).host@ != host,
    ensures
        first_acceptor(entries, host) == entries[i].acceptor,
    decreases entries.len(),
{
    if i == 0 {
    } else {
        assert(entries.drop_first()[i - 1] == entries[i]);
        assert(forall|k: int|
            0 <= k < i - 1 ==> (#[trigger] entries.drop_first()[k]).host@ != host);
        lemma_first_acceptor_at(entries.drop_first(), host, i - 1);
    }
}

impl TlsHandler {
    #[verifier::type_invariant]
    spec fn wf(self) -> bool {
        forall|i: int|
            0 <= i < self.entries@.len() ==> is_leaf_profile_for(
                (#[trigger] self.entries@[i]).profile,
                self.entries@[i].host@,
            )
    }

    /// The profile this process minted the CA from, when it did.
    pub closed spec fn ca_profile(self) -> Option<CertProfile> {
        self.ca_minted_from@
    }

    /// The hosts a leaf has been minted for, in minting order.
    pub closed spec fn cache_hosts(self) -> Seq<Seq<char>> {
        self.entries@.map_values(|e: LeafEntry| e.host@)
    }

    /// Whether a leaf for the host is cached.
    pub closed spec fn cache_has(self, host: Seq<char>) -> bool {
        exists|i: int| 0 <= i < self.entries@.len() && (#[trigger] self.entries@[i]).host@ == host
    }

    /// The profiles the cached leaves were minted from, in minting order.
    pub closed spec fn cache_profiles(self) -> Seq<CertProfile> {
        self.entries@.map_values(|e: LeafEntry| e.profile)
    }

    /// The cached TLS acceptor for the host (the first entry, and with this
    /// handler's methods the only one).
    pub closed spec fn cached_acceptor(self, host: Seq<char>) -> tokio_rustls::TlsAcceptor {
        first_acceptor(self.entries@, host)
    }

    /// Generates fresh CA material, minted from the `yatangaki_ca` profile,
    /// with an empty leaf cache.
    pub fn generate() -> (r: Result<TlsHandler, TlsError>)
        ensures
            r matches Ok(h) ==> h.cache_hosts() == Seq::<Seq<char>>::empty()
                && (h.ca_profile() matches Some(p) && is_ca_profile(p)),
    {
        let key = match generate_keypair() {
            Err(e) => {
                return Err(e);
            },
            Ok(k) => k,
        };
        let profile = CertProfile::ca();
        let mut params = match new_cert_params(&profile) {
            Err(e) => {
                return Err(e);
            },
            Ok(p) => p,
        };
        if let Err(e) = set_subject(&mut params, &profile) {
            return Err(e);
        }
        let cert = match self_sign_params(params, &key) {
            Err(e) => {
                return Err(e);
            },
            Ok(c) => c,
        };
        let h = TlsHandler {
            ca: cert,
            ca_key: key,
            ca_minted_from: Ghost(Some(profile)),
            entries: Vec::new(),
        };
        proof {
            assert(h.cache_hosts() =~= Seq::<Seq<char>>::empty());
        }
        Ok(h)
    }

    /// Rebuilds the handler from persisted CA PEM texts, with an empty leaf
    /// cache. The loaded CA's attributes are whatever the PEM holds, so no
    /// minting profile is claimed.
    pub fn parse_pem(pem_certificate: &str, pem_private_key: &str) -> (r: Result<
        TlsHandler,
        TlsError,
    >)
        ensures
            r matches Ok(h) ==> h.cache_hosts() == Seq::<Seq<char>>::empty()
                && h.ca_profile() is None,
    {
        let (cert, key) = match parse_ca(pem_certificate, pem_private_key) {
            Err(e) => {
                return Err(e);
            },
            Ok(p) => p,
        };
        let h = TlsHandler {
            ca: cert,
            ca_key: key,
            ca_minted_from: Ghost(None),
            entries: Vec::new(),
        };
        proof {
            assert(h.cache_hosts() =~= Seq::<Seq<char>>::empty());
        }
        Ok(h)
    }

    /// The CA certificate PEM, for the caller to persist.
    pub fn certificate_pem(&self) -> String {
        ca_cert_pem(&self.ca)
    }

    /// The CA private key PEM, for the caller to persist.
    pub fn private_key_pem(&self) -> String {
        ca_key_pem(&self.ca_key)
    }

    /// The TLS acceptor for one host: reused from the cache when the host
    /// has one, otherwise minted from the host's leaf profile and cached.
    /// A repeated call for the same host returns the same acceptor and
    /// leaves the cache as it is.
    pub fn tls_acceptor(&mut self, host: &str) -> (r: Result<tokio_rustls::TlsAcceptor, TlsError>)
        ensures
            old(self).cache_has(host@) ==> *final(self) == *old(self) && (r matches Ok(a)
                && a == old(self).cached_acceptor(host@)),
            final(self).cache_profiles().len() == final(self).cache_hosts().len(),
            r matches Ok(a) ==> exists|k: int|
                0 <= k < final(self).cache_hosts().len() && final(self).cache_hosts()[k] == host@
                    && is_leaf_profile_for(#[trigger] final(self).cache_profiles()[k], host@),
            r matches Ok(a) ==> final(self).cache_has(host@) && a == final(self).cached_acceptor(
                host@,
            ),
            !old(self).cache_has(host@) && (r matches Ok(a)) ==> final(self).cache_hosts() == old(
                self,
            ).cache_hosts().push(host@) && final(self).cache_profiles().drop_last() == old(
                self,
            ).cache_profiles(),
            r matches Ok(a) ==> forall|h: Seq<char>|
                old(self).cache_has(h) ==> final(self).cache_has(h)
                    && final(self).cached_acceptor(h) == old(self).cached_acceptor(h),
            r matches Err(e) ==> *final(self) == *old(self),
    {
        proof {
            use_type_invariant(&*self);
        }
        let host_string = String::from_str(host);
        let mut i: usize = 0;
        while i < self.entries.len()
            invariant
                i <= self.entries@.len(),
                host_string@ == host@,
                forall|k: int| 0 <= k < i ==> (#[trigger] self.entries@[k]).host@ != host@,
            decreases self.entries@.len() - i,
        {
            if self.entries[i].host == host_string {
                let a = clone_acceptor(&self.entries[i].acceptor);
                proof {
                    use_type_invariant(&*self);
                    lemma_first_acceptor_at(self.entries@, host@, i as int);
                    assert(self.cache_hosts()[i as int] == host@);
                    assert(is_leaf_profile_for(self.cache_profiles()[i as int], host@));
                }
                return Ok(a);
            }
            i = i + 1;
        }
        let profile = CertProfile::leaf_for(host);
        let mut params = match new_cert_params(&profile) {
            Err(e) => {
                return Err(e);
            },
            Ok(p) => p,
        };
        if let Err(e) = set_subject(&mut params, &profile) {
            return Err(e);
        }
        let acceptor = match sign_leaf_acceptor(params, &self.ca, &self.ca_key) {
            Err(e) => {
                return Err(e);
            },
            Ok(a) => a,
        };
        let result = clone_acceptor(&acceptor);
        let entry = LeafEntry { host: host_string, profile, acceptor };
        let mut entries: Vec<LeafEntry> = Vec::new();
        std::mem::swap(&mut entries, &mut self.entries);
        entries.push(entry);
        self.entries = entries;
        proof {
            assert(!old(self).cache_has(host@));
            let n = self.entries@.len() - 1;
            assert(self.entries@[n].host@ == host@);
            assert(forall|k: int| 0 <= k < n ==> (#[trigger] self.entries@[k]).host@ != host@);
            lemma_first_acceptor_at(self.entries@, host@, n);
            assert(self.entries@.map_values(|e: LeafEntry| e.host@) =~= old(
                self,
            ).entries@.map_values(|e: LeafEntry| e.host@).push(host@));
            assert(self.cache_hosts()[n] == host@);
            assert(is_leaf_profile_for(self.cache_profiles()[n], host@));
            assert(self.cache_profiles().drop_last() =~= old(self).cache_profiles());
            let old_entries = old(self).entries@;
            assert(self.entries@ =~= old_entries.push(self.entries@.last()));
            assert forall|h: Seq<char>| old(self).cache_has(h) implies self.cache_has(h)
                && self.cached_acceptor(h) == old(self).cached_acceptor(h) by {
                let w = choose|i2: int|
                    0 <= i2 < old_entries.len() && (#[trigger] old_entries[i2]).host@ == h;
                assert(self.entries@[w].host@ == h);
                lemma_first_acceptor_push(old_entries, self.entries@.last(), h);
            }
        }
        Ok(result)
    }
}

} // verus!
