//! The configuration snapshot: the mocked backend's identity, the session
//! credentials it accepts, and the catalog of mock resources.

use vstd::prelude::*;

use rand::Rng;

use crate::hex::{hex_digit, is_lower_hex_digit, lemma_hex_digit_is_lower_hex, push_hex_digit};
use crate::resource::MockResource;

verus! {

/// The number of digits of a generated credential.
pub const HASH_LENGTH: usize = 32;

/// Relies on `Rng::gen_range` over `rand::thread_rng`: a value drawn from
/// `0..16`, a range that is not empty.
#[verifier::external_body]
fn random_nibble() -> (r: u8)
    ensures
        r < 16,
{
    rand::thread_rng().gen_range(0..16u8)
}

/// Whether `s` has the shape of a generated credential: 32 lowercase
/// hexadecimal digits.
pub open spec fn is_generated_hash(s: Seq<char>) -> bool {
    &&& s.len() == HASH_LENGTH
    &&& forall|i: int| 0 <= i < s.len() ==> is_lower_hex_digit(#[trigger] s[i])
}

/// Whether every value of `nibbles` is a digit value, below 16.
pub open spec fn all_nibbles(nibbles: Seq<u8>) -> bool {
    forall|i: int| 0 <= i < nibbles.len() ==> #[trigger] nibbles[i] < 16
}

/// The lowercase hexadecimal digits of `nibbles`, one for each value, in order.
pub open spec fn digits_of(nibbles: Seq<u8>) -> Seq<char> {
    nibbles.map_values(|d: u8| hex_digit(d as int))
}

/// The digits of values below 16 are lowercase hexadecimal digits.
pub proof fn lemma_digits_are_lower_hex(nibbles: Seq<u8>)
    requires
        all_nibbles(nibbles),
    ensures
        forall|i: int|
            0 <= i < digits_of(nibbles).len() ==> is_lower_hex_digit(#[trigger] digits_of(nibbles)[i]),
{
    assert forall|i: int| 0 <= i < digits_of(nibbles).len() implies is_lower_hex_digit(
        #[trigger] digits_of(nibbles)[i],
    ) by {
        assert(nibbles[i] < 16);
        lemma_hex_digit_is_lower_hex(nibbles[i] as int);
    }
}

/// The text of a credential drawn as `nibbles`: the digit of each value, in order.
pub fn hash_of_nibbles(nibbles: &Vec<u8>) -> (r: String)
    requires
        all_nibbles(nibbles@),
    ensures
        r@ == digits_of(nibbles@),
{
    let mut hash = String::new();
    let mut i: usize = 0;
    while i < nibbles.len()
        invariant
            i <= nibbles@.len(),
            all_nibbles(nibbles@),
            hash@ == digits_of(nibbles@.take(i as int)),
        decreases nibbles.len() - i,
    {
        let n = nibbles[i];
        assert(nibbles@[i as int] < 16);
        push_hex_digit(&mut hash, n);
        assert(nibbles@.take(i + 1) =~= nibbles@.take(i as int).push(n));
        assert(hash@ =~= digits_of(nibbles@.take(i + 1)));
        i += 1;
    }
    assert(nibbles@.take(nibbles@.len() as int) =~= nibbles@);
    hash
}

/// A random credential: the digits of 32 values drawn from `0..16`.
pub fn generate_hash() -> (r: String)
    ensures
        is_generated_hash(r@),
        exists|d: Seq<u8>| d.len() == HASH_LENGTH && all_nibbles(d) && r@ == digits_of(d),
{
    let mut draws: Vec<u8> = Vec::new();
    let mut i: usize = 0;
    while i < HASH_LENGTH
        invariant
            i <= HASH_LENGTH,
            draws@.len() == i,
            all_nibbles(draws@),
        decreases HASH_LENGTH - i,
    {
        let n = random_nibble();
        draws.push(n);
        assert(draws@[i as int] == n);
        i += 1;
    }
    let hash = hash_of_nibbles(&draws);
    proof {
        lemma_digits_are_lower_hex(draws@);
    }
    hash
}

/// The server's own settings; only the program reads them.
#[derive(Debug)]
pub struct ServerConfig {
    /// The address to listen on, such as `127.0.0.1:3000`.
    pub bind_address: String,
}

/// The identity that the mocked backend presents, which a registration must
/// repeat exactly.
#[derive(Debug)]
pub struct WebservicesConfig {
    /// The vendor hash.
    pub vendor_hash: String,
    /// The application hash.
    pub application_hash: String,
    /// The version of the application.
    pub version: u32,
    /// The application secret.
    pub application_secret: String,
}

impl Default for WebservicesConfig {
    /// Generated hashes, version 1 and the secret `1`.
    fn default() -> (r: Self)
        ensures
            is_generated_hash(r.vendor_hash@),
            is_generated_hash(r.application_hash@),
            r.version == 1,
            r.application_secret@ == "1"@,
    {
        WebservicesConfig {
            vendor_hash: generate_hash(),
            application_hash: generate_hash(),
            version: 1,
            application_secret: "1".to_owned(),
        }
    }
}

/// The session credentials: one pair for the whole process, handed to every
/// client that registers correctly.
#[derive(Debug)]
pub struct CredentialsConfig {
    /// The service pass.
    pub service_pass: String,
    /// The application id.
    pub application_id: String,
}

impl Default for CredentialsConfig {
    /// Two generated hashes.
    fn default() -> (r: Self)
        ensures
            is_generated_hash(r.service_pass@),
            is_generated_hash(r.application_id@),
    {
        CredentialsConfig { service_pass: generate_hash(), application_id: generate_hash() }
    }
}

/// The identity and credentials of the mocked backend.
#[derive(Debug)]
pub struct WebwareConfig {
    /// The identity.
    pub webservices: WebservicesConfig,
    /// The credentials.
    pub credentials: CredentialsConfig,
}

impl Default for WebwareConfig {
    /// A default identity and generated credentials.
    fn default() -> (r: Self)
        ensures
            is_generated_hash(r.webservices.vendor_hash@),
            is_generated_hash(r.webservices.application_hash@),
            r.webservices.version == 1,
            r.webservices.application_secret@ == "1"@,
            is_generated_hash(r.credentials.service_pass@),
            is_generated_hash(r.credentials.application_id@),
    {
        WebwareConfig {
            webservices: WebservicesConfig::default(),
            credentials: CredentialsConfig::default(),
        }
    }
}

/// The whole configuration, fixed once the process has started.
#[derive(Debug)]
pub struct AppConfig {
    /// The server's settings, where given.
    pub server: Option<ServerConfig>,
    /// The identity and credentials.
    pub webware: WebwareConfig,
    /// The catalog, in the order in which resources are tried.
    pub mock_resources: Vec<MockResource>,
    /// Whether requests and answers are logged.
    pub debug: bool,
}

impl Default for AppConfig {
    /// No server settings, a default identity, generated credentials, an empty
    /// catalog and no logging.
    fn default() -> (r: Self)
        ensures
            r.server is None,
            is_generated_hash(r.webware.webservices.vendor_hash@),
            is_generated_hash(r.webware.webservices.application_hash@),
            r.webware.webservices.version == 1,
            r.webware.webservices.application_secret@ == "1"@,
            is_generated_hash(r.webware.credentials.service_pass@),
            is_generated_hash(r.webware.credentials.application_id@),
            r.mock_resources@.len() == 0,
            !r.debug,
    {
        AppConfig {
            server: None,
            webware: WebwareConfig::default(),
            mock_resources: Vec::new(),
            debug: false,
        }
    }
}

impl AppConfig {
    /// The configuration with `resource` added at the end of the catalog.
    pub fn with_mock_resource(self, resource: MockResource) -> (r: AppConfig)
        ensures
            r.mock_resources@ == self.mock_resources@.push(resource),
            r.server == self.server,
            r.webware == self.webware,
            r.debug == self.debug,
    {
        let mut config = self;
        config.mock_resources.push(resource);
        config
    }
}

} // verus!
