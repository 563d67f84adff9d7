//! Connection descriptors: parsing each engine's descriptor with the engine's
//! own client library, and the encryption policy of the tabular protocol.
//!
//! A parse failure is a connect failure of cause `Descriptor`. Its detail is
//! a fixed text: the descriptor may hold credentials, so none of it is kept.

use vstd::prelude::*;
use vstd::string::{StrSliceExecFns, StringExecFns};
use crate::error::ConnectCause;
use crate::session::ConnectFailure;

verus! {

#[verifier::external_type_specification]
#[verifier::external_body]
pub struct ExTdsConfig(tiberius::Config);

#[verifier::external_type_specification]
#[verifier::external_body]
pub struct ExMyOpts(mysql_async::Opts);

#[verifier::external_type_specification]
#[verifier::external_body]
pub struct ExPgConfig(tokio_postgres::Config);

/// Whether `tiberius::Config::from_ado_string` accepts a descriptor.
pub uninterp spec fn ado_config_accepted(s: Seq<char>) -> bool;

/// The value that a descriptor in ADO.NET form gives a key (keys compared in
/// lower case, a later pair overriding an earlier one), or `None` when the key
/// is absent or the descriptor is not in that form.
pub uninterp spec fn ado_lookup(s: Seq<char>, key: Seq<char>) -> Option<Seq<char>>;

/// Whether `mysql_async::Opts::from_url` accepts a descriptor.
pub uninterp spec fn mysql_url_accepted(s: Seq<char>) -> bool;

/// Whether `tokio_postgres::Config`'s `FromStr` accepts a descriptor.
pub uninterp spec fn pg_config_accepted(s: Seq<char>) -> bool;

/// A descriptor names a CA file while also trusting any server certificate:
/// both `TrustServerCertificateCA` and a `TrustServerCertificate` that is not
/// `false`/`no` (in any case). The client library refuses this pair by
/// panicking, so it is refused here before the descriptor reaches it.
pub open spec fn trust_conflict(s: Seq<char>) -> bool {
    &&& ado_lookup(s, "trustservercertificateca"@) is Some
    &&& ado_lookup(s, "trustservercertificate"@) is Some
    &&& !same_ignoring_ascii_case(ado_lookup(s, "trustservercertificate"@)->Some_0, "false"@)
    &&& !same_ignoring_ascii_case(ado_lookup(s, "trustservercertificate"@)->Some_0, "no"@)
}

/// Relies on `tiberius::Config::from_ado_string`, which parses a descriptor
/// and reads nothing else. It panics when a true `TrustServerCertificate` and a
/// `TrustServerCertificateCA` come together, which `requires` rules out.
#[verifier::external_body]
fn ado_config(s: &str) -> (r: Option<tiberius::Config>)
    requires
        !trust_conflict(s@),
    ensures
        r is Some <==> ado_config_accepted(s@),
{
    tiberius::Config::from_ado_string(s).ok()
}

/// Relies on `connection_string::AdoNetString`'s `FromStr` (keys stored in lower
/// case) and the map it dereferences to: the value of `key` (lower case).
#[verifier::external_body]
fn ado_setting(s: &str, key: &str) -> (r: Option<String>)
    ensures
        r is Some <==> ado_lookup(s@, key@) is Some,
        r is Some ==> r->Some_0@ == ado_lookup(s@, key@)->Some_0,
{
    s.parse::<connection_string::AdoNetString>().ok().and_then(|pairs| pairs.get(key).cloned())
}

/// Relies on `tiberius::Config::encryption`, which sets the level to negotiate.
#[verifier::external_body]
fn apply_encryption(config: &mut tiberius::Config, level: TdsEncryption) {
    config.encryption(match level {
        TdsEncryption::Off => tiberius::EncryptionLevel::Off,
        TdsEncryption::On => tiberius::EncryptionLevel::On,
        TdsEncryption::NotSupported => tiberius::EncryptionLevel::NotSupported,
        TdsEncryption::Required => tiberius::EncryptionLevel::Required,
    })
}

/// Relies on `mysql_async::Opts::from_url`, which parses a URL and reads nothing else.
#[verifier::external_body]
fn my_opts(s: &str) -> (r: Option<mysql_async::Opts>)
    ensures
        r is Some <==> mysql_url_accepted(s@),
{
    mysql_async::Opts::from_url(s).ok()
}

/// Relies on `tokio_postgres::Config`'s `FromStr`, which parses a descriptor
/// (URL or key-value form) and reads nothing else.
#[verifier::external_body]
fn pg_parse(s: &str) -> (r: Option<tokio_postgres::Config>)
    ensures
        r is Some <==> pg_config_accepted(s@),
{
    s.parse::<tokio_postgres::Config>().ok()
}

/// The encryption levels of the tabular protocol.
#[derive(Debug, Clone, Copy, PartialEq, Eq, Structural)]
pub enum TdsEncryption {
    /// Only the login is encrypted.
    Off,
    /// Everything is encrypted if the server supports it.
    On,
    /// Nothing is encrypted.
    NotSupported,
    /// Everything is encrypted, or the connection fails.
    Required,
}

/// An ASCII letter in lower case; any other character as it is.
pub open spec fn ascii_lower(c: char) -> char {
    if 'A' <= c && c <= 'Z' {
        ((c as u8) + 32) as char
    } else {
        c
    }
}

/// Two texts are equal up to the case of ASCII letters.
pub open spec fn same_ignoring_ascii_case(a: Seq<char>, b: Seq<char>) -> bool {
    a.len() == b.len() && forall|i: int| 0 <= i < a.len() ==> #[trigger] ascii_lower(a[i]) == ascii_lower(b[i])
}

/// The `encrypt` setting turns encryption off: `false` or `no` in any case, or
/// the explicit `DANGER_PLAINTEXT`.
pub open spec fn disables_encryption(v: Seq<char>) -> bool {
    same_ignoring_ascii_case(v, "false"@) || same_ignoring_ascii_case(v, "no"@) || v == "DANGER_PLAINTEXT"@
}

/// The level negotiated for a descriptor's `encrypt` setting: encryption is
/// required unless the descriptor explicitly turns it off.
pub open spec fn encryption_policy(setting: Option<Seq<char>>) -> TdsEncryption {
    match setting {
        Some(v) => if disables_encryption(v) {
            TdsEncryption::NotSupported
        } else {
            TdsEncryption::Required
        },
        None => TdsEncryption::Required,
    }
}

fn lower_char(c: char) -> (r: char)
    ensures
        r == ascii_lower(c),
{
    if 'A' <= c && c <= 'Z' {
        ((c as u8) + 32) as char
    } else {
        c
    }
}

/// Whether two texts are equal up to the case of ASCII letters.
pub fn eq_ignoring_ascii_case(a: &str, b: &str) -> (r: bool)
    ensures
        r == same_ignoring_ascii_case(a@, b@),
{
    let n = a.unicode_len();
    if n != b.unicode_len() {
        return false;
    }
    let mut i: usize = 0;
    while i < n
        invariant
            n == a@.len(),
            n == b@.len(),
            i <= n,
            forall|k: int| 0 <= k < i ==> #[trigger] ascii_lower(a@[k]) == ascii_lower(b@[k]),
        decreases n - i,
    {
        if lower_char(a.get_char(i)) != lower_char(b.get_char(i)) {
            return false;
        }
        i += 1;
    }
    true
}

/// The level to negotiate for a descriptor's `encrypt` setting.
pub fn tds_encryption_policy(setting: Option<&str>) -> (r: TdsEncryption)
    ensures
        r == encryption_policy(
            match setting {
                Some(v) => Some(v@),
                None => None,
            },
        ),
{
    match setting {
        None => TdsEncryption::Required,
        Some(v) => {
            let plaintext = String::from_str(v) == String::from_str("DANGER_PLAINTEXT");
            if eq_ignoring_ascii_case(v, "false") || eq_ignoring_ascii_case(v, "no") || plaintext {
                TdsEncryption::NotSupported
            } else {
                TdsEncryption::Required
            }
        },
    }
}

fn descriptor_failure() -> (r: ConnectFailure)
    ensures
        r.cause == ConnectCause::Descriptor,
{
    ConnectFailure {
        cause: ConnectCause::Descriptor,
        detail: String::from_str("the connection descriptor could not be parsed"),
    }
}

/// A parsed tabular-protocol descriptor with the encryption level applied to it.
pub struct TdsTarget {
    pub config: tiberius::Config,
    pub encryption: TdsEncryption,
}

/// Whether a descriptor both trusts any server certificate and names a CA file.
pub fn has_trust_conflict(descriptor: &str) -> (r: bool)
    ensures
        r == trust_conflict(descriptor@),
{
    match ado_setting(descriptor, "trustservercertificateca") {
        None => false,
        Some(_) => match ado_setting(descriptor, "trustservercertificate") {
            None => false,
            Some(v) => !eq_ignoring_ascii_case(v.as_str(), "false") && !eq_ignoring_ascii_case(v.as_str(), "no"),
        },
    }
}

/// Parses a tabular-protocol descriptor and applies the encryption policy. A
/// descriptor with conflicting certificate-trust settings is refused.
pub fn tds_target(descriptor: &str) -> (r: Result<TdsTarget, ConnectFailure>)
    ensures
        r is Ok <==> !trust_conflict(descriptor@) && ado_config_accepted(descriptor@),
        r is Ok ==> r->Ok_0.encryption == encryption_policy(ado_lookup(descriptor@, "encrypt"@)),
        r is Err ==> r->Err_0.cause == ConnectCause::Descriptor,
{
    if has_trust_conflict(descriptor) {
        return Err(descriptor_failure());
    }
    match ado_config(descriptor) {
        Some(config) => {
            let mut config = config;
            let setting = ado_setting(descriptor, "encrypt");
            let level = match &setting {
                Some(v) => tds_encryption_policy(Some(v.as_str())),
                None => tds_encryption_policy(None),
            };
            apply_encryption(&mut config, level);
            Ok(TdsTarget { config, encryption: level })
        },
        None => Err(descriptor_failure()),
    }
}

/// The query pairs of a URL, decoded, in order; none when it is not a URL.
pub uninterp spec fn url_query(s: Seq<char>) -> Seq<(Seq<char>, Seq<char>)>;

/// Relies on `url::Url::parse` and `Url::query_pairs`: the decoded query pairs in order.
#[verifier::external_body]
fn url_query_pairs(s: &str) -> (r: Vec<(String, String)>)
    ensures
        r@.map_values(|p: (String, String)| (p.0@, p.1@)) == url_query(s@),
{
    url::Url::parse(s).map(|u| u.query_pairs().into_owned().collect()).unwrap_or_default()
}

/// Relies on `mysql_async::OptsBuilder::ssl_opts`: the same options with TLS
/// required under the default TLS settings.
#[verifier::external_body]
fn require_tls(opts: mysql_async::Opts) -> mysql_async::Opts {
    mysql_async::OptsBuilder::from_opts(opts).ssl_opts(mysql_async::SslOpts::default()).into()
}

/// The value of the last pair with the given key.
pub open spec fn last_param(q: Seq<(Seq<char>, Seq<char>)>, key: Seq<char>) -> Option<Seq<char>>
    decreases q.len(),
{
    if q.len() == 0 {
        None
    } else if q.last().0 == key {
        Some(q.last().1)
    } else {
        last_param(q.drop_last(), key)
    }
}

/// The value of the last pair with the given key.
pub fn last_value(pairs: &Vec<(String, String)>, key: &str) -> (r: Option<String>)
    ensures
        r is Some <==> last_param(pairs@.map_values(|p: (String, String)| (p.0@, p.1@)), key@) is Some,
        r is Some ==> r->Some_0@ == last_param(pairs@.map_values(|p: (String, String)| (p.0@, p.1@)), key@)->Some_0,
{
    let k = String::from_str(key);
    let ghost q = pairs@.map_values(|p: (String, String)| (p.0@, p.1@));
    let mut i: usize = pairs.len();
    proof {
        assert(q.subrange(0, i as int) =~= q);
    }
    while i > 0
        invariant
            i <= pairs@.len(),
            k@ == key@,
            q == pairs@.map_values(|p: (String, String)| (p.0@, p.1@)),
            last_param(q, key@) == last_param(q.subrange(0, i as int), key@),
        decreases i,
    {
        proof {
            assert(q.subrange(0, i as int).drop_last() =~= q.subrange(0, i - 1));
        }
        if pairs[i - 1].0 == k {
            return Some(pairs[i - 1].1.clone());
        }
        i -= 1;
    }
    None
}

/// Whether the resource engine negotiates encryption.
#[derive(Debug, Clone, Copy, PartialEq, Eq, Structural)]
pub enum SslMode {
    Required,
    Disabled,
}

/// The mode for a descriptor's declared `require_ssl`: required when the
/// descriptor declares nothing, disabled when it says `false`, and as
/// declared otherwise.
pub open spec fn ssl_policy(declared: Option<Seq<char>>) -> SslMode {
    match declared {
        Some(v) => if v == "false"@ {
            SslMode::Disabled
        } else {
            SslMode::Required
        },
        None => SslMode::Required,
    }
}

/// The mode for a descriptor's declared `require_ssl`.
pub fn resource_ssl_policy(declared: Option<&str>) -> (r: SslMode)
    ensures
        r == ssl_policy(
            match declared {
                Some(v) => Some(v@),
                None => None,
            },
        ),
{
    match declared {
        None => SslMode::Required,
        Some(v) => {
            if String::from_str(v) == String::from_str("false") {
                SslMode::Disabled
            } else {
                SslMode::Required
            }
        },
    }
}

/// A parsed resource-protocol descriptor with its encryption mode applied.
pub struct ResourceTarget {
    pub opts: mysql_async::Opts,
    pub ssl: SslMode,
}

/// Parses a resource-protocol descriptor (a URL) and applies the encryption
/// policy: where the URL declares no `require_ssl`, TLS is required.
pub fn resource_options(descriptor: &str) -> (r: Result<ResourceTarget, ConnectFailure>)
    ensures
        r is Ok <==> mysql_url_accepted(descriptor@),
        r is Ok ==> r->Ok_0.ssl == ssl_policy(last_param(url_query(descriptor@), "require_ssl"@)),
        r is Err ==> r->Err_0.cause == ConnectCause::Descriptor,
{
    match my_opts(descriptor) {
        Some(opts) => {
            let pairs = url_query_pairs(descriptor);
            let declared = last_value(&pairs, "require_ssl");
            match declared {
                None => {
                    let ssl = resource_ssl_policy(None);
                    Ok(ResourceTarget { opts: require_tls(opts), ssl })
                },
                Some(v) => {
                    let ssl = resource_ssl_policy(Some(v.as_str()));
                    Ok(ResourceTarget { opts, ssl })
                },
            }
        },
        None => Err(descriptor_failure()),
    }
}

/// Parses an extended-query-protocol descriptor.
pub fn extended_config(descriptor: &str) -> (r: Result<tokio_postgres::Config, ConnectFailure>)
    ensures
        r is Ok <==> pg_config_accepted(descriptor@),
        r is Err ==> r->Err_0.cause == ConnectCause::Descriptor,
{
    match pg_parse(descriptor) {
        Some(c) => Ok(c),
        None => Err(descriptor_failure()),
    }
}

} // verus!
