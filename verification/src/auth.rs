//! The authorization gate: whether a connection that asks for a schema, from
//! an address, may use the proxy.

use crate::config::{contains_name, lemma_name_set_empty, name_set, ProxyConfig, ProxyConfigView};
use std::sync::Arc;
use vstd::prelude::*;
use vstd::string::StrSliceExecFns;

verus! {

/// Why the authorization gate refused a connection.
#[derive(Debug, Clone, Copy, PartialEq, Eq)]
pub enum AuthError {
    /// The schema is not in the allowed list.
    SchemaNotAllowed,
    /// The schema is allowed, but has not opted in for direct access.
    SchemaNotOptedIn,
    /// A whitelist is configured and the client's address is not on it.
    IpNotWhitelisted,
}

/// Whether a whitelist entry admits an address: the address begins with the
/// entry. An entry that is a whole address admits that address; a shorter
/// one admits every address under that prefix.
pub open spec fn admits(entry: Seq<char>, address: Seq<char>) -> bool {
    entry.is_prefix_of(address)
}

/// Whether the whitelist lets a client through. An empty whitelist is none
/// at all and lets everyone through; any other wants an address that one of
/// its entries admits.
pub open spec fn whitelisted(whitelist: Set<Seq<char>>, address: Option<Seq<char>>) -> bool {
    whitelist == Set::<Seq<char>>::empty() || (address matches Some(a) && exists|
        entry: Seq<char>,
    | #[trigger]
        whitelist.contains(entry) && admits(entry, a))
}

/// The authorization gate's decision. The checks run in this order, and the
/// first that fails is the one reported: the whitelist, the allowed list, the
/// opt-in list.
pub open spec fn decision(
    policy: ProxyConfigView,
    schema: Seq<char>,
    address: Option<Seq<char>>,
) -> Result<(), AuthError> {
    if !whitelisted(policy.ip_whitelist, address) {
        Err(AuthError::IpNotWhitelisted)
    } else if !policy.allowed_schemas.contains(schema) {
        Err(AuthError::SchemaNotAllowed)
    } else if !policy.opt_in_schemas.contains(schema) {
        Err(AuthError::SchemaNotOptedIn)
    } else {
        Ok(())
    }
}

/// The reason that the client is given for a refusal.
pub open spec fn reason(error: AuthError) -> Seq<char> {
    match error {
        AuthError::SchemaNotAllowed => "Schema not allowed"@,
        AuthError::SchemaNotOptedIn => "Schema has not opted-in for direct access"@,
        AuthError::IpNotWhitelisted => "Client address is not whitelisted"@,
    }
}

impl AuthError {
    /// The reason in words, as the client is to read it.
    pub fn message(&self) -> (text: String)
        ensures
            text@ == reason(*self),
    {
        match self {
            AuthError::SchemaNotAllowed => "Schema not allowed".to_owned(),
            AuthError::SchemaNotOptedIn => "Schema has not opted-in for direct access".to_owned(),
            AuthError::IpNotWhitelisted => "Client address is not whitelisted".to_owned(),
        }
    }
}

/// Whether `address` begins with `entry`.
pub fn entry_admits(entry: &str, address: &str) -> (admitted: bool)
    ensures
        admitted == admits(entry@, address@),
{
    let length = entry.unicode_len();
    if length > address.unicode_len() {
        return false;
    }
    let mut i: usize = 0;
    while i < length
        invariant
            i <= length,
            length == entry@.len(),
            length <= address@.len(),
            forall|j: int| 0 <= j < i ==> entry@[j] == address@[j],
        decreases length - i,
    {
        if entry.get_char(i) != address.get_char(i) {
            return false;
        }
        i += 1;
    }
    true
}

/// Whether the whitelist lets a client with this address, or with none,
/// through.
pub fn address_whitelisted(whitelist: &Vec<String>, address: Option<&str>) -> (passed: bool)
    ensures
        passed == whitelisted(name_set(whitelist@), address.deep_view()),
{
    proof {
        lemma_name_set_empty(whitelist@);
    }
    if whitelist.len() == 0 {
        return true;
    }
    match address {
        None => false,
        Some(text) => {
            let mut i: usize = 0;
            while i < whitelist.len()
                invariant
                    i <= whitelist.len(),
                    address == Some(text),
                    forall|j: int| 0 <= j < i ==> !admits((#[trigger] whitelist@[j])@, text@),
                decreases whitelist.len() - i,
            {
                if entry_admits(whitelist[i].as_str(), text) {
                    let ghost entry = whitelist@[i as int]@;
                    assert(name_set(whitelist@).contains(entry) && admits(entry, text@));
                    return true;
                }
                i += 1;
            }
            false
        },
    }
}

/// Decides whether a connection may use the proxy: exactly [`decision`].
/// Nothing is changed, and the same arguments give the same answer.
pub fn authorize(
    policy: &ProxyConfig,
    requested_schema: &str,
    client_addr: Option<&str>,
) -> (result: Result<(), AuthError>)
    ensures
        result == decision(policy@, requested_schema@, client_addr.deep_view()),
{
    if !address_whitelisted(&policy.ip_whitelist, client_addr) {
        Err(AuthError::IpNotWhitelisted)
    } else if !contains_name(&policy.allowed_schemas, requested_schema) {
        Err(AuthError::SchemaNotAllowed)
    } else if !contains_name(&policy.opt_in_schemas, requested_schema) {
        Err(AuthError::SchemaNotOptedIn)
    } else {
        Ok(())
    }
}

/// The authorization gate as the sessions hold it: the shared configuration,
/// read only.
pub struct AuthHandler {
    config: Arc<ProxyConfig>,
}

impl AuthHandler {
    /// The configuration that this handler decides by.
    pub closed spec fn policy(&self) -> ProxyConfig {
        *self.config
    }

    /// A handler that decides by `config`.
    pub fn new(config: Arc<ProxyConfig>) -> (handler: Self)
        ensures
            handler.policy() == *config,
    {
        Self { config }
    }

    /// Decides on a connection that asks for `database` from `client_addr`:
    /// what [`authorize`] decides under this handler's configuration.
    pub fn authenticate(&self, database: &str, client_addr: Option<&str>) -> (result: Result<
        (),
        AuthError,
    >)
        ensures
            result == decision(self.policy()@, database@, client_addr.deep_view()),
    {
        authorize(&self.config, database, client_addr)
    }
}

/// A schema that is not in the allowed list is refused as not allowed,
/// whatever the opt-in list holds, when the whitelist lets the client through.
pub proof fn lemma_schema_not_allowed(
    policy: ProxyConfigView,
    schema: Seq<char>,
    address: Option<Seq<char>>,
)
    requires
        whitelisted(policy.ip_whitelist, address),
        !policy.allowed_schemas.contains(schema),
    ensures
        decision(policy, schema, address) == Err::<(), AuthError>(AuthError::SchemaNotAllowed),
{
}

/// A schema that is allowed but has not opted in is refused as not opted in,
/// when the whitelist lets the client through.
pub proof fn lemma_schema_not_opted_in(
    policy: ProxyConfigView,
    schema: Seq<char>,
    address: Option<Seq<char>>,
)
    requires
        whitelisted(policy.ip_whitelist, address),
        policy.allowed_schemas.contains(schema),
        !policy.opt_in_schemas.contains(schema),
    ensures
        decision(policy, schema, address) == Err::<(), AuthError>(AuthError::SchemaNotOptedIn),
{
}

/// A schema in both lists is admitted when no whitelist is configured, and
/// when one is and admits the client's address.
pub proof fn lemma_schema_admitted(
    policy: ProxyConfigView,
    schema: Seq<char>,
    address: Option<Seq<char>>,
)
    requires
        policy.allowed_schemas.contains(schema),
        policy.opt_in_schemas.contains(schema),
        whitelisted(policy.ip_whitelist, address),
    ensures
        decision(policy, schema, address) == Ok::<(), AuthError>(()),
{
}

/// A client that the whitelist does not let through is refused for that,
/// whatever schema it asks for: the whitelist is checked first.
pub proof fn lemma_address_checked_first(
    policy: ProxyConfigView,
    schema: Seq<char>,
    address: Option<Seq<char>>,
)
    requires
        !whitelisted(policy.ip_whitelist, address),
    ensures
        decision(policy, schema, address) == Err::<(), AuthError>(AuthError::IpNotWhitelisted),
{
}

} // verus!
