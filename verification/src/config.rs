//! The proxy's configuration, loaded once at start-up and never changed.

use vstd::prelude::*;

verus! {

/// Everything the proxy is configured with. The three lists are the policy
/// that the authorization gate decides by; the two strings tell the listener
/// where to bind and the upstream driver where to connect.
#[derive(Debug, Clone, PartialEq, Eq)]
pub struct ProxyConfig {
    pub listen_address: String,
    pub upstream_connection_string: String,
    pub allowed_schemas: Vec<String>,
    pub ip_whitelist: Vec<String>,
    pub opt_in_schemas: Vec<String>,
}

/// What a [`ProxyConfig`] stands for in contracts: its lists are sets, in
/// which neither order nor repetition counts.
pub struct ProxyConfigView {
    pub listen_address: Seq<char>,
    pub upstream_connection_string: Seq<char>,
    pub allowed_schemas: Set<Seq<char>>,
    pub ip_whitelist: Set<Seq<char>>,
    pub opt_in_schemas: Set<Seq<char>>,
}

/// Whether `name` is one of `names`.
pub open spec fn lists(names: Seq<String>, name: Seq<char>) -> bool {
    exists|i: int| 0 <= i < names.len() && (#[trigger] names[i])@ == name
}

/// The set of the texts that `names` lists.
pub open spec fn name_set(names: Seq<String>) -> Set<Seq<char>> {
    Set::new(|name: Seq<char>| lists(names, name))
}

impl View for ProxyConfig {
    type V = ProxyConfigView;

    open spec fn view(&self) -> ProxyConfigView {
        ProxyConfigView {
            listen_address: self.listen_address@,
            upstream_connection_string: self.upstream_connection_string@,
            allowed_schemas: name_set(self.allowed_schemas@),
            ip_whitelist: name_set(self.ip_whitelist@),
            opt_in_schemas: name_set(self.opt_in_schemas@),
        }
    }
}

/// A list names nothing exactly when it is empty.
pub proof fn lemma_name_set_empty(names: Seq<String>)
    ensures
        name_set(names) == Set::<Seq<char>>::empty() <==> names.len() == 0,
{
    if names.len() == 0 {
        assert(name_set(names) =~= Set::<Seq<char>>::empty());
    } else {
        assert(name_set(names).contains(names[0]@));
    }
}

/// Whether `name` is one of `names`.
pub fn contains_name(names: &Vec<String>, name: &str) -> (found: bool)
    ensures
        found == name_set(names@).contains(name@),
{
    let wanted = name.to_owned();
    let mut i: usize = 0;
    while i < names.len()
        invariant
            i <= names.len(),
            wanted@ == name@,
            forall|j: int| 0 <= j < i ==> (#[trigger] names@[j])@ != name@,
        decreases names.len() - i,
    {
        if names[i] == wanted {
            return true;
        }
        i += 1;
    }
    false
}

} // verus!
