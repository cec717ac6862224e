use vstd::prelude::*;

use crate::asset::NameDirectory;

verus! {

/// An account of the registry and the proxy that executes for it.
#[derive(Debug, Clone, PartialEq, Eq)]
pub struct AccountEntry {
    pub id: u32,
    pub proxy: String,
}

/// The entries of the account registry that an invocation may need.
#[derive(Debug, Clone, PartialEq, Eq)]
pub struct AccountRegistry {
    pub entries: Vec<AccountEntry>,
}

/// What the host chain answered for one invocation: who called, what the
/// caller is, and the parts of the directory and the registry in play.
#[derive(Debug, Clone, PartialEq, Eq)]
pub struct HostView {
    /// The address that sent the message.
    pub sender: String,
    /// Whether the sender address holds executable code (a contract).
    pub sender_has_code: bool,
    /// Whether the registry recognises the sender as the proxy of the
    /// account that installed this adapter.
    pub sender_is_proxy: bool,
    pub directory: NameDirectory,
    pub accounts: AccountRegistry,
    /// Addresses the host's address validation accepted.
    pub valid_addresses: Vec<String>,
}

/// The proxy of the first entry at or after `i` whose id is `id`.
pub open spec fn proxy_from(entries: Seq<AccountEntry>, id: u32, i: int) -> Option<String>
    decreases entries.len() - i,
{
    if i < 0 || i >= entries.len() {
        None
    } else if entries[i].id == id {
        Some(entries[i].proxy)
    } else {
        proxy_from(entries, id, i + 1)
    }
}

impl AccountRegistry {
    /// The proxy address of account `id`, if the registry knows it.
    pub open spec fn proxy_of(self, id: u32) -> Option<String> {
        proxy_from(self.entries@, id, 0)
    }

    pub fn proxy_address(&self, id: u32) -> (r: Option<String>)
        ensures
            r == self.proxy_of(id),
    {
        let mut i: usize = 0;
        while i < self.entries.len()
            invariant
                i <= self.entries@.len(),
                proxy_from(self.entries@, id, i as int) == self.proxy_of(id),
            decreases self.entries@.len() - i,
        {
            if self.entries[i].id == id {
                return Some(self.entries[i].proxy.clone());
            }
            i = i + 1;
        }
        None
    }
}

impl HostView {
    /// Whether the host accepted `addr` as a well-formed address.
    pub open spec fn accepts(self, addr: Seq<char>) -> bool {
        exists|i: int| 0 <= i < self.valid_addresses@.len() && (#[trigger] self.valid_addresses@[i])@ == addr
    }

    pub fn validate_address(&self, addr: &String) -> (r: bool)
        ensures
            r == self.accepts(addr@),
    {
        let mut i: usize = 0;
        while i < self.valid_addresses.len()
            invariant
                i <= self.valid_addresses@.len(),
                forall|j: int| 0 <= j < i ==> (#[trigger] self.valid_addresses@[j])@ != addr@,
            decreases self.valid_addresses@.len() - i,
        {
            if self.valid_addresses[i] == *addr {
                return true;
            }
            i = i + 1;
        }
        false
    }
}

} // verus!
