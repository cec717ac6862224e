use vstd::prelude::*;

use crate::error::AdapterError;

verus! {

/// A symbolic amount: a directory name and a quantity of it.
#[derive(Debug, Clone, PartialEq, Eq)]
pub struct AnsAsset {
    pub name: String,
    pub amount: u128,
}

/// A concrete amount of a native denomination, ready to be transferred.
#[derive(Debug, Clone, PartialEq, Eq)]
pub struct Coin {
    pub denom: String,
    pub amount: u128,
}

/// One entry of the name directory: a symbolic name and the denomination
/// (or address) it stands for.
#[derive(Debug, Clone, PartialEq, Eq)]
pub struct DirectoryEntry {
    pub name: String,
    pub denom: String,
}

/// The entries of the name directory that an invocation may need.
#[derive(Debug, Clone, PartialEq, Eq)]
pub struct NameDirectory {
    pub entries: Vec<DirectoryEntry>,
}

impl AnsAsset {
    pub fn new(name: String, amount: u128) -> (r: AnsAsset)
        ensures
            r.name == name,
            r.amount == amount,
    {
        AnsAsset { name, amount }
    }

    /// A copy whose fields are known to equal those of `self`.
    pub fn duplicate(&self) -> (r: AnsAsset)
        ensures
            r == *self,
    {
        AnsAsset { name: self.name.clone(), amount: self.amount }
    }
}

impl Coin {
    pub fn new(denom: String, amount: u128) -> (r: Coin)
        ensures
            r.denom == denom,
            r.amount == amount,
    {
        Coin { denom, amount }
    }
}

/// The denomination of the first entry at or after `i` named `name`.
pub open spec fn lookup_from(entries: Seq<DirectoryEntry>, name: Seq<char>, i: int) -> Option<
    Seq<char>,
>
    decreases entries.len() - i,
{
    if i < 0 || i >= entries.len() {
        None
    } else if entries[i].name@ == name {
        Some(entries[i].denom@)
    } else {
        lookup_from(entries, name, i + 1)
    }
}

impl NameDirectory {
    /// What the directory says `name` stands for; the first entry wins.
    pub open spec fn lookup(self, name: Seq<char>) -> Option<Seq<char>> {
        lookup_from(self.entries@, name, 0)
    }

    /// The coin that `asset` resolves to, if its name has an entry.
    pub open spec fn resolve_spec(self, asset: AnsAsset) -> Option<(Seq<char>, u128)> {
        match self.lookup(asset.name@) {
            Some(d) => Some((d, asset.amount)),
            None => None,
        }
    }

    /// Looks a symbolic name up.
    pub fn lookup_denom(&self, name: &String) -> (r: Option<String>)
        ensures
            r is Some == self.lookup(name@) is Some,
            r is Some ==> r->0@ == self.lookup(name@)->0,
    {
        let mut i: usize = 0;
        while i < self.entries.len()
            invariant
                i <= self.entries@.len(),
                lookup_from(self.entries@, name@, i as int) == self.lookup(name@),
            decreases self.entries@.len() - i,
        {
            if self.entries[i].name == *name {
                return Some(self.entries[i].denom.clone());
            }
            i = i + 1;
        }
        None
    }

    /// Resolves a symbolic amount into a concrete coin.
    pub fn resolve(&self, asset: &AnsAsset) -> (r: Result<Coin, AdapterError>)
        ensures
            r is Ok == self.resolve_spec(*asset) is Some,
            r is Ok ==> (r->Ok_0.denom@, r->Ok_0.amount) == self.resolve_spec(*asset)->0,
            r is Err ==> r->Err_0 == AdapterError::AssetResolutionFailed,
    {
        match self.lookup_denom(&asset.name) {
            Some(denom) => Ok(Coin::new(denom, asset.amount)),
            None => Err(AdapterError::AssetResolutionFailed),
        }
    }

    /// Whether every asset of `assets` has an entry.
    pub open spec fn resolves_all(self, assets: Seq<AnsAsset>) -> bool {
        forall|i: int| 0 <= i < assets.len() ==> (#[trigger] self.resolve_spec(assets[i])) is Some
    }

    /// `coins` are `assets` resolved one by one, in order.
    pub open spec fn resolved_as(self, assets: Seq<AnsAsset>, coins: Seq<Coin>) -> bool {
        &&& coins.len() == assets.len()
        &&& forall|i: int|
            0 <= i < assets.len() ==> Some((coins[i].denom@, coins[i].amount)) == #[trigger] self.resolve_spec(
                assets[i],
            )
    }

    /// Resolves every asset, failing on the first that has no entry.
    pub fn resolve_all(&self, assets: &Vec<AnsAsset>) -> (r: Result<Vec<Coin>, AdapterError>)
        ensures
            r is Ok == self.resolves_all(assets@),
            r is Ok ==> self.resolved_as(assets@, r->Ok_0@),
            r is Err ==> r->Err_0 == AdapterError::AssetResolutionFailed,
    {
        let mut coins: Vec<Coin> = Vec::new();
        let mut i: usize = 0;
        while i < assets.len()
            invariant
                i <= assets@.len(),
                self.resolved_as(assets@.subrange(0, i as int), coins@),
            decreases assets@.len() - i,
        {
            let coin = self.resolve(&assets[i]);
            match coin {
                Ok(c) => {
                    coins.push(c);
                },
                Err(e) => {
                    return Err(e);
                },
            }
            i = i + 1;
        }
        assert(assets@.subrange(0, assets@.len() as int) == assets@);
        Ok(coins)
    }
}

} // verus!
