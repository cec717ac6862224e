use vstd::prelude::*;

use crate::error::AdapterError;

verus! {

/// The venues this adapter knows, a closed registry fixed at compile time.
#[derive(Debug, Clone, Copy, PartialEq, Eq, Structural)]
pub enum Venue {
    Astroport,
    Junoswap,
    Terraswap,
    Wyndex,
    Osmosis,
}

/// The venue registered under `name`, if any.
pub open spec fn venue_named(name: Seq<char>) -> Option<Venue> {
    if name == "astroport"@ {
        Some(Venue::Astroport)
    } else if name == "junoswap"@ {
        Some(Venue::Junoswap)
    } else if name == "terraswap"@ {
        Some(Venue::Terraswap)
    } else if name == "wyndex"@ {
        Some(Venue::Wyndex)
    } else if name == "osmosis"@ {
        Some(Venue::Osmosis)
    } else {
        None
    }
}

/// The outcome of looking `name` up in the registry.
pub open spec fn identify_result(name: Seq<char>) -> Result<Venue, AdapterError> {
    match venue_named(name) {
        Some(v) => Ok(v),
        None => Err(AdapterError::VenueNotSupported),
    }
}

impl Venue {
    /// A venue is remote when it lives on another chain and is reached only
    /// through cross-chain messages.
    pub open spec fn spec_is_remote(self) -> bool {
        self is Osmosis
    }

    pub fn is_remote(&self) -> (r: bool)
        ensures
            r == self.spec_is_remote(),
    {
        match self {
            Venue::Osmosis => true,
            _ => false,
        }
    }
}

fn same_name(name: &String, registered: &str) -> (r: bool)
    ensures
        r == (name@ == registered@),
{
    let registered: String = registered.to_owned();
    *name == registered
}

/// Resolves a venue name against the registry.
pub fn identify_venue(name: &String) -> (r: Result<Venue, AdapterError>)
    ensures
        r == identify_result(name@),
{
    if same_name(name, "astroport") {
        Ok(Venue::Astroport)
    } else if same_name(name, "junoswap") {
        Ok(Venue::Junoswap)
    } else if same_name(name, "terraswap") {
        Ok(Venue::Terraswap)
    } else if same_name(name, "wyndex") {
        Ok(Venue::Wyndex)
    } else if same_name(name, "osmosis") {
        Ok(Venue::Osmosis)
    } else {
        Err(AdapterError::VenueNotSupported)
    }
}

} // verus!
