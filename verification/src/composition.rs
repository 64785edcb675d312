//! The composition of a node: who made it, what it supports and which
//! models each of its elements holds.
use vstd::prelude::*;
use crate::model::{CompanyIdentifier, ModelIdentifier};

verus! {

/// A vendor-assigned product identifier.
#[derive(PartialEq, Eq, Structural, Clone, Copy, Debug)]
pub struct ProductIdentifier(pub u16);

/// A vendor-assigned product version identifier.
#[derive(PartialEq, Eq, Structural, Clone, Copy, Debug)]
pub struct VersionIdentifier(pub u16);

/// Where an element sits, as a GATT namespace description.
#[derive(PartialEq, Eq, Structural, Clone, Copy, Debug)]
pub struct Location(pub u16);

/// The optional features a node supports.
#[derive(PartialEq, Eq, Structural, Clone, Copy, Debug)]
pub struct Features {
    pub relay: bool,
    pub proxy: bool,
    pub friend: bool,
    pub low_power: bool,
}

impl Features {
    /// The feature bits: relay, proxy, friend and low power from the least
    /// significant bit up.
    pub open spec fn spec_bits(self) -> u16 {
        ((if self.relay { 1int } else { 0int }) + (if self.proxy { 2int } else { 0int }) + (if self.friend {
            4int
        } else {
            0int
        }) + (if self.low_power { 8int } else { 0int })) as u16
    }

    /// The feature bits.
    pub fn bits(&self) -> (b: u16)
        ensures
            b == self.spec_bits(),
    {
        let mut val: u16 = 0;
        if self.relay {
            val = val + 1;
        }
        if self.proxy {
            val = val + 2;
        }
        if self.friend {
            val = val + 4;
        }
        if self.low_power {
            val = val + 8;
        }
        val
    }
}

/// One element of a node: its location and the models it holds.
pub struct ElementDescriptor {
    pub loc: Location,
    pub models: Vec<ModelIdentifier>,
}

/// The composition of a node.
pub struct Composition {
    pub cid: CompanyIdentifier,
    pub pid: ProductIdentifier,
    pub vid: VersionIdentifier,
    pub crpl: u16,
    pub features: Features,
    pub elements: Vec<ElementDescriptor>,
}

/// The SIG models among `ms`, in order.
pub open spec fn sig_models(ms: Seq<ModelIdentifier>) -> Seq<ModelIdentifier> {
    ms.filter(|m: ModelIdentifier| m is SIG)
}

/// The vendor models among `ms`, in order.
pub open spec fn vendor_models(ms: Seq<ModelIdentifier>) -> Seq<ModelIdentifier> {
    ms.filter(|m: ModelIdentifier| m is Vendor)
}

} // verus!
