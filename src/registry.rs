//! Address books consulted by the detectors: privileged precompiles and
//! deployments that exist on one chain only. They are plain data, so a
//! caller may supply its own.
use vstd::prelude::*;

verus! {

/// A named on-chain address.
#[derive(Clone, Debug)]
pub struct KnownAddress {
    pub address: String,
    pub name: String,
}

impl View for KnownAddress {
    type V = (Seq<char>, Seq<char>);

    open spec fn view(&self) -> (Seq<char>, Seq<char>) {
        (self.address@, self.name@)
    }
}

/// The (address, name) pairs of a sequence of entries.
pub open spec fn address_views(v: Seq<KnownAddress>) -> Seq<(Seq<char>, Seq<char>)> {
    v.map_values(|e: KnownAddress| e@)
}

impl KnownAddress {
    pub fn new(address: &str, name: &str) -> (r: KnownAddress)
        ensures
            r@ == (address@, name@),
    {
        KnownAddress { address: address.to_owned(), name: name.to_owned() }
    }
}

/// The address books of the detectors.
#[derive(Clone, Debug)]
pub struct Registry {
    /// Precompiles that act on staking state.
    pub staking_precompiles: Vec<KnownAddress>,
    /// Protocol deployments that exist on one chain only.
    pub chain_specific: Vec<KnownAddress>,
    /// Precompiles that a deployment target may or may not enable.
    pub optional_precompiles: Vec<KnownAddress>,
}

pub open spec fn standard_staking_precompiles() -> Seq<(Seq<char>, Seq<char>)> {
    seq![("0x0100000000000000000000000000000000000000"@, "P-Chain Handler"@)]
}

pub open spec fn standard_chain_specific() -> Seq<(Seq<char>, Seq<char>)> {
    seq![
        ("0x9Ad6C38BE94206cA50bb0d90783181662f0Cfa10"@, "Trader Joe V1 Router"@),
        ("0x60aE616a2155Ee3d9A68541Ba4544862310933d4"@, "Trader Joe V2 Router"@),
        ("0xE54Ca86531e17Ef3616d22Ca28b0D458b6C89106"@, "Pangolin Router"@),
        ("0xd00ae08403B959254dbA1188b832b412A4461b95"@, "Benqi Lending Market (qiAVAX)"@),
        ("0x2b2C81e08f1Af8835a78Bb2A90AE924ACE0eA4be"@, "Aave V2 Lending Pool"@),
    ]
}

pub open spec fn standard_optional_precompiles() -> Seq<(Seq<char>, Seq<char>)> {
    seq![
        ("0x0100000000000000000000000000000000000000"@, "P-Chain Handler"@),
        ("0x0200000000000000000000000000000000000000"@, "Contract Deployer Allow List"@),
        ("0x0200000000000000000000000000000000000001"@, "Contract Native Minter"@),
        ("0x0200000000000000000000000000000000000002"@, "Fee Manager"@),
    ]
}

impl Registry {
    /// The address books of the Avalanche C-Chain and its subnets.
    pub fn standard() -> (r: Registry)
        ensures
            address_views(r.staking_precompiles@) == standard_staking_precompiles(),
            address_views(r.chain_specific@) == standard_chain_specific(),
            address_views(r.optional_precompiles@) == standard_optional_precompiles(),
    {
        let mut staking: Vec<KnownAddress> = Vec::new();
        staking.push(KnownAddress::new("0x0100000000000000000000000000000000000000", "P-Chain Handler"));
        assert(address_views(staking@) =~= standard_staking_precompiles());

        let mut chain: Vec<KnownAddress> = Vec::new();
        chain.push(KnownAddress::new("0x9Ad6C38BE94206cA50bb0d90783181662f0Cfa10", "Trader Joe V1 Router"));
        chain.push(KnownAddress::new("0x60aE616a2155Ee3d9A68541Ba4544862310933d4", "Trader Joe V2 Router"));
        chain.push(KnownAddress::new("0xE54Ca86531e17Ef3616d22Ca28b0D458b6C89106", "Pangolin Router"));
        chain.push(KnownAddress::new("0xd00ae08403B959254dbA1188b832b412A4461b95", "Benqi Lending Market (qiAVAX)"));
        chain.push(KnownAddress::new("0x2b2C81e08f1Af8835a78Bb2A90AE924ACE0eA4be", "Aave V2 Lending Pool"));
        assert(address_views(chain@) =~= standard_chain_specific());

        let mut optional: Vec<KnownAddress> = Vec::new();
        optional.push(KnownAddress::new("0x0100000000000000000000000000000000000000", "P-Chain Handler"));
        optional.push(KnownAddress::new("0x0200000000000000000000000000000000000000", "Contract Deployer Allow List"));
        optional.push(KnownAddress::new("0x0200000000000000000000000000000000000001", "Contract Native Minter"));
        optional.push(KnownAddress::new("0x0200000000000000000000000000000000000002", "Fee Manager"));
        assert(address_views(optional@) =~= standard_optional_precompiles());

        Registry { staking_precompiles: staking, chain_specific: chain, optional_precompiles: optional }
    }
}

} // verus!
