//! Governance tokens and settings of the protocol.
use vstd::prelude::*;

use crate::ledger::{AssetClass, AssetName};

verus! {

/// The protocol's governance token.
#[derive(Clone, Copy, Debug, PartialEq, Eq, Hash)]
pub struct Splash;

/// Policy under which the governance token is minted.
pub const SPLASH_POLICY: [u8; 28] = [
    0xad, 0xf2, 0x42, 0x5c, 0x13, 0x81, 0x38, 0xef, 0xce, 0x80, 0xfd, 0x0b, 0x2e, 0xd8,
    0xf2, 0x27, 0xca, 0xf0, 0x52, 0xf9, 0xec, 0x44, 0xb8, 0xa9, 0x2e, 0x94, 0x2d, 0xfa,
];

/// The governance token as an asset class: name `SPLASH` under its policy.
pub fn splash_ac() -> (r: AssetClass)
    ensures
        match r {
            AssetClass::Token(policy, name) => {
                &&& policy == SPLASH_POLICY
                &&& name.len == 6
                &&& name.bytes@ == seq![0x53u8, 0x50, 0x4c, 0x41, 0x53, 0x48] + Seq::new(26, |i: int| 0u8)
            },
            AssetClass::Native => false,
        },
{
    let mut bytes = [0u8; 32];
    bytes[0] = 0x53;
    bytes[1] = 0x50;
    bytes[2] = 0x4c;
    bytes[3] = 0x41;
    bytes[4] = 0x53;
    bytes[5] = 0x48;
    let r = AssetClass::Token(SPLASH_POLICY, AssetName { len: 6, bytes });
    assert(bytes@ =~= seq![0x53u8, 0x50, 0x4c, 0x41, 0x53, 0x48] + Seq::new(26, |i: int| 0u8));
    r
}

/// Magic number of the network the node runs.
#[derive(Clone, Copy, Debug, PartialEq, Eq, Hash)]
pub struct NodeMagic(pub u64);

/// A token: minting policy and name.
#[derive(Clone, Copy, Debug, PartialEq, Eq, Hash)]
pub struct MintedToken {
    pub policy_id: [u8; 28],
    pub asset_name: AssetName,
}

/// The tokens minted when the protocol was deployed.
#[derive(Clone, Copy, Debug, PartialEq, Eq, Hash)]
pub struct MintedTokens {
    pub factory_auth: MintedToken,
    pub ve_factory_auth: MintedToken,
    pub edao_msig: MintedToken,
    pub perm_auth: MintedToken,
    pub gt: MintedToken,
}

/// The policies and names of every token the protocol uses.
#[derive(Clone, Copy, Debug, PartialEq, Eq, Hash)]
pub struct ProtocolTokens {
    pub splash_policy: [u8; 28],
    pub splash_name: AssetName,
    pub factory_auth_policy: [u8; 28],
    pub ve_factory_auth_policy: [u8; 28],
    pub ve_factory_auth_name: AssetName,
    pub edao_msig_policy: [u8; 28],
    pub perm_manager_auth_policy: [u8; 28],
    pub perm_manager_auth_name: AssetName,
    pub gt_policy: [u8; 28],
    pub gt_name: AssetName,
}

impl ProtocolTokens {
    pub fn from_minted_tokens(
        value: MintedTokens,
        splash_policy: [u8; 28],
        splash_name: AssetName,
    ) -> (r: ProtocolTokens)
        ensures
            r == (ProtocolTokens {
                splash_policy,
                splash_name,
                factory_auth_policy: value.factory_auth.policy_id,
                ve_factory_auth_policy: value.ve_factory_auth.policy_id,
                ve_factory_auth_name: value.ve_factory_auth.asset_name,
                edao_msig_policy: value.edao_msig.policy_id,
                perm_manager_auth_policy: value.perm_auth.policy_id,
                perm_manager_auth_name: value.perm_auth.asset_name,
                gt_policy: value.gt.policy_id,
                gt_name: value.gt.asset_name,
            }),
    {
        ProtocolTokens {
            splash_policy,
            splash_name,
            factory_auth_policy: value.factory_auth.policy_id,
            ve_factory_auth_policy: value.ve_factory_auth.policy_id,
            ve_factory_auth_name: value.ve_factory_auth.asset_name,
            edao_msig_policy: value.edao_msig.policy_id,
            perm_manager_auth_policy: value.perm_auth.policy_id,
            perm_manager_auth_name: value.perm_auth.asset_name,
            gt_policy: value.gt.policy_id,
            gt_name: value.gt.asset_name,
        }
    }
}

} // verus!
