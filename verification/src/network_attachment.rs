//! The microVM network attachment: its identity across a snapshot, and the
//! egress policy it is bound to.

use vstd::prelude::*;
use vstd::utf8::encode_utf8;

use crate::bytes::{bytes_of_text, same_bytes};
use crate::config::{MicrovmNetworkConfig, MicrovmNetworkProfile};
use crate::microvm_network::{
    derived_mac, lemma_network_spec_text, network_of, network_spec_text, usable_guest,
};
use crate::net::Ipv4Address;
use crate::numeral::push_decimal;
use crate::refusal::{refusal_of, refuse, Refusal};
use crate::snapshot::{
    find_attachment, has_device, Attachment, SavedNetwork, SnapshotAttachment,
    SnapshotMachineContract, SnapshotMicrovmNetwork,
};
use crate::text::same_text;

verus! {

pub const MICROVM_NETWORK_STABLE_ID: &'static str = "net:microvm0";

/// An egress policy bound to a network identity. Its rules are the packet
/// filter's own; here it is known by the next hops it permits and whether the
/// gateway answers name queries.
#[derive(Debug)]
pub struct EgressPolicy {
    pub next_hops: Vec<Ipv4Address>,
    pub allows_gateway_dns: bool,
}

/// What a snapshot records of the network endpoint.
pub open spec fn network_attachment() -> Attachment {
    Attachment {
        stable_id: MICROVM_NETWORK_STABLE_ID@,
        kind: "virtio-net"@,
        required: false,
        reconnect_policy: "recreate-endpoint"@,
        identity_kind: "user-mode-nat"@,
        identity: encode_utf8("consomme"@),
        length: 0,
        reconnect_timeout_ms: 0,
    }
}

/// The attachment of the user-mode network.
pub fn microvm_network_attachment() -> (r: SnapshotAttachment)
    ensures
        r@ == network_attachment(),
{
    SnapshotAttachment {
        stable_id: MICROVM_NETWORK_STABLE_ID.to_owned(),
        kind: "virtio-net".to_owned(),
        required: false,
        reconnect_policy: "recreate-endpoint".to_owned(),
        identity_kind: "user-mode-nat".to_owned(),
        identity: bytes_of_text("consomme"),
        length: 0,
        reconnect_timeout_ms: 0,
    }
}

/// Why a saved network identity is refused, if it is.
pub open spec fn saved_network_refusal(saved: SavedNetwork) -> Option<Seq<char>> {
    let guest = saved.guest_ipv4;
    let prefix = saved.prefix_length;
    if prefix > 255 {
        Some("snapshot network prefix does not fit in u8"@)
    } else if !(1 <= prefix <= 30 && usable_guest(guest, prefix)) {
        Some("snapshot static network identity is invalid"@)
    } else if saved.gateway_ipv4 != network_of(guest, prefix) + 1 || saved.guest_mac
        != derived_mac(guest) || saved.gateway_mac != derived_mac(saved.gateway_ipv4) {
        Some("snapshot static network identity is not canonical"@)
    } else {
        None
    }
}

/// What a snapshot records of a network identity, whatever its policy.
pub open spec fn records_network(saved: SavedNetwork, config: MicrovmNetworkConfig) -> bool {
    &&& saved.guest_ipv4 == config.guest_ipv4.bits
    &&& saved.prefix_length == config.prefix_length
    &&& saved.gateway_ipv4 == config.derived_gateway_ipv4.bits
    &&& saved.guest_mac == config.guest_mac.octets@
    &&& saved.gateway_mac == config.gateway_mac.octets@
}

/// Reads the network identity of a snapshot.
pub fn microvm_network_from_snapshot(saved: &SnapshotMicrovmNetwork) -> (r: Result<
    MicrovmNetworkConfig,
    Refusal,
>)
    ensures
        refusal_of(r) == saved_network_refusal(saved@),
        r is Ok ==> r->Ok_0.wf() && records_network(saved@, r->Ok_0) && r->Ok_0.profile
            == MicrovmNetworkProfile::Portable,
{
    if saved.prefix_length > 255 {
        return Err(refuse("snapshot network prefix does not fit in u8"));
    }
    let guest = Ipv4Address { bits: saved.guest_ipv4 };
    let mut spec = guest.to_text();
    spec.push('/');
    push_decimal(&mut spec, saved.prefix_length as u128);
    proof {
        assert(spec@ =~= network_spec_text(
            saved.guest_ipv4 as nat,
            saved.prefix_length as nat,
        ));
        lemma_network_spec_text(saved.guest_ipv4 as nat, saved.prefix_length as nat);
    }
    let config = match MicrovmNetworkConfig::from_str(spec.as_str()) {
        Ok(config) => config,
        Err(_e) => return Err(refuse("snapshot static network identity is invalid")),
    };
    if saved.gateway_ipv4 != config.derived_gateway_ipv4.bits || !same_bytes(
        saved.guest_mac.as_slice(),
        config.guest_mac.octets.as_slice(),
    ) || !same_bytes(saved.gateway_mac.as_slice(), config.gateway_mac.octets.as_slice()) {
        return Err(refuse("snapshot static network identity is not canonical"));
    }
    Ok(config)
}

/// The record of a consistent identity is accepted on restore, and no other
/// identity is recorded alike.
pub proof fn law_network_survives_snapshot(
    saved: SavedNetwork,
    config: MicrovmNetworkConfig,
    restored: MicrovmNetworkConfig,
)
    requires
        config.wf(),
        records_network(saved, config),
        records_network(saved, restored),
    ensures
        saved_network_refusal(saved) is None,
        restored == config,
{
    assert(restored.guest_mac.octets@ == config.guest_mac.octets@);
    assert(restored.gateway_mac.octets@ == config.gateway_mac.octets@);
    assert(restored.guest_mac.octets =~= config.guest_mac.octets);
    assert(restored.gateway_mac.octets =~= config.gateway_mac.octets);
}

/// A network interface of the command line, as far as a microVM reads it.
#[derive(Clone, Copy, Debug)]
pub enum MicrovmNetRequest {
    /// A static identity.
    Microvm(MicrovmNetworkConfig),
    /// Any other endpoint.
    Other,
}

/// The network options of a microVM.
#[derive(Debug)]
pub struct MicrovmNetworkOptions {
    pub net: Vec<MicrovmNetRequest>,
    pub network_profile: Option<MicrovmNetworkProfile>,
    pub net_tap: bool,
    /// How many allowed hosts, blocked hosts, and allowed endpoints are listed.
    pub allow_host: usize,
    pub block_host: usize,
    pub allow_endpoint: usize,
}

/// What the packet filter answered: the policy bound to the identity, and
/// whether it is the policy of the snapshot.
#[derive(Debug)]
pub struct PolicyBinding {
    pub policy: Result<EgressPolicy, Refusal>,
    pub snapshot_check: Result<(), Refusal>,
}

/// The network of a machine that is about to start.
#[derive(Debug)]
pub struct EffectiveMicrovmNetwork {
    pub config: MicrovmNetworkConfig,
    pub policy: EgressPolicy,
    pub attachment: SnapshotAttachment,
}

/// The identity that a machine's network would have, before any policy is bound
/// to it; no identity means no network.
pub open spec fn network_plan_refusal(
    opt: MicrovmNetworkOptions,
    restore: Option<SnapshotMachineContract>,
) -> Option<Seq<char>> {
    if opt.net@.len() > 1 {
        Some("microVM permits at most one virtio-net device"@)
    } else if opt.net@.len() == 1 && opt.net@[0] is Other {
        Some("microVM --net was not validated as a static IPv4 identity"@)
    } else {
        match restore {
            None => None,
            Some(contract) => {
                let device = has_device(contract.devices@, MICROVM_NETWORK_STABLE_ID@);
                let saved = find_attachment(contract.attachments@, MICROVM_NETWORK_STABLE_ID@);
                if opt.net@.len() > 0 {
                    Some("restore takes microVM network addressing from saved state"@)
                } else if device != contract.microvm_network is Some || device != saved is Some {
                    Some(
                        "snapshot microVM network device, identity, and attachment inventories disagree"@,
                    )
                } else {
                    match contract.microvm_network {
                        None => if opt.network_profile is Some || opt.net_tap || opt.allow_host
                            > 0 || opt.block_host > 0 || opt.allow_endpoint > 0 {
                            Some(
                                "restore-time network resources cannot be added to a snapshot without a NIC"@,
                            )
                        } else {
                            None
                        },
                        Some(network) => if network.profile@
                            != MicrovmNetworkProfile::Portable.spelling() {
                            Some("snapshot microVM network profile is unsupported"@)
                        } else if opt.network_profile is None {
                            Some(
                                "networked microVM snapshot restore requires --network-profile portable"@,
                            )
                        } else {
                            saved_network_refusal(network@)
                        },
                    }
                }
            },
        }
    }
}

/// The identity is the one asked for on a fresh boot, and the one recorded on a
/// restore.
pub open spec fn is_planned_network(
    opt: MicrovmNetworkOptions,
    restore: Option<SnapshotMachineContract>,
    plan: Option<MicrovmNetworkConfig>,
) -> bool {
    match restore {
        None => plan == if opt.net@.len() == 0 {
            None
        } else {
            Some(opt.net@[0]->Microvm_0)
        },
        Some(contract) => match contract.microvm_network {
            None => plan is None,
            Some(network) => plan is Some && plan->0.wf() && records_network(network@, plan->0)
                && plan->0.profile == MicrovmNetworkProfile::Portable,
        },
    }
}

/// The identity that a policy has to be bound to.
pub fn planned_microvm_network(
    opt: &MicrovmNetworkOptions,
    restore: Option<&SnapshotMachineContract>,
) -> (r: Result<Option<MicrovmNetworkConfig>, Refusal>)
    ensures
        ({
            let contract = match restore {
                Some(c) => Some(*c),
                None => None,
            };
            &&& refusal_of(r) == network_plan_refusal(*opt, contract)
            &&& r is Ok ==> is_planned_network(*opt, contract, r->Ok_0)
        }),
{
    if opt.net.len() > 1 {
        return Err(refuse("microVM permits at most one virtio-net device"));
    }
    let mut requested: Option<MicrovmNetworkConfig> = None;
    if opt.net.len() == 1 {
        match opt.net[0] {
            MicrovmNetRequest::Microvm(config) => {
                requested = Some(config);
            },
            MicrovmNetRequest::Other => {
                return Err(
                    refuse("microVM --net was not validated as a static IPv4 identity"),
                );
            },
        }
    }
    let contract = match restore {
        Some(contract) => contract,
        None => return Ok(requested),
    };
    if requested.is_some() {
        return Err(refuse("restore takes microVM network addressing from saved state"));
    }
    let device = contract.has_device(MICROVM_NETWORK_STABLE_ID);
    let saved = contract.attachment(MICROVM_NETWORK_STABLE_ID);
    if device != contract.microvm_network.is_some() || device != saved.is_some() {
        return Err(
            refuse(
                "snapshot microVM network device, identity, and attachment inventories disagree",
            ),
        );
    }
    match &contract.microvm_network {
        None => {
            if opt.network_profile.is_some() || opt.net_tap || opt.allow_host > 0
                || opt.block_host > 0 || opt.allow_endpoint > 0 {
                return Err(
                    refuse(
                        "restore-time network resources cannot be added to a snapshot without a NIC",
                    ),
                );
            }
            Ok(None)
        },
        Some(network) => {
            if !same_text(network.profile.as_str(), MicrovmNetworkProfile::Portable.as_str()) {
                return Err(refuse("snapshot microVM network profile is unsupported"));
            }
            if opt.network_profile.is_none() {
                return Err(
                    refuse(
                        "networked microVM snapshot restore requires --network-profile portable",
                    ),
                );
            }
            match microvm_network_from_snapshot(network) {
                Ok(config) => Ok(Some(config)),
                Err(e) => Err(e),
            }
        },
    }
}

/// Why a machine has no network although one was planned, if it has none: the
/// policy could not be bound, it is not the snapshot's, or the recorded endpoint
/// is another one.
pub open spec fn network_binding_refusal(
    restore: Option<SnapshotMachineContract>,
    binding: PolicyBinding,
) -> Option<Seq<char>> {
    match binding.policy {
        Err(e) => Some(e@),
        Ok(_) => match restore {
            None => None,
            Some(contract) => match binding.snapshot_check {
                Err(e) => Some(e@),
                Ok(()) => if find_attachment(
                    contract.attachments@,
                    MICROVM_NETWORK_STABLE_ID@,
                ) != Some(network_attachment()) {
                    Some(
                        "restore-time network endpoint does not match the snapshot attachment"@,
                    )
                } else {
                    None
                },
            },
        },
    }
}

/// Why a machine cannot have the network that its options and its snapshot call
/// for, if it cannot. Where they call for none, nothing is bound.
pub open spec fn network_refusal(
    opt: MicrovmNetworkOptions,
    restore: Option<SnapshotMachineContract>,
    binding: PolicyBinding,
) -> Option<Seq<char>> {
    if network_plan_refusal(opt, restore) is Some {
        network_plan_refusal(opt, restore)
    } else if is_planned_network(opt, restore, None) {
        None
    } else {
        network_binding_refusal(restore, binding)
    }
}

/// The network is the planned one, with the policy that was bound to it.
pub open spec fn is_network(
    network: Option<EffectiveMicrovmNetwork>,
    opt: MicrovmNetworkOptions,
    restore: Option<SnapshotMachineContract>,
    binding: PolicyBinding,
) -> bool {
    match network {
        None => is_planned_network(opt, restore, None),
        Some(network) => {
            &&& is_planned_network(opt, restore, Some(network.config))
            &&& binding.policy == Ok::<EgressPolicy, Refusal>(network.policy)
            &&& network.attachment@ == network_attachment()
        },
    }
}

/// Decides the network of a machine, given what the packet filter made of the
/// planned identity.
pub fn effective_microvm_network(
    opt: &MicrovmNetworkOptions,
    restore: Option<&SnapshotMachineContract>,
    binding: PolicyBinding,
) -> (r: Result<Option<EffectiveMicrovmNetwork>, Refusal>)
    ensures
        ({
            let contract = match restore {
                Some(c) => Some(*c),
                None => None,
            };
            &&& refusal_of(r) == network_refusal(*opt, contract, binding)
            &&& r is Ok ==> is_network(r->Ok_0, *opt, contract, binding)
        }),
{
    let config = match planned_microvm_network(opt, restore) {
        Ok(Some(config)) => config,
        Ok(None) => return Ok(None),
        Err(e) => return Err(e),
    };
    let policy = match binding.policy {
        Ok(policy) => policy,
        Err(e) => return Err(e),
    };
    let attachment = microvm_network_attachment();
    if let Some(contract) = restore {
        if let Err(e) = binding.snapshot_check {
            return Err(e);
        }
        let same: bool = match contract.attachment(MICROVM_NETWORK_STABLE_ID) {
            Some(saved) => saved.same(&attachment),
            None => false,
        };
        if !same {
            return Err(
                refuse("restore-time network endpoint does not match the snapshot attachment"),
            );
        }
    }
    Ok(Some(EffectiveMicrovmNetwork { config, policy, attachment }))
}

/// A restored machine has a network exactly when its snapshot records one.
pub proof fn law_restore_neither_adds_nor_drops_network(
    opt: MicrovmNetworkOptions,
    contract: SnapshotMachineContract,
    plan: Option<MicrovmNetworkConfig>,
)
    requires
        network_plan_refusal(opt, Some(contract)) is None,
        is_planned_network(opt, Some(contract), plan),
    ensures
        plan is Some <==> contract.microvm_network is Some,
        plan is Some <==> has_device(contract.devices@, MICROVM_NETWORK_STABLE_ID@),
{
}

} // verus!
