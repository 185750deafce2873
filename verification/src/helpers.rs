//! Device discovery and endpoint resolution.
//!
//! The descriptor tree a USB device exposes (configurations, interfaces,
//! alternate settings, endpoints) is modelled here as plain data, and the
//! exhaustive depth-first walk over it is verified against that model.
use vstd::prelude::*;

use crate::errors::DisplayError;
use vstd::string::StringExecFns;

verus! {

/// Vendor identity of the supported controller family.
pub const SUPPORTED_VENDOR_ID: u16 = 0x0fa8;

/// Product identity of the supported controller family.
pub const SUPPORTED_PRODUCT_ID: u16 = 0xa090;

/// The transfer type an endpoint descriptor declares.
#[derive(Debug, Clone, Copy, PartialEq, Eq, Structural)]
pub enum TransferKind {
    Control,
    Isochronous,
    Bulk,
    Interrupt,
}

/// The direction an endpoint descriptor declares.
#[derive(Debug, Clone, Copy, PartialEq, Eq, Structural)]
pub enum EndpointDirection {
    In,
    Out,
}

/// The vendor/product identity read from a device descriptor.
#[derive(Debug, Clone, Copy, PartialEq, Eq, Structural)]
pub struct DeviceIdentity {
    pub vendor_id: u16,
    pub product_id: u16,
}

/// The minimal addressing tuple needed to activate and write to one
/// endpoint.  Immutable once resolved.
#[derive(Debug, Clone, Copy, PartialEq, Eq, Structural)]
pub struct UsbEndpoint {
    pub config: u8,
    pub interface: u8,
    pub setting: u8,
    pub address: u8,
}

/// One endpoint descriptor: its raw address byte and the transfer it
/// offers.  The direction is carried by the top bit of the address, as the
/// USB specification defines it.
#[derive(Debug, Clone, Copy, PartialEq, Eq, Structural)]
pub struct EndpointDesc {
    pub address: u8,
    pub transfer_type: TransferKind,
}

/// The direction encoded in an endpoint address: bit 7 clear is host-to-
/// device (out), bit 7 set is device-to-host (in).
pub open spec fn spec_endpoint_direction(address: u8) -> EndpointDirection {
    if address & 0x80 == 0 {
        EndpointDirection::Out
    } else {
        EndpointDirection::In
    }
}

/// Read the direction bit of an endpoint address.
pub fn endpoint_direction(address: u8) -> (r: EndpointDirection)
    ensures
        r == spec_endpoint_direction(address),
{
    if address & 0x80 == 0 {
        EndpointDirection::Out
    } else {
        EndpointDirection::In
    }
}

/// One alternate setting of an interface, with its endpoint descriptors in
/// declaration order.
#[derive(Debug, Clone)]
pub struct AltSettingDesc {
    pub interface_number: u8,
    pub setting_number: u8,
    pub endpoints: Vec<EndpointDesc>,
}

/// One interface of a configuration, with its alternate settings in
/// declaration order.
#[derive(Debug, Clone)]
pub struct InterfaceDesc {
    pub alt_settings: Vec<AltSettingDesc>,
}

/// One configuration descriptor, with its interfaces in declaration order.
#[derive(Debug, Clone)]
pub struct ConfigDesc {
    pub number: u8,
    pub interfaces: Vec<InterfaceDesc>,
}

/// Whether an endpoint descriptor offers the requested transfer.
pub open spec fn spec_endpoint_matches(
    e: EndpointDesc,
    transfer_type: TransferKind,
    direction: EndpointDirection,
) -> bool {
    e.transfer_type == transfer_type && spec_endpoint_direction(e.address) == direction
}

/// The addressing tuple for a matching endpoint of the given setting.
pub open spec fn endpoint_at(config: u8, alt: AltSettingDesc, e: EndpointDesc) -> UsbEndpoint {
    UsbEndpoint {
        config,
        interface: alt.interface_number,
        setting: alt.setting_number,
        address: e.address,
    }
}

/// First matching endpoint of `alt` at or after position `i`, in
/// declaration order.
pub open spec fn resolve_endpoints(
    config: u8,
    alt: AltSettingDesc,
    i: int,
    transfer_type: TransferKind,
    direction: EndpointDirection,
) -> Option<UsbEndpoint>
    decreases alt.endpoints@.len() - i,
{
    if i < 0 || i >= alt.endpoints@.len() {
        None
    } else if spec_endpoint_matches(alt.endpoints@[i], transfer_type, direction) {
        Some(endpoint_at(config, alt, alt.endpoints@[i]))
    } else {
        resolve_endpoints(config, alt, i + 1, transfer_type, direction)
    }
}

/// First matching endpoint of one alternate setting.
pub open spec fn resolve_alt(
    config: u8,
    alt: AltSettingDesc,
    transfer_type: TransferKind,
    direction: EndpointDirection,
) -> Option<UsbEndpoint> {
    resolve_endpoints(config, alt, 0, transfer_type, direction)
}

/// First match over the alternate settings of one interface, at or after
/// position `i`: settings are tried in order, each setting's endpoints in
/// order.
pub open spec fn resolve_alts(
    config: u8,
    iface: InterfaceDesc,
    i: int,
    transfer_type: TransferKind,
    direction: EndpointDirection,
) -> Option<UsbEndpoint>
    decreases iface.alt_settings@.len() - i,
{
    if i < 0 || i >= iface.alt_settings@.len() {
        None
    } else if resolve_alt(config, iface.alt_settings@[i], transfer_type, direction) is Some {
        resolve_alt(config, iface.alt_settings@[i], transfer_type, direction)
    } else {
        resolve_alts(config, iface, i + 1, transfer_type, direction)
    }
}

/// First match over the interfaces of one configuration, at or after
/// position `i`.
pub open spec fn resolve_interfaces(
    cfg: ConfigDesc,
    i: int,
    transfer_type: TransferKind,
    direction: EndpointDirection,
) -> Option<UsbEndpoint>
    decreases cfg.interfaces@.len() - i,
{
    if i < 0 || i >= cfg.interfaces@.len() {
        None
    } else if resolve_alts(cfg.number, cfg.interfaces@[i], 0, transfer_type, direction) is Some {
        resolve_alts(cfg.number, cfg.interfaces@[i], 0, transfer_type, direction)
    } else {
        resolve_interfaces(cfg, i + 1, transfer_type, direction)
    }
}

/// First match inside one configuration.
pub open spec fn spec_resolve_config(
    cfg: ConfigDesc,
    transfer_type: TransferKind,
    direction: EndpointDirection,
) -> Option<UsbEndpoint> {
    resolve_interfaces(cfg, 0, transfer_type, direction)
}

/// First match over a sequence of configurations, at or after position `i`.
pub open spec fn resolve_configs(
    configs: Seq<ConfigDesc>,
    i: int,
    transfer_type: TransferKind,
    direction: EndpointDirection,
) -> Option<UsbEndpoint>
    decreases configs.len() - i,
{
    if i < 0 || i >= configs.len() {
        None
    } else if spec_resolve_config(configs[i], transfer_type, direction) is Some {
        spec_resolve_config(configs[i], transfer_type, direction)
    } else {
        resolve_configs(configs, i + 1, transfer_type, direction)
    }
}

/// The first endpoint matching the requested transfer type and direction,
/// in the defined nesting order: configurations outer, then interfaces,
/// then alternate settings, then endpoints.
pub open spec fn spec_resolve(
    configs: Seq<ConfigDesc>,
    transfer_type: TransferKind,
    direction: EndpointDirection,
) -> Option<UsbEndpoint> {
    resolve_configs(configs, 0, transfer_type, direction)
}

/// Whether some endpoint of one alternate setting offers the requested
/// transfer.
pub open spec fn alt_has_match(
    alt: AltSettingDesc,
    transfer_type: TransferKind,
    direction: EndpointDirection,
) -> bool {
    exists|k: int|
        0 <= k < alt.endpoints@.len() && #[trigger] spec_endpoint_matches(
            alt.endpoints@[k],
            transfer_type,
            direction,
        )
}

/// Whether some alternate setting of one interface contains a match.
pub open spec fn iface_has_match(
    iface: InterfaceDesc,
    transfer_type: TransferKind,
    direction: EndpointDirection,
) -> bool {
    exists|a: int|
        0 <= a < iface.alt_settings@.len() && #[trigger] alt_has_match(
            iface.alt_settings@[a],
            transfer_type,
            direction,
        )
}

/// Whether some interface of one configuration contains a match.
pub open spec fn config_has_match(
    cfg: ConfigDesc,
    transfer_type: TransferKind,
    direction: EndpointDirection,
) -> bool {
    exists|i: int|
        0 <= i < cfg.interfaces@.len() && #[trigger] iface_has_match(
            cfg.interfaces@[i],
            transfer_type,
            direction,
        )
}

/// Whether some configuration of the tree contains a match.
pub open spec fn tree_has_match(
    configs: Seq<ConfigDesc>,
    transfer_type: TransferKind,
    direction: EndpointDirection,
) -> bool {
    exists|c: int|
        0 <= c < configs.len() && #[trigger] config_has_match(configs[c], transfer_type, direction)
}

proof fn lemma_resolve_endpoints_none(
    config: u8,
    alt: AltSettingDesc,
    i: int,
    transfer_type: TransferKind,
    direction: EndpointDirection,
)
    requires
        0 <= i <= alt.endpoints@.len(),
    ensures
        resolve_endpoints(config, alt, i, transfer_type, direction) is None <==> (forall|k: int|
            i <= k < alt.endpoints@.len() ==> !(#[trigger] spec_endpoint_matches(
                alt.endpoints@[k],
                transfer_type,
                direction,
            ))),
    decreases alt.endpoints@.len() - i,
{
    if i < alt.endpoints@.len() {
        lemma_resolve_endpoints_none(config, alt, i + 1, transfer_type, direction);
    }
}

/// One alternate setting yields a result exactly when it contains a match.
proof fn lemma_alt_exhaustive(
    config: u8,
    alt: AltSettingDesc,
    transfer_type: TransferKind,
    direction: EndpointDirection,
)
    ensures
        resolve_alt(config, alt, transfer_type, direction) is None <==> !alt_has_match(
            alt,
            transfer_type,
            direction,
        ),
{
    lemma_resolve_endpoints_none(config, alt, 0, transfer_type, direction);
}

proof fn lemma_resolve_alts_none(
    config: u8,
    iface: InterfaceDesc,
    i: int,
    transfer_type: TransferKind,
    direction: EndpointDirection,
)
    requires
        0 <= i <= iface.alt_settings@.len(),
    ensures
        resolve_alts(config, iface, i, transfer_type, direction) is None <==> (forall|a: int|
            i <= a < iface.alt_settings@.len() ==> !(#[trigger] alt_has_match(
                iface.alt_settings@[a],
                transfer_type,
                direction,
            ))),
    decreases iface.alt_settings@.len() - i,
{
    if i < iface.alt_settings@.len() {
        lemma_alt_exhaustive(config, iface.alt_settings@[i], transfer_type, direction);
        lemma_resolve_alts_none(config, iface, i + 1, transfer_type, direction);
    }
}

/// One interface yields a result exactly when one of its settings does.
proof fn lemma_iface_exhaustive(
    config: u8,
    iface: InterfaceDesc,
    transfer_type: TransferKind,
    direction: EndpointDirection,
)
    ensures
        resolve_alts(config, iface, 0, transfer_type, direction) is None <==> !iface_has_match(
            iface,
            transfer_type,
            direction,
        ),
{
    lemma_resolve_alts_none(config, iface, 0, transfer_type, direction);
}

proof fn lemma_resolve_interfaces_none(
    cfg: ConfigDesc,
    i: int,
    transfer_type: TransferKind,
    direction: EndpointDirection,
)
    requires
        0 <= i <= cfg.interfaces@.len(),
    ensures
        resolve_interfaces(cfg, i, transfer_type, direction) is None <==> (forall|a: int|
            i <= a < cfg.interfaces@.len() ==> !(#[trigger] iface_has_match(
                cfg.interfaces@[a],
                transfer_type,
                direction,
            ))),
    decreases cfg.interfaces@.len() - i,
{
    if i < cfg.interfaces@.len() {
        lemma_iface_exhaustive(cfg.number, cfg.interfaces@[i], transfer_type, direction);
        lemma_resolve_interfaces_none(cfg, i + 1, transfer_type, direction);
    }
}

/// One configuration yields a result exactly when it contains a match.
proof fn lemma_config_exhaustive(
    cfg: ConfigDesc,
    transfer_type: TransferKind,
    direction: EndpointDirection,
)
    ensures
        spec_resolve_config(cfg, transfer_type, direction) is None <==> !config_has_match(
            cfg,
            transfer_type,
            direction,
        ),
{
    lemma_resolve_interfaces_none(cfg, 0, transfer_type, direction);
}

proof fn lemma_resolve_configs_none(
    configs: Seq<ConfigDesc>,
    i: int,
    transfer_type: TransferKind,
    direction: EndpointDirection,
)
    requires
        0 <= i <= configs.len(),
    ensures
        resolve_configs(configs, i, transfer_type, direction) is None <==> (forall|c: int|
            i <= c < configs.len() ==> !(#[trigger] config_has_match(
                configs[c],
                transfer_type,
                direction,
            ))),
    decreases configs.len() - i,
{
    if i < configs.len() {
        lemma_config_exhaustive(configs[i], transfer_type, direction);
        lemma_resolve_configs_none(configs, i + 1, transfer_type, direction);
    }
}

/// The walk is exhaustive: it reports no match exactly when no
/// configuration of the tree contains an endpoint of the requested
/// transfer type and direction.
pub proof fn lemma_find_endpoint_exhaustive(
    configs: Seq<ConfigDesc>,
    transfer_type: TransferKind,
    direction: EndpointDirection,
)
    ensures
        spec_resolve(configs, transfer_type, direction) is None <==> !tree_has_match(
            configs,
            transfer_type,
            direction,
        ),
{
    lemma_resolve_configs_none(configs, 0, transfer_type, direction);
}

proof fn lemma_resolve_configs_skips_to(
    configs: Seq<ConfigDesc>,
    i: int,
    c: int,
    transfer_type: TransferKind,
    direction: EndpointDirection,
)
    requires
        0 <= i <= c < configs.len(),
        config_has_match(configs[c], transfer_type, direction),
        forall|b: int|
            i <= b < c ==> !(#[trigger] config_has_match(configs[b], transfer_type, direction)),
    ensures
        resolve_configs(configs, i, transfer_type, direction) == spec_resolve_config(
            configs[c],
            transfer_type,
            direction,
        ),
    decreases c - i,
{
    lemma_config_exhaustive(configs[i], transfer_type, direction);
    if i < c {
        lemma_resolve_configs_skips_to(configs, i + 1, c, transfer_type, direction);
    }
}

/// Configurations are tried outermost: the result comes from the first
/// configuration that contains a match, whatever the later configurations
/// hold.
pub proof fn lemma_resolve_first_config(
    configs: Seq<ConfigDesc>,
    c: int,
    transfer_type: TransferKind,
    direction: EndpointDirection,
)
    requires
        0 <= c < configs.len(),
        config_has_match(configs[c], transfer_type, direction),
        forall|b: int|
            0 <= b < c ==> !(#[trigger] config_has_match(configs[b], transfer_type, direction)),
    ensures
        spec_resolve(configs, transfer_type, direction) == spec_resolve_config(
            configs[c],
            transfer_type,
            direction,
        ),
        spec_resolve(configs, transfer_type, direction) is Some,
{
    lemma_resolve_configs_skips_to(configs, 0, c, transfer_type, direction);
    lemma_config_exhaustive(configs[c], transfer_type, direction);
}

proof fn lemma_resolve_interfaces_skips_to(
    cfg: ConfigDesc,
    i: int,
    t: int,
    transfer_type: TransferKind,
    direction: EndpointDirection,
)
    requires
        0 <= i <= t < cfg.interfaces@.len(),
        iface_has_match(cfg.interfaces@[t], transfer_type, direction),
        forall|b: int|
            i <= b < t ==> !(#[trigger] iface_has_match(
                cfg.interfaces@[b],
                transfer_type,
                direction,
            )),
    ensures
        resolve_interfaces(cfg, i, transfer_type, direction) == resolve_alts(
            cfg.number,
            cfg.interfaces@[t],
            0,
            transfer_type,
            direction,
        ),
    decreases t - i,
{
    lemma_iface_exhaustive(cfg.number, cfg.interfaces@[i], transfer_type, direction);
    if i < t {
        lemma_resolve_interfaces_skips_to(cfg, i + 1, t, transfer_type, direction);
    }
}

/// Interfaces are tried next-outermost: within one configuration the
/// result comes from the first interface that contains a match.
pub proof fn lemma_resolve_first_interface(
    cfg: ConfigDesc,
    t: int,
    transfer_type: TransferKind,
    direction: EndpointDirection,
)
    requires
        0 <= t < cfg.interfaces@.len(),
        iface_has_match(cfg.interfaces@[t], transfer_type, direction),
        forall|b: int|
            0 <= b < t ==> !(#[trigger] iface_has_match(
                cfg.interfaces@[b],
                transfer_type,
                direction,
            )),
    ensures
        spec_resolve_config(cfg, transfer_type, direction) == resolve_alts(
            cfg.number,
            cfg.interfaces@[t],
            0,
            transfer_type,
            direction,
        ),
        spec_resolve_config(cfg, transfer_type, direction) is Some,
{
    lemma_resolve_interfaces_skips_to(cfg, 0, t, transfer_type, direction);
    lemma_iface_exhaustive(cfg.number, cfg.interfaces@[t], transfer_type, direction);
}

proof fn lemma_resolve_alts_skips_to(
    config: u8,
    iface: InterfaceDesc,
    i: int,
    t: int,
    transfer_type: TransferKind,
    direction: EndpointDirection,
)
    requires
        0 <= i <= t < iface.alt_settings@.len(),
        alt_has_match(iface.alt_settings@[t], transfer_type, direction),
        forall|b: int|
            i <= b < t ==> !(#[trigger] alt_has_match(
                iface.alt_settings@[b],
                transfer_type,
                direction,
            )),
    ensures
        resolve_alts(config, iface, i, transfer_type, direction) == resolve_alt(
            config,
            iface.alt_settings@[t],
            transfer_type,
            direction,
        ),
    decreases t - i,
{
    lemma_alt_exhaustive(config, iface.alt_settings@[i], transfer_type, direction);
    if i < t {
        lemma_resolve_alts_skips_to(config, iface, i + 1, t, transfer_type, direction);
    }
}

/// Alternate settings are tried next: within one interface the result
/// comes from the first alternate setting that contains a match.
pub proof fn lemma_resolve_first_alt(
    config: u8,
    iface: InterfaceDesc,
    t: int,
    transfer_type: TransferKind,
    direction: EndpointDirection,
)
    requires
        0 <= t < iface.alt_settings@.len(),
        alt_has_match(iface.alt_settings@[t], transfer_type, direction),
        forall|b: int|
            0 <= b < t ==> !(#[trigger] alt_has_match(
                iface.alt_settings@[b],
                transfer_type,
                direction,
            )),
    ensures
        resolve_alts(config, iface, 0, transfer_type, direction) == resolve_alt(
            config,
            iface.alt_settings@[t],
            transfer_type,
            direction,
        ),
        resolve_alts(config, iface, 0, transfer_type, direction) is Some,
{
    lemma_resolve_alts_skips_to(config, iface, 0, t, transfer_type, direction);
    lemma_alt_exhaustive(config, iface.alt_settings@[t], transfer_type, direction);
}

proof fn lemma_resolve_endpoints_skips_to(
    config: u8,
    alt: AltSettingDesc,
    i: int,
    k: int,
    transfer_type: TransferKind,
    direction: EndpointDirection,
)
    requires
        0 <= i <= k < alt.endpoints@.len(),
        spec_endpoint_matches(alt.endpoints@[k], transfer_type, direction),
        forall|m: int|
            i <= m < k ==> !(#[trigger] spec_endpoint_matches(
                alt.endpoints@[m],
                transfer_type,
                direction,
            )),
    ensures
        resolve_endpoints(config, alt, i, transfer_type, direction) == Some(
            endpoint_at(config, alt, alt.endpoints@[k]),
        ),
    decreases k - i,
{
    if i < k {
        lemma_resolve_endpoints_skips_to(config, alt, i + 1, k, transfer_type, direction);
    }
}

/// Endpoints are tried innermost, in declaration order: within one
/// alternate setting the first matching endpoint is the one reported.
pub proof fn lemma_resolve_alt_first_endpoint(
    config: u8,
    alt: AltSettingDesc,
    k: int,
    transfer_type: TransferKind,
    direction: EndpointDirection,
)
    requires
        0 <= k < alt.endpoints@.len(),
        spec_endpoint_matches(alt.endpoints@[k], transfer_type, direction),
        forall|m: int|
            0 <= m < k ==> !(#[trigger] spec_endpoint_matches(
                alt.endpoints@[m],
                transfer_type,
                direction,
            )),
    ensures
        resolve_alt(config, alt, transfer_type, direction) == Some(
            endpoint_at(config, alt, alt.endpoints@[k]),
        ),
{
    lemma_resolve_endpoints_skips_to(config, alt, 0, k, transfer_type, direction);
}

/// First matching endpoint of one alternate setting, by a scan in
/// declaration order.
fn search_alt(
    config: u8,
    alt: &AltSettingDesc,
    transfer_type: TransferKind,
    direction: EndpointDirection,
) -> (r: Option<UsbEndpoint>)
    ensures
        r == resolve_alt(config, *alt, transfer_type, direction),
{
    let n = alt.endpoints.len();
    let mut j: usize = 0;
    while j < n
        invariant
            j <= n,
            n == alt.endpoints@.len(),
            resolve_alt(config, *alt, transfer_type, direction) == resolve_endpoints(
                config,
                *alt,
                j as int,
                transfer_type,
                direction,
            ),
        decreases n - j,
    {
        let e = alt.endpoints[j];
        if e.transfer_type == transfer_type && endpoint_direction(e.address) == direction {
            return Some(
                UsbEndpoint {
                    config,
                    interface: alt.interface_number,
                    setting: alt.setting_number,
                    address: e.address,
                },
            );
        }
        j += 1;
    }
    None
}

/// First matching endpoint of one configuration: interfaces in order, each
/// interface's alternate settings in order.
fn search_config(cfg: &ConfigDesc, transfer_type: TransferKind, direction: EndpointDirection) -> (r:
    Option<UsbEndpoint>)
    ensures
        r == spec_resolve_config(*cfg, transfer_type, direction),
{
    let n = cfg.interfaces.len();
    let mut i: usize = 0;
    while i < n
        invariant
            i <= n,
            n == cfg.interfaces@.len(),
            spec_resolve_config(*cfg, transfer_type, direction) == resolve_interfaces(
                *cfg,
                i as int,
                transfer_type,
                direction,
            ),
        decreases n - i,
    {
        let iface = &cfg.interfaces[i];
        let m = iface.alt_settings.len();
        let mut a: usize = 0;
        while a < m
            invariant
                a <= m,
                i < n,
                n == cfg.interfaces@.len(),
                m == iface.alt_settings@.len(),
                *iface == cfg.interfaces@[i as int],
                spec_resolve_config(*cfg, transfer_type, direction) == resolve_interfaces(
                    *cfg,
                    i as int,
                    transfer_type,
                    direction,
                ),
                resolve_alts(cfg.number, *iface, 0, transfer_type, direction) == resolve_alts(
                    cfg.number,
                    *iface,
                    a as int,
                    transfer_type,
                    direction,
                ),
            decreases m - a,
        {
            let found = search_alt(cfg.number, &iface.alt_settings[a], transfer_type, direction);
            if found.is_some() {
                proof {
                    assert(resolve_alts(cfg.number, *iface, a as int, transfer_type, direction)
                        == found);
                    assert(resolve_interfaces(*cfg, i as int, transfer_type, direction) == found);
                }
                return found;
            }
            proof {
                assert(resolve_alts(cfg.number, *iface, a as int, transfer_type, direction)
                    == resolve_alts(cfg.number, *iface, a + 1, transfer_type, direction));
            }
            a += 1;
        }
        proof {
            assert(resolve_alts(cfg.number, cfg.interfaces@[i as int], 0, transfer_type, direction)
                is None);
            assert(resolve_interfaces(*cfg, i as int, transfer_type, direction)
                == resolve_interfaces(*cfg, i + 1, transfer_type, direction));
        }
        i += 1;
    }
    None
}

/// Find the first endpoint of the requested transfer type and direction in
/// a descriptor tree, by an exhaustive depth-first walk in the defined
/// nesting order; `None` when the walk exhausts all configurations.
pub fn find_endpoint(
    configs: &Vec<ConfigDesc>,
    transfer_type: TransferKind,
    direction: EndpointDirection,
) -> (r: Option<UsbEndpoint>)
    ensures
        r == spec_resolve(configs@, transfer_type, direction),
{
    let n = configs.len();
    let mut c: usize = 0;
    while c < n
        invariant
            c <= n,
            n == configs@.len(),
            spec_resolve(configs@, transfer_type, direction) == resolve_configs(
                configs@,
                c as int,
                transfer_type,
                direction,
            ),
        decreases n - c,
    {
        let found = search_config(&configs[c], transfer_type, direction);
        if found.is_some() {
            return found;
        }
        c += 1;
    }
    None
}

/// Whether a device descriptor carries the supported vendor/product
/// identity.
pub open spec fn spec_identity_matches(id: DeviceIdentity) -> bool {
    id.vendor_id == SUPPORTED_VENDOR_ID && id.product_id == SUPPORTED_PRODUCT_ID
}

/// Test a device identity against the fixed discovery filter.
pub fn identity_matches(id: &DeviceIdentity) -> (r: bool)
    ensures
        r == spec_identity_matches(*id),
{
    id.vendor_id == SUPPORTED_VENDOR_ID && id.product_id == SUPPORTED_PRODUCT_ID
}

/// Position of the first identity in `ids` that matches the discovery
/// filter: `Some` of the first matching position, `None` when no identity
/// matches.
pub fn first_match_index(ids: &Vec<DeviceIdentity>) -> (r: Option<usize>)
    ensures
        r matches Some(i) ==> i < ids@.len() && spec_identity_matches(ids@[i as int]) && (forall|
            j: int,
        | 0 <= j < i ==> !spec_identity_matches(ids@[j])),
        r is None <==> (forall|j: int| 0 <= j < ids@.len() ==> !spec_identity_matches(ids@[j])),
{
    let n = ids.len();
    let mut i: usize = 0;
    while i < n
        invariant
            i <= n,
            n == ids@.len(),
            forall|j: int| 0 <= j < i ==> !spec_identity_matches(ids@[j]),
        decreases n - i,
    {
        if identity_matches(&ids[i]) {
            return Some(i);
        }
        i += 1;
    }
    None
}


/// Walk a device's configuration descriptors in index order and return the
/// first endpoint matching the requested transfer, reading each
/// configuration only until a match is found.  A descriptor read failure
/// aborts the walk.
pub fn resolve_device_endpoint(
    device: &crate::usb::UsbDevice,
    num_configurations: u8,
    transfer_type: TransferKind,
    direction: EndpointDirection,
) -> (r: Result<Option<UsbEndpoint>, DisplayError>)
    ensures
        r matches Err(e) ==> e is DeviceFind,
{
    let mut n: u8 = 0;
    while n < num_configurations
        invariant
            n <= num_configurations,
        decreases num_configurations - n,
    {
        let cfg = match crate::usb::read_config_tree(device, n) {
            Ok(c) => c,
            Err(e) => {
                return Err(DisplayError::DeviceFind { source: e });
            },
        };
        let found = search_config(&cfg, transfer_type, direction);
        if found.is_some() {
            return Ok(found);
        }
        n += 1;
    }
    Ok(None)
}

/// Enumerate the bus and return the first device carrying the supported
/// vendor/product identity, in enumeration order; descriptors of the
/// devices after the match are not read.
pub fn find_first_device() -> (r: Result<crate::usb::UsbDevice, DisplayError>)
    ensures
        r matches Err(e) ==> (e is DeviceList || e is Descriptor || e is NoDevicesFound),
{
    let mut devices = match crate::usb::list_devices() {
        Ok(d) => d,
        Err(e) => {
            return Err(DisplayError::DeviceList { source: e });
        },
    };
    let n = devices.len();
    let mut i: usize = 0;
    while i < n
        invariant
            i <= n,
            n == devices@.len(),
        decreases n - i,
    {
        let id = match crate::usb::read_identity(&devices[i]) {
            Ok(id) => id,
            Err(e) => {
                return Err(DisplayError::Descriptor { source: e });
            },
        };
        if identity_matches(&id) {
            return Ok(devices.remove(i));
        }
        i += 1;
    }
    Err(DisplayError::NoDevicesFound)
}


/// The character for one digit value, decimal digits first, then the
/// lower-case hexadecimal letters.
pub open spec fn spec_digit_char(d: u8) -> char {
    if d == 0 { '0' } else if d == 1 { '1' } else if d == 2 { '2' } else if d == 3 { '3' }
    else if d == 4 { '4' } else if d == 5 { '5' } else if d == 6 { '6' } else if d == 7 { '7' }
    else if d == 8 { '8' } else if d == 9 { '9' } else if d == 10 { 'a' } else if d == 11 { 'b' }
    else if d == 12 { 'c' } else if d == 13 { 'd' } else if d == 14 { 'e' } else { 'f' }
}

/// One digit character.
fn digit_char(d: u8) -> (r: char)
    ensures
        r == spec_digit_char(d),
{
    if d == 0 { '0' } else if d == 1 { '1' } else if d == 2 { '2' } else if d == 3 { '3' }
    else if d == 4 { '4' } else if d == 5 { '5' } else if d == 6 { '6' } else if d == 7 { '7' }
    else if d == 8 { '8' } else if d == 9 { '9' } else if d == 10 { 'a' } else if d == 11 { 'b' }
    else if d == 12 { 'c' } else if d == 13 { 'd' } else if d == 14 { 'e' } else { 'f' }
}

/// A byte as exactly three decimal digits, zero-padded.
pub open spec fn dec3_chars(n: u8) -> Seq<char> {
    seq![
        spec_digit_char(n / 100),
        spec_digit_char((n / 10) % 10),
        spec_digit_char(n % 10),
    ]
}

/// A 16-bit value as exactly four lower-case hexadecimal digits,
/// zero-padded.
pub open spec fn hex4_chars(v: u16) -> Seq<char> {
    seq![
        spec_digit_char((v / 0x1000) as u8),
        spec_digit_char(((v / 0x100) % 16) as u8),
        spec_digit_char(((v / 16) % 16) as u8),
        spec_digit_char((v % 16) as u8),
    ]
}

/// Format a byte as three zero-padded decimal digits.
fn dec3(n: u8) -> (r: String)
    ensures
        r@ == dec3_chars(n),
{
    let mut out = String::new();
    crate::usb::push_char(&mut out, digit_char(n / 100));
    crate::usb::push_char(&mut out, digit_char((n / 10) % 10));
    crate::usb::push_char(&mut out, digit_char(n % 10));
    proof {
        assert(out@ =~= dec3_chars(n));
    }
    out
}

/// Format a 16-bit value as four zero-padded lower-case hex digits.
fn hex4(v: u16) -> (r: String)
    ensures
        r@ == hex4_chars(v),
{
    let mut out = String::new();
    crate::usb::push_char(&mut out, digit_char((v / 0x1000) as u8));
    crate::usb::push_char(&mut out, digit_char(((v / 0x100) % 16) as u8));
    crate::usb::push_char(&mut out, digit_char(((v / 16) % 16) as u8));
    crate::usb::push_char(&mut out, digit_char((v % 16) as u8));
    proof {
        assert(out@ =~= hex4_chars(v));
    }
    out
}

/// The vendor label used in a device description: the database name, or
/// "Unknown vendor" when the database has none.
pub open spec fn spec_vendor_label(name: Option<Seq<char>>) -> Seq<char> {
    match name {
        Some(s) => s,
        None => "Unknown vendor"@,
    }
}

/// The product label used in a device description: the database name, or
/// empty when the database has none.
pub open spec fn spec_product_label(name: Option<Seq<char>>) -> Seq<char> {
    match name {
        Some(s) => s,
        None => Seq::empty(),
    }
}

/// The full human-readable identification line for a device.
pub open spec fn device_string_chars(
    bus: u8,
    address: u8,
    vid: u16,
    pid: u16,
    vendor: Seq<char>,
    product: Seq<char>,
) -> Seq<char> {
    "Bus "@ + dec3_chars(bus) + " Device "@ + dec3_chars(address) + " ID "@ + hex4_chars(vid)
        + ":"@ + hex4_chars(pid) + " ("@ + vendor + " "@ + product + ")"@
}

/// Build the identification line for a device from its plain identity
/// values, looking the vendor and product names up in the public USB ID
/// database and applying the documented defaults.
pub fn describe_device(bus: u8, address: u8, vid: u16, pid: u16) -> (r: String)
    ensures
        r@ == device_string_chars(
            bus,
            address,
            vid,
            pid,
            spec_vendor_label(crate::usb::vendor_name_of(vid)),
            spec_product_label(crate::usb::product_name_of(vid, pid)),
        ),
{
    let vendor = crate::usb::vendor_name(vid);
    let product = crate::usb::product_name(vid, pid);
    let vendor_label: &str = match &vendor {
        Some(s) => s.as_str(),
        None => "Unknown vendor",
    };
    let product_label: &str = match &product {
        Some(s) => s.as_str(),
        None => "",
    };
    let mut out = String::new();
    out.append("Bus ");
    out.append(dec3(bus).as_str());
    out.append(" Device ");
    out.append(dec3(address).as_str());
    out.append(" ID ");
    out.append(hex4(vid).as_str());
    out.append(":");
    out.append(hex4(pid).as_str());
    out.append(" (");
    out.append(vendor_label);
    out.append(" ");
    out.append(product_label);
    out.append(")");
    proof {
        reveal_strlit("");
        assert(product_label@ == spec_product_label(crate::usb::product_name_of(vid, pid)));
        assert(out@ =~= device_string_chars(
            bus,
            address,
            vid,
            pid,
            spec_vendor_label(crate::usb::vendor_name_of(vid)),
            spec_product_label(crate::usb::product_name_of(vid, pid)),
        ));
    }
    out
}

/// Produce the human-readable identification line for an enumerated
/// device: bus and address, vendor/product ids, and the database names.
pub fn get_device_string(device: &crate::usb::UsbDevice) -> (r: Result<String, DisplayError>)
    ensures
        r matches Err(e) ==> e is Descriptor,
{
    let id = match crate::usb::read_identity(device) {
        Ok(id) => id,
        Err(e) => {
            return Err(DisplayError::Descriptor { source: e });
        },
    };
    let bus = crate::usb::bus_number(device);
    let address = crate::usb::device_address(device);
    Ok(describe_device(bus, address, id.vendor_id, id.product_id))
}

} // verus!
