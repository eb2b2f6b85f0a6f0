//! Walk of a device's configuration/interface/endpoint descriptor
//! tree.
//!
//! The tree is carried as plain data read off the device by the I/O
//! shell: one entry per configuration index, `None` where that
//! configuration's descriptor could not be read (such entries are
//! skipped, not fatal). The walk yields one record per endpoint, in
//! descriptor order.

use vstd::prelude::*;

verus! {

/// One endpoint found in the descriptor tree, tagged with the path
/// that leads to it.
#[derive(Debug, Clone, Copy, PartialEq, Eq, Structural)]
pub struct EndpointRecord {
    pub config: u8,
    pub iface: u8,
    pub setting: u8,
    pub address: u8,
}

/// One alternate setting of an interface: its interface number, its
/// setting number, and the addresses of its endpoints.
#[derive(Debug)]
pub struct AltSetting {
    pub iface_number: u8,
    pub setting_number: u8,
    pub endpoint_addresses: Vec<u8>,
}

/// One interface of a configuration, as its list of alternate-setting
/// descriptors.
#[derive(Debug)]
pub struct InterfaceDesc {
    pub alt_settings: Vec<AltSetting>,
}

/// One readable configuration descriptor.
#[derive(Debug)]
pub struct ConfigDesc {
    pub number: u8,
    pub interfaces: Vec<InterfaceDesc>,
}

/// A device's descriptor tree: one entry per configuration index,
/// `None` where the configuration descriptor could not be read.
#[derive(Debug)]
pub struct DeviceTree {
    pub configs: Vec<Option<ConfigDesc>>,
}

/// Records of the endpoints of one alternate setting, in descriptor
/// order.
pub open spec fn records_of_addresses(cfg: u8, ifn: u8, setn: u8, addrs: Seq<u8>) -> Seq<
    EndpointRecord,
>
    decreases addrs.len(),
{
    if addrs.len() == 0 {
        Seq::empty()
    } else {
        records_of_addresses(cfg, ifn, setn, addrs.drop_last()).push(
            EndpointRecord { config: cfg, iface: ifn, setting: setn, address: addrs.last() },
        )
    }
}

/// Records of all alternate settings of one configuration's
/// interfaces, flattened in descriptor order.
pub open spec fn records_of_alt_settings(cfg: u8, alts: Seq<AltSetting>) -> Seq<EndpointRecord>
    decreases alts.len(),
{
    if alts.len() == 0 {
        Seq::empty()
    } else {
        records_of_alt_settings(cfg, alts.drop_last()) + records_of_addresses(
            cfg,
            alts.last().iface_number,
            alts.last().setting_number,
            alts.last().endpoint_addresses@,
        )
    }
}

/// Records of a configuration's interfaces, flattened in descriptor
/// order.
pub open spec fn records_of_interfaces(cfg: u8, ifaces: Seq<InterfaceDesc>) -> Seq<EndpointRecord>
    decreases ifaces.len(),
{
    if ifaces.len() == 0 {
        Seq::empty()
    } else {
        records_of_interfaces(cfg, ifaces.drop_last()) + records_of_alt_settings(
            cfg,
            ifaces.last().alt_settings@,
        )
    }
}

/// Records of a whole descriptor tree; unreadable configurations
/// contribute nothing.
pub open spec fn records_of_configs(cfgs: Seq<Option<ConfigDesc>>) -> Seq<EndpointRecord>
    decreases cfgs.len(),
{
    if cfgs.len() == 0 {
        Seq::empty()
    } else {
        records_of_configs(cfgs.drop_last()) + (match cfgs.last() {
            Option::None => Seq::<EndpointRecord>::empty(),
            Option::Some(c) => records_of_interfaces(c.number, c.interfaces@),
        })
    }
}

/// All endpoint records a device's descriptor tree yields, in
/// descriptor order.
pub open spec fn device_records(tree: DeviceTree) -> Seq<EndpointRecord> {
    records_of_configs(tree.configs@)
}

/// Walk the descriptor tree and emit one record per endpoint, in
/// descriptor order, skipping unreadable configurations. The result is
/// recomputed fresh on every call; nothing is cached.
pub fn find_readable_endpoints(tree: &DeviceTree) -> (r: Vec<EndpointRecord>)
    ensures
        r@ == device_records(*tree),
{
    let mut out: Vec<EndpointRecord> = Vec::new();
    let mut i: usize = 0;
    while i < tree.configs.len()
        invariant
            i <= tree.configs.len(),
            out@ == records_of_configs(tree.configs@.take(i as int)),
        decreases tree.configs.len() - i,
    {
        match &tree.configs[i] {
            Option::None => {},
            Option::Some(c) => {
                push_interface_records(&mut out, c.number, &c.interfaces);
            },
        }
        proof {
            assert(tree.configs@.take(i + 1).drop_last() =~= tree.configs@.take(i as int));
            assert(tree.configs@.take(i + 1).last() == tree.configs@[i as int]);
        }
        i = i + 1;
    }
    proof {
        assert(tree.configs@.take(tree.configs@.len() as int) =~= tree.configs@);
    }
    out
}

/// Append the records of one configuration's interfaces.
fn push_interface_records(out: &mut Vec<EndpointRecord>, cfg: u8, ifaces: &Vec<InterfaceDesc>)
    ensures
        final(out)@ == old(out)@ + records_of_interfaces(cfg, ifaces@),
{
    let ghost base: Seq<EndpointRecord> = out@;
    let mut i: usize = 0;
    while i < ifaces.len()
        invariant
            i <= ifaces.len(),
            out@ == base + records_of_interfaces(cfg, ifaces@.take(i as int)),
        decreases ifaces.len() - i,
    {
        push_alt_setting_records(out, cfg, &ifaces[i].alt_settings);
        proof {
            assert(ifaces@.take(i + 1).drop_last() =~= ifaces@.take(i as int));
            assert(ifaces@.take(i + 1).last() == ifaces@[i as int]);
        }
        i = i + 1;
    }
    proof {
        assert(ifaces@.take(ifaces@.len() as int) =~= ifaces@);
    }
}

/// Append the records of one interface's alternate settings.
fn push_alt_setting_records(out: &mut Vec<EndpointRecord>, cfg: u8, alts: &Vec<AltSetting>)
    ensures
        final(out)@ == old(out)@ + records_of_alt_settings(cfg, alts@),
{
    let ghost base: Seq<EndpointRecord> = out@;
    let mut i: usize = 0;
    while i < alts.len()
        invariant
            i <= alts.len(),
            out@ == base + records_of_alt_settings(cfg, alts@.take(i as int)),
        decreases alts.len() - i,
    {
        push_address_records(
            out,
            cfg,
            alts[i].iface_number,
            alts[i].setting_number,
            &alts[i].endpoint_addresses,
        );
        proof {
            assert(alts@.take(i + 1).drop_last() =~= alts@.take(i as int));
            assert(alts@.take(i + 1).last() == alts@[i as int]);
        }
        i = i + 1;
    }
    proof {
        assert(alts@.take(alts@.len() as int) =~= alts@);
    }
}

/// Append one record per endpoint address of one alternate setting.
fn push_address_records(
    out: &mut Vec<EndpointRecord>,
    cfg: u8,
    ifn: u8,
    setn: u8,
    addrs: &Vec<u8>,
)
    ensures
        final(out)@ == old(out)@ + records_of_addresses(cfg, ifn, setn, addrs@),
{
    let ghost base: Seq<EndpointRecord> = out@;
    let mut i: usize = 0;
    while i < addrs.len()
        invariant
            i <= addrs.len(),
            out@ == base + records_of_addresses(cfg, ifn, setn, addrs@.take(i as int)),
        decreases addrs.len() - i,
    {
        out.push(EndpointRecord { config: cfg, iface: ifn, setting: setn, address: addrs[i] });
        proof {
            assert(addrs@.take(i + 1).drop_last() =~= addrs@.take(i as int));
            assert(addrs@.take(i + 1).last() == addrs@[i as int]);
        }
        i = i + 1;
    }
    proof {
        assert(addrs@.take(addrs@.len() as int) =~= addrs@);
    }
}

} // verus!
