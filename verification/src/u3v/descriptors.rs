//! Recognition of a `USB3 Vision` device from its USB descriptors: the interface association
//! descriptor, the control, event and stream interfaces, and the device info descriptor. The
//! descriptors are held as plain values.

use vstd::prelude::*;

use crate::bytes::le16;
use crate::common::Version;

use super::{BusSpeed, Error};

verus! {

/// Class code of a miscellaneous device.
pub const MISCELLANEOUS_CLASS: u8 = 0xEF;

/// Descriptor type of an interface association descriptor.
pub const IAD_DESC_TYPE: u8 = 0x0B;

/// Function protocol of a `USB3 Vision` interface association.
pub const IAD_FUNCTION_PROTOCOL: u8 = 0x00;

/// Subclass code of `USB3 Vision`.
pub const USB3V_SUBCLASS: u8 = 0x05;

/// Direction of an endpoint.
#[derive(Clone, Copy, Debug, PartialEq, Eq, Structural)]
pub enum Direction {
    In,
    Out,
}

/// Transfer type of an endpoint.
#[derive(Clone, Copy, Debug, PartialEq, Eq, Structural)]
pub enum TransferType {
    Control,
    Isochronous,
    Bulk,
    Interrupt,
}

/// An endpoint descriptor.
#[derive(Clone, Debug)]
pub struct EndpointDesc {
    pub address: u8,
    pub direction: Direction,
    pub transfer_type: TransferType,
    /// The raw bytes of the descriptor and of those that follow it.
    pub bytes: Vec<u8>,
}

/// An alternate setting of an interface.
#[derive(Clone, Debug)]
pub struct InterfaceDesc {
    pub interface_number: u8,
    pub alternate_setting: u8,
    pub class: u8,
    pub subclass: u8,
    pub protocol: u8,
    /// The endpoint count that the descriptor states.
    pub num_endpoints: u8,
    /// The endpoint descriptors that follow it.
    pub endpoints: Vec<EndpointDesc>,
    /// The raw bytes of the descriptor and of those that follow it.
    pub bytes: Vec<u8>,
}

/// An interface with its alternate settings.
#[derive(Clone, Debug)]
pub struct InterfaceGroup {
    pub interface_number: u8,
    pub alt_settings: Vec<InterfaceDesc>,
}

/// A configuration descriptor.
#[derive(Clone, Debug)]
pub struct ConfigDesc {
    pub configuration_value: u8,
    /// The raw bytes of the descriptors of the configuration.
    pub bytes: Vec<u8>,
    pub interfaces: Vec<InterfaceGroup>,
}

/// Interface association descriptor.
#[derive(Clone, Copy, Debug, PartialEq, Eq, Structural)]
pub struct Iad {
    pub length: u8,
    pub descriptor_type: u8,
    pub first_interface: u8,
    pub interface_count: u8,
    pub function_class: u8,
    pub function_subclass: u8,
    pub function_protocol: u8,
    pub function: u8,
}

/// The association descriptor found by walking the descriptors of `b` from `read` on: each
/// descriptor starts with its length; a length of 0, a descriptor that runs past the end or
/// fewer than 8 bytes left end the walk; the first one of the association type is taken.
pub open spec fn iad_scan(b: Seq<u8>, read: int) -> Option<Iad>
    decreases b.len() - read,
{
    if read < 0 || read + 8 > b.len() || b[read] == 0 {
        None
    } else if b[read] == 1 {
        iad_scan(b, read + 1)
    } else if read + b[read] > b.len() {
        None
    } else if b[read + 1] != IAD_DESC_TYPE {
        iad_scan(b, read + b[read])
    } else {
        Some(
            Iad {
                length: b[read],
                descriptor_type: b[read + 1],
                first_interface: b[read + 2],
                interface_count: b[read + 3],
                function_class: b[read + 4],
                function_subclass: b[read + 5],
                function_protocol: b[read + 6],
                function: b[read + 7],
            },
        )
    }
}

/// The association is the one of a `USB3 Vision` function.
pub open spec fn iad_is_u3v(iad: Iad) -> bool {
    iad.function_class == MISCELLANEOUS_CLASS && iad.function_subclass == USB3V_SUBCLASS
        && iad.function_protocol == IAD_FUNCTION_PROTOCOL
}

/// `b` holds a `USB3 Vision` association descriptor.
pub open spec fn u3v_iad_in(b: Seq<u8>) -> bool {
    iad_scan(b, 0) matches Some(iad) && iad_is_u3v(iad)
}

impl Iad {
    /// The first association descriptor in `bytes`, as [`iad_scan`] walks them.
    pub fn from_bytes(bytes: &[u8]) -> (r: Option<Iad>)
        ensures
            r == iad_scan(bytes@, 0),
    {
        let mut read: usize = 0;
        let len = bytes.len();
        while read <= len && len - read >= 8
            invariant
                len == bytes@.len(),
                read <= len,
                iad_scan(bytes@, read as int) == iad_scan(bytes@, 0),
            decreases len - read,
        {
            let desc_length = bytes[read];
            if desc_length == 0 {
                return None;
            } else if desc_length == 1 {
                read = read + 1;
                continue;
            }
            if desc_length as usize > len - read {
                return None;
            }
            let descriptor_type = bytes[read + 1];
            if descriptor_type != IAD_DESC_TYPE {
                read = read + desc_length as usize;
                continue;
            }
            return Some(
                Iad {
                    length: desc_length,
                    descriptor_type,
                    first_interface: bytes[read + 2],
                    interface_count: bytes[read + 3],
                    function_class: bytes[read + 4],
                    function_subclass: bytes[read + 5],
                    function_protocol: bytes[read + 6],
                    function: bytes[read + 7],
                },
            );
        }
        None
    }

    /// Whether the association is the one of a `USB3 Vision` function.
    pub fn is_u3v(&self) -> (r: bool)
        ensures
            r == iad_is_u3v(*self),
    {
        self.function_class == MISCELLANEOUS_CLASS && self.function_subclass == USB3V_SUBCLASS
            && self.function_protocol == IAD_FUNCTION_PROTOCOL
    }
}

/// The `USB3 Vision` association descriptor in `bytes`, if any.
fn u3v_iad_of(bytes: &[u8]) -> (r: Option<Iad>)
    ensures
        r is Some <==> u3v_iad_in(bytes@),
        r matches Some(iad) ==> Some(iad) == iad_scan(bytes@, 0),
{
    match Iad::from_bytes(bytes) {
        Some(iad) => if iad.is_u3v() {
            Some(iad)
        } else {
            None
        },
        None => None,
    }
}

/// No descriptor of the configuration holds a `USB3 Vision` association.
pub open spec fn no_u3v_iad(desc: ConfigDesc) -> bool {
    &&& !u3v_iad_in(desc.bytes@)
    &&& forall|i: int, a: int|
        0 <= i < desc.interfaces@.len() && 0 <= a < desc.interfaces@[i].alt_settings@.len() ==> {
            let alt = #[trigger] desc.interfaces@[i].alt_settings@[a];
            &&& !u3v_iad_in(alt.bytes@)
            &&& forall|e: int|
                0 <= e < alt.endpoints@.len() ==> !u3v_iad_in(#[trigger] alt.endpoints@[e].bytes@)
        }
}

/// `iad` is the association that the descriptors of `alt` or of one of its endpoints hold.
pub open spec fn iad_in_alt(alt: InterfaceDesc, iad: Iad) -> bool {
    ||| Some(iad) == iad_scan(alt.bytes@, 0)
    ||| exists|e: int|
        0 <= e < alt.endpoints@.len() && Some(iad) == iad_scan(#[trigger] alt.endpoints@[e].bytes@, 0)
}

/// `iad` is a `USB3 Vision` association that one of the descriptors of the configuration
/// holds.
pub open spec fn u3v_iad_of_config(desc: ConfigDesc, iad: Iad) -> bool {
    &&& iad_is_u3v(iad)
    &&& {
        ||| Some(iad) == iad_scan(desc.bytes@, 0)
        ||| exists|i: int, a: int|
            0 <= i < desc.interfaces@.len() && 0 <= a < desc.interfaces@[i].alt_settings@.len()
                && iad_in_alt(#[trigger] desc.interfaces@[i].alt_settings@[a], iad)
    }
}

/// Finds the `USB3 Vision` association of a configuration: in its own descriptors first, then
/// in those of each alternate setting and of each of its endpoints, in order.
pub fn find_u3v_iad_in_config_desc(desc: &ConfigDesc) -> (r: Option<Iad>)
    ensures
        r is None <==> no_u3v_iad(*desc),
        r matches Some(iad) ==> u3v_iad_of_config(*desc, iad),
        u3v_iad_in(desc.bytes@) ==> r == iad_scan(desc.bytes@, 0),
{
    if let Some(iad) = u3v_iad_of(desc.bytes.as_slice()) {
        return Some(iad);
    }
    let mut i: usize = 0;
    while i < desc.interfaces.len()
        invariant
            i <= desc.interfaces@.len(),
            !u3v_iad_in(desc.bytes@),
            forall|i2: int, a: int|
                0 <= i2 < i && 0 <= a < desc.interfaces@[i2].alt_settings@.len() ==> {
                    let alt = #[trigger] desc.interfaces@[i2].alt_settings@[a];
                    &&& !u3v_iad_in(alt.bytes@)
                    &&& forall|e: int|
                        0 <= e < alt.endpoints@.len() ==> !u3v_iad_in(
                            #[trigger] alt.endpoints@[e].bytes@,
                        )
                },
        decreases desc.interfaces@.len() - i,
    {
        let iface = &desc.interfaces[i];
        let mut a: usize = 0;
        while a < iface.alt_settings.len()
            invariant
                i < desc.interfaces@.len(),
                *iface == desc.interfaces@[i as int],
                !u3v_iad_in(desc.bytes@),
                a <= iface.alt_settings@.len(),
                forall|a2: int|
                    0 <= a2 < a ==> {
                        let alt = #[trigger] iface.alt_settings@[a2];
                        &&& !u3v_iad_in(alt.bytes@)
                        &&& forall|e: int|
                            0 <= e < alt.endpoints@.len() ==> !u3v_iad_in(
                                #[trigger] alt.endpoints@[e].bytes@,
                            )
                    },
            decreases iface.alt_settings@.len() - a,
        {
            let alt = &iface.alt_settings[a];
            proof {
                assert(desc.interfaces@[i as int].alt_settings@[a as int] == *alt);
            }
            if let Some(iad) = u3v_iad_of(alt.bytes.as_slice()) {
                assert(iad_in_alt(desc.interfaces@[i as int].alt_settings@[a as int], iad));
                return Some(iad);
            }
            let mut e: usize = 0;
            while e < alt.endpoints.len()
                invariant
                    i < desc.interfaces@.len(),
                    a < iface.alt_settings@.len(),
                    *iface == desc.interfaces@[i as int],
                    *alt == desc.interfaces@[i as int].alt_settings@[a as int],
                    !u3v_iad_in(desc.bytes@),
                    e <= alt.endpoints@.len(),
                    forall|e2: int| 0 <= e2 < e ==> !u3v_iad_in(#[trigger] alt.endpoints@[e2].bytes@),
                decreases alt.endpoints@.len() - e,
            {
                if let Some(iad) = u3v_iad_of(alt.endpoints[e].bytes.as_slice()) {
                    assert(Some(iad) == iad_scan(alt.endpoints@[e as int].bytes@, 0));
                    assert(iad_in_alt(desc.interfaces@[i as int].alt_settings@[a as int], iad));
                    return Some(iad);
                }
                e = e + 1;
            }
            a = a + 1;
        }
        i = i + 1;
    }
    None
}

/// Finds the first configuration with a `USB3 Vision` association, and that association.
pub fn find_u3v_iad(configs: &Vec<ConfigDesc>) -> (r: Option<(Iad, usize)>)
    ensures
        r is None <==> forall|c: int| 0 <= c < configs@.len() ==> no_u3v_iad(#[trigger] configs@[c]),
        r matches Some((iad, c)) ==> {
            &&& c < configs@.len()
            &&& u3v_iad_of_config(configs@[c as int], iad)
            &&& forall|c2: int| 0 <= c2 < c ==> no_u3v_iad(#[trigger] configs@[c2])
        },
{
    let mut c: usize = 0;
    while c < configs.len()
        invariant
            c <= configs@.len(),
            forall|c2: int| 0 <= c2 < c ==> no_u3v_iad(#[trigger] configs@[c2]),
        decreases configs@.len() - c,
    {
        if let Some(iad) = find_u3v_iad_in_config_desc(&configs[c]) {
            return Some((iad, c));
        }
        c = c + 1;
    }
    None
}

/// The interfaces of the control channel.
#[derive(Clone, Copy, Debug, PartialEq, Eq, Structural)]
pub struct ControlIfaceInfo {
    pub iface_number: u8,
    pub bulk_in_ep: u8,
    pub bulk_out_ep: u8,
}

/// The first endpoint of `eps` in direction `dir`, if any.
pub open spec fn first_endpoint(eps: Seq<EndpointDesc>, dir: Direction) -> Option<int> {
    if exists|k: int| 0 <= k < eps.len() && eps[k].direction == dir {
        Some(
            choose|k: int|
                0 <= k < eps.len() && eps[k].direction == dir && forall|j: int|
                    0 <= j < k ==> eps[j].direction != dir,
        )
    } else {
        None
    }
}

/// Finds the first endpoint of `eps` in direction `dir`.
fn find_endpoint(eps: &Vec<EndpointDesc>, dir: Direction) -> (r: Option<usize>)
    ensures
        match r {
            Some(k) => k < eps@.len() && eps@[k as int].direction == dir && forall|j: int|
                0 <= j < k ==> eps@[j].direction != dir,
            None => forall|j: int| 0 <= j < eps@.len() ==> eps@[j].direction != dir,
        },
        r matches Some(k) ==> first_endpoint(eps@, dir) == Some(k as int),
        r is None ==> first_endpoint(eps@, dir) is None,
{
    let mut k: usize = 0;
    while k < eps.len()
        invariant
            k <= eps@.len(),
            forall|j: int| 0 <= j < k ==> eps@[j].direction != dir,
        decreases eps@.len() - k,
    {
        if eps[k].direction == dir {
            proof {
                let c = choose|c: int|
                    0 <= c < eps@.len() && eps@[c].direction == dir && forall|j: int|
                        0 <= j < c ==> eps@[j].direction != dir;
                assert(0 <= k < eps@.len() && eps@[k as int].direction == dir);
                if c < k {
                    assert(eps@[c].direction != dir);
                }
                if k < c {
                    assert(eps@[k as int].direction != dir);
                }
            }
            return Some(k);
        }
        k = k + 1;
    }
    None
}

/// The control interface of `iface`, when it is one: the `USB3 Vision` class with protocol 0,
/// exactly two endpoints, the first in and the first out ones both bulk.
pub open spec fn control_iface_of(iface: InterfaceDesc) -> Option<ControlIfaceInfo> {
    let eps = iface.endpoints@;
    if iface.class != MISCELLANEOUS_CLASS || iface.subclass != USB3V_SUBCLASS || iface.protocol
        != 0 || eps.len() != 2 {
        None
    } else {
        match (first_endpoint(eps, Direction::In), first_endpoint(eps, Direction::Out)) {
            (Some(i), Some(o)) => if eps[i].transfer_type == TransferType::Bulk
                && eps[o].transfer_type == TransferType::Bulk {
                Some(
                    ControlIfaceInfo {
                        iface_number: iface.interface_number,
                        bulk_in_ep: eps[i].address,
                        bulk_out_ep: eps[o].address,
                    },
                )
            } else {
                None
            },
            _ => None,
        }
    }
}

impl ControlIfaceInfo {
    /// The control interface of `iface`; any other interface is `InvalidDevice`.
    pub fn new(iface: &InterfaceDesc) -> (r: Result<Self, Error>)
        ensures
            match control_iface_of(*iface) {
                Some(info) => r == Ok::<Self, Error>(info),
                None => r == Err::<Self, Error>(Error::InvalidDevice),
            },
    {
        if iface.class != MISCELLANEOUS_CLASS || iface.subclass != USB3V_SUBCLASS || iface.protocol
            != 0 {
            return Err(Error::InvalidDevice);
        }
        if iface.endpoints.len() != 2 {
            return Err(Error::InvalidDevice);
        }
        let ep_in = match find_endpoint(&iface.endpoints, Direction::In) {
            Some(k) => k,
            None => return Err(Error::InvalidDevice),
        };
        let ep_out = match find_endpoint(&iface.endpoints, Direction::Out) {
            Some(k) => k,
            None => return Err(Error::InvalidDevice),
        };
        if iface.endpoints[ep_in].transfer_type != TransferType::Bulk
            || iface.endpoints[ep_out].transfer_type != TransferType::Bulk {
            return Err(Error::InvalidDevice);
        }
        Ok(
            ControlIfaceInfo {
                iface_number: iface.interface_number,
                bulk_in_ep: iface.endpoints[ep_in].address,
                bulk_out_ep: iface.endpoints[ep_out].address,
            },
        )
    }
}

/// Kind of a receive interface.
#[derive(Clone, Copy, Debug, PartialEq, Eq, Structural)]
pub enum ReceiveIfaceKind {
    Stream,
    Event,
}

/// A receive interface: event or stream.
#[derive(Clone, Copy, Debug, PartialEq, Eq, Structural)]
pub struct ReceiveIfaceInfo {
    pub iface_number: u8,
    pub alt_setting: u8,
    pub bulk_in_ep: u8,
}

/// The receive interface of `iface`, when it is one: the `USB3 Vision` class, protocol 1 for
/// events or 2 for the stream, one bulk in endpoint.
pub open spec fn receive_iface_of(iface: InterfaceDesc) -> Option<(ReceiveIfaceInfo, ReceiveIfaceKind)> {
    if iface.class != MISCELLANEOUS_CLASS || iface.subclass != USB3V_SUBCLASS || !(iface.protocol
        == 1 || iface.protocol == 2) || iface.num_endpoints != 1 {
        None
    } else {
        let ep = iface.endpoints@[0];
        if ep.transfer_type != TransferType::Bulk || ep.direction != Direction::In {
            None
        } else {
            Some(
                (
                    ReceiveIfaceInfo {
                        iface_number: iface.interface_number,
                        alt_setting: iface.alternate_setting,
                        bulk_in_ep: ep.address,
                    },
                    if iface.protocol == 1 {
                        ReceiveIfaceKind::Event
                    } else {
                        ReceiveIfaceKind::Stream
                    },
                ),
            )
        }
    }
}

/// An interface that claims one endpoint lists at least one.
pub open spec fn endpoints_listed(iface: InterfaceDesc) -> bool {
    iface.num_endpoints == 1 ==> iface.endpoints@.len() >= 1
}

impl ReceiveIfaceInfo {
    /// The receive interface of `iface`, if it is one.
    pub fn new(iface: &InterfaceDesc) -> (r: Option<(Self, ReceiveIfaceKind)>)
        requires
            endpoints_listed(*iface),
        ensures
            r == receive_iface_of(*iface),
    {
        if iface.class != MISCELLANEOUS_CLASS || iface.subclass != USB3V_SUBCLASS {
            return None;
        }
        let kind = if iface.protocol == 0x01 {
            ReceiveIfaceKind::Event
        } else if iface.protocol == 0x02 {
            ReceiveIfaceKind::Stream
        } else {
            return None;
        };
        if iface.num_endpoints != 1 {
            return None;
        }
        let endpoint = &iface.endpoints[0];
        if endpoint.transfer_type != TransferType::Bulk || endpoint.direction != Direction::In {
            return None;
        }
        Some(
            (
                ReceiveIfaceInfo {
                    iface_number: iface.interface_number,
                    alt_setting: iface.alternate_setting,
                    bulk_in_ep: endpoint.address,
                },
                kind,
            ),
        )
    }
}

/// Alternate setting `a` of interface `i` of `config` is a setting 0 of an interface numbered
/// as the first interface of the association.
pub open spec fn control_candidate(config: ConfigDesc, iad: Iad, i: int, a: int) -> bool {
    &&& 0 <= i < config.interfaces@.len()
    &&& config.interfaces@[i].interface_number == iad.first_interface
    &&& 0 <= a < config.interfaces@[i].alt_settings@.len()
    &&& config.interfaces@[i].alt_settings@[a].alternate_setting == 0
}

/// The control interface of the association: of the settings that are a
/// [`control_candidate`], the first in interface order and then in setting order.
/// `InvalidDevice` when there is none.
pub fn find_control_interface<'a>(config: &'a ConfigDesc, iad: &Iad) -> (r: Result<
    &'a InterfaceDesc,
    Error,
>)
    ensures
        r matches Ok(d) ==> exists|i: int, a: int|
            #[trigger] control_candidate(*config, *iad, i, a) && *d
                == config.interfaces@[i].alt_settings@[a] && forall|i2: int, a2: int|
                #[trigger] control_candidate(*config, *iad, i2, a2) ==> i < i2 || (i == i2 && a
                <= a2),
        r is Err ==> r == Err::<&'a InterfaceDesc, Error>(Error::InvalidDevice) && forall|
            i: int,
            a: int,
        | !#[trigger] control_candidate(*config, *iad, i, a),
{
    let mut i: usize = 0;
    while i < config.interfaces.len()
        invariant
            i <= config.interfaces@.len(),
            forall|i2: int, a: int| 0 <= i2 < i ==> !#[trigger] control_candidate(*config, *iad, i2, a),
        decreases config.interfaces@.len() - i,
    {
        let iface = &config.interfaces[i];
        if iface.interface_number == iad.first_interface {
            let mut a: usize = 0;
            while a < iface.alt_settings.len()
                invariant
                    i < config.interfaces@.len(),
                    *iface == config.interfaces@[i as int],
                    iface.interface_number == iad.first_interface,
                    a <= iface.alt_settings@.len(),
                    forall|i2: int, a2: int| 0 <= i2 < i ==> !#[trigger] control_candidate(*config, *iad, i2, a2),
                    forall|a2: int| 0 <= a2 < a ==> !#[trigger] control_candidate(*config, *iad, i as int, a2),
                decreases iface.alt_settings@.len() - a,
            {
                if iface.alt_settings[a].alternate_setting == 0 {
                    assert(config.interfaces@[i as int].alt_settings@[a as int]
                        == iface.alt_settings@[a as int]);
                    assert(control_candidate(*config, *iad, i as int, a as int));
                    return Ok(&iface.alt_settings[a]);
                }
                a = a + 1;
            }
        }
        i = i + 1;
    }
    Err(Error::InvalidDevice)
}

/// The interfaces after the first one of the association, within its interface count.
pub open spec fn in_association(n: u8, iad: Iad) -> bool {
    iad.first_interface < n && n < iad.first_interface + iad.interface_count
}

/// `x` is the receive interface of an alternate setting 0 of an interface of the association
/// after its first one.
pub open spec fn from_association(
    config: ConfigDesc,
    iad: Iad,
    x: (ReceiveIfaceInfo, ReceiveIfaceKind),
) -> bool {
    exists|i: int, a: int|
        0 <= i < config.interfaces@.len() && in_association(
            config.interfaces@[i].interface_number,
            iad,
        ) && 0 <= a < config.interfaces@[i].alt_settings@.len() && (
        #[trigger] config.interfaces@[i].alt_settings@[a]).alternate_setting == 0
            && receive_iface_of(config.interfaces@[i].alt_settings@[a]) == Some(x)
}

/// Every alternate setting of the configuration that claims one endpoint lists it.
pub open spec fn config_endpoints_listed(config: ConfigDesc) -> bool {
    forall|i: int, a: int|
        0 <= i < config.interfaces@.len() && 0 <= a < config.interfaces@[i].alt_settings@.len()
            ==> endpoints_listed(#[trigger] config.interfaces@[i].alt_settings@[a])
}

/// The interface numbers of the association fit a byte, when an interface reaches them.
pub open spec fn association_in_range(config: ConfigDesc, iad: Iad) -> bool {
    (exists|i: int|
        0 <= i < config.interfaces@.len() && (#[trigger] config.interfaces@[i]).interface_number
            >= iad.first_interface) ==> iad.first_interface + iad.interface_count <= u8::MAX
}

/// The receive interfaces of the alternate settings 0 among `alts`, in order.
pub open spec fn alt_receive_ifaces(alts: Seq<InterfaceDesc>) -> Seq<
    (ReceiveIfaceInfo, ReceiveIfaceKind),
>
    decreases alts.len(),
{
    if alts.len() == 0 {
        Seq::empty()
    } else {
        let d = alts.last();
        alt_receive_ifaces(alts.drop_last()) + if d.alternate_setting == 0 && receive_iface_of(d) is Some {
            seq![receive_iface_of(d)->Some_0]
        } else {
            Seq::empty()
        }
    }
}

/// The receive interfaces of the alternate settings 0 of the interfaces of `groups` that lie in
/// the association after its first one, in order.
pub open spec fn association_receive_ifaces(groups: Seq<InterfaceGroup>, iad: Iad) -> Seq<
    (ReceiveIfaceInfo, ReceiveIfaceKind),
>
    decreases groups.len(),
{
    if groups.len() == 0 {
        Seq::empty()
    } else {
        let g = groups.last();
        association_receive_ifaces(groups.drop_last(), iad) + if in_association(
            g.interface_number,
            iad,
        ) {
            alt_receive_ifaces(g.alt_settings@)
        } else {
            Seq::empty()
        }
    }
}

/// Collects the event and stream interfaces of the association: the alternate settings 0 of
/// its interfaces after the first one that are receive interfaces, in order. More than two
/// is `InvalidDevice`.
pub fn collect_receive_ifaces(config: &ConfigDesc, iad: &Iad) -> (r: Result<
    Vec<(ReceiveIfaceInfo, ReceiveIfaceKind)>,
    Error,
>)
    requires
        association_in_range(*config, *iad),
        config_endpoints_listed(*config),
    ensures
        association_receive_ifaces(config.interfaces@, *iad).len() > 2 ==> r == Err::<
            Vec<(ReceiveIfaceInfo, ReceiveIfaceKind)>,
            Error,
        >(Error::InvalidDevice),
        association_receive_ifaces(config.interfaces@, *iad).len() <= 2 ==> (r matches Ok(v)
            && v@ == association_receive_ifaces(config.interfaces@, *iad)),
        r matches Ok(v) ==> v@.len() <= 2 && forall|k: int|
            0 <= k < v@.len() ==> from_association(*config, *iad, #[trigger] v@[k]),
{
    let first = iad.first_interface;
    let count = iad.interface_count;
    let mut result: Vec<(ReceiveIfaceInfo, ReceiveIfaceKind)> = Vec::new();
    let mut i: usize = 0;
    while i < config.interfaces.len()
        invariant
            i <= config.interfaces@.len(),
            first == iad.first_interface,
            count == iad.interface_count,
            association_in_range(*config, *iad),
            config_endpoints_listed(*config),
            forall|k: int| 0 <= k < result@.len() ==> from_association(*config, *iad, #[trigger] result@[k]),
            result@ == association_receive_ifaces(config.interfaces@.take(i as int), *iad),
        decreases config.interfaces@.len() - i,
    {
        let iface = &config.interfaces[i];
        let iface_number = iface.interface_number;
        proof {
            assert(config.interfaces@.take(i + 1).drop_last() =~= config.interfaces@.take(i as int));
        }
        if iface_number < first {
            i = i + 1;
            continue;
        }
        assert(config.interfaces@[i as int].interface_number >= iad.first_interface);
        if iface_number >= first + count || iface_number == first {
            i = i + 1;
            continue;
        }
        let ghost before = result@;
        let mut a: usize = 0;
        while a < iface.alt_settings.len()
            invariant
                i < config.interfaces@.len(),
                *iface == config.interfaces@[i as int],
                in_association(iface.interface_number, *iad),
                config_endpoints_listed(*config),
                a <= iface.alt_settings@.len(),
                forall|k: int| 0 <= k < result@.len() ==> from_association(*config, *iad, #[trigger] result@[k]),
                result@ == before + alt_receive_ifaces(iface.alt_settings@.take(a as int)),
            decreases iface.alt_settings@.len() - a,
        {
            let desc = &iface.alt_settings[a];
            proof {
                assert(config.interfaces@[i as int].alt_settings@[a as int] == *desc);
                assert(iface.alt_settings@.take(a + 1).drop_last() =~= iface.alt_settings@.take(a as int));
            }
            if desc.alternate_setting == 0 {
                if let Some(entry) = ReceiveIfaceInfo::new(desc) {
                    assert(from_association(*config, *iad, entry));
                    let ghost old_result = result@;
                    result.push(entry);
                    assert forall|k: int| 0 <= k < result@.len() implies from_association(
                        *config,
                        *iad,
                        #[trigger] result@[k],
                    ) by {
                        if k < old_result.len() {
                            assert(result@[k] == old_result[k]);
                        }
                    }
                    assert(result@ =~= before + alt_receive_ifaces(iface.alt_settings@.take(a + 1)));
                } else {
                    assert(result@ =~= before + alt_receive_ifaces(iface.alt_settings@.take(a + 1)));
                }
            } else {
                assert(result@ =~= before + alt_receive_ifaces(iface.alt_settings@.take(a + 1)));
            }
            a = a + 1;
        }
        proof {
            assert(iface.alt_settings@.take(a as int) =~= iface.alt_settings@);
            assert(result@ =~= association_receive_ifaces(config.interfaces@.take(i + 1), *iad));
        }
        i = i + 1;
    }
    assert(config.interfaces@.take(i as int) =~= config.interfaces@);
    if result.len() > 2 {
        return Err(Error::InvalidDevice);
    }
    Ok(result)
}

/// The device info descriptor of a control interface.
#[derive(Clone, Copy, Debug, PartialEq, Eq, Structural)]
pub struct DeviceInfoDescriptor {
    pub length: u8,
    pub descriptor_type: u8,
    pub descriptor_subtype: u8,
    pub gencp_version_major: u16,
    pub gencp_version_minor: u16,
    pub u3v_version_major: u16,
    pub u3v_version_minor: u16,
    pub guid_idx: u8,
    pub vendor_name_idx: u8,
    pub model_name_idx: u8,
    pub family_name_idx: u8,
    pub device_version_idx: u8,
    pub manufacturer_info_idx: u8,
    pub serial_number_idx: u8,
    pub user_defined_name_idx: u8,
    pub supported_speed_mask: u8,
}

/// The smallest length of a device info descriptor.
pub const MINIMUM_DESC_LENGTH: u8 = 20;

/// Descriptor type of a device info descriptor.
pub const DEVICE_INFO_DESCRIPTOR_TYPE: u8 = 0x24;

/// Descriptor subtype of a device info descriptor.
pub const DEVICE_INFO_DESCRIPTOR_SUBTYPE: u8 = 0x1;

/// The bytes of `b` hold a device info descriptor.
pub open spec fn device_info_valid(b: Seq<u8>) -> bool {
    &&& b.len() >= 20
    &&& b[0] >= MINIMUM_DESC_LENGTH
    &&& b[1] == DEVICE_INFO_DESCRIPTOR_TYPE
    &&& b[2] == DEVICE_INFO_DESCRIPTOR_SUBTYPE
}

/// The fastest bus speed that the mask of supported speeds holds, if any.
pub open spec fn fastest_speed(mask: u8) -> Option<BusSpeed> {
    if (mask >> 4) & 1 == 1 {
        Some(BusSpeed::SuperSpeedPlus)
    } else if (mask >> 3) & 1 == 1 {
        Some(BusSpeed::SuperSpeed)
    } else if (mask >> 2) & 1 == 1 {
        Some(BusSpeed::HighSpeed)
    } else if (mask >> 1) & 1 == 1 {
        Some(BusSpeed::FullSpeed)
    } else if mask & 1 == 1 {
        Some(BusSpeed::LowSpeed)
    } else {
        None
    }
}

/// The bit of the supported speed mask that announces `s`: bit 0 low speed, then full, high,
/// super speed, and bit 4 super speed plus.
pub open spec fn speed_mask_bit(s: BusSpeed) -> u8 {
    match s {
        BusSpeed::LowSpeed => 0,
        BusSpeed::FullSpeed => 1,
        BusSpeed::HighSpeed => 2,
        BusSpeed::SuperSpeed => 3,
        BusSpeed::SuperSpeedPlus => 4,
    }
}

/// The speed a mask gives is the fastest it announces: its bit is set and no bit of a faster
/// speed is; a mask announcing no speed (bits 0 to 4 clear) gives none. So super speed plus
/// wins whenever bit 4 is set.
pub proof fn lemma_fastest_speed(mask: u8)
    ensures
        fastest_speed(mask) is None <==> mask & 0x1f == 0,
        fastest_speed(mask) matches Some(s) ==> (mask >> speed_mask_bit(s)) & 1 == 1 && forall|k: u8|
            speed_mask_bit(s) < k <= 4 ==> #[trigger] ((mask >> k) & 1) == 0,
        (mask >> 4u8) & 1 == 1 ==> fastest_speed(mask) == Some(BusSpeed::SuperSpeedPlus),
{
    assert(mask & 0x1f == 0 <==> ((mask >> 4u8) & 1 != 1 && (mask >> 3u8) & 1 != 1 && (mask >> 2u8)
        & 1 != 1 && (mask >> 1u8) & 1 != 1 && mask & 1 != 1)) by (bit_vector);
    let b4 = (mask >> 4u8) & 1;
    let b3 = (mask >> 3u8) & 1;
    let b2 = (mask >> 2u8) & 1;
    let b1 = (mask >> 1u8) & 1;
    let b0 = mask & 1;
    assert(b4 <= 1 && b3 <= 1 && b2 <= 1 && b1 <= 1 && b0 <= 1 && (mask >> 0u8) & 1 == b0) by (bit_vector)
        requires
            b4 == (mask >> 4u8) & 1,
            b3 == (mask >> 3u8) & 1,
            b2 == (mask >> 2u8) & 1,
            b1 == (mask >> 1u8) & 1,
            b0 == mask & 1,
    ;
    match fastest_speed(mask) {
        Some(s) => {
            assert forall|k: u8| speed_mask_bit(s) < k <= 4 implies #[trigger] ((mask >> k) & 1) == 0 by {
                if k == 4 {
                    assert(b4 == 0);
                } else if k == 3 {
                    assert(b3 == 0);
                } else if k == 2 {
                    assert(b2 == 0);
                } else {
                    assert(k == 1);
                    assert(b1 == 0);
                }
            }
        },
        None => {},
    }
}

impl DeviceInfoDescriptor {
    /// Parses a device info descriptor: length, type and subtype, then the little endian
    /// versions (minor first) and the string indices. Fewer than 20 bytes, or a wrong length,
    /// type or subtype, is `InvalidDevice`.
    pub fn from_bytes(bytes: &[u8]) -> (r: Result<Self, Error>)
        ensures
            r is Ok <==> device_info_valid(bytes@),
            r is Err ==> r == Err::<Self, Error>(Error::InvalidDevice),
            r matches Ok(d) ==> {
                &&& d.length == bytes@[0]
                &&& d.gencp_version_minor == le16(bytes@.subrange(3, 5))
                &&& d.gencp_version_major == le16(bytes@.subrange(5, 7))
                &&& d.u3v_version_minor == le16(bytes@.subrange(7, 9))
                &&& d.u3v_version_major == le16(bytes@.subrange(9, 11))
                &&& d.guid_idx == bytes@[11]
                &&& d.vendor_name_idx == bytes@[12]
                &&& d.model_name_idx == bytes@[13]
                &&& d.family_name_idx == bytes@[14]
                &&& d.device_version_idx == bytes@[15]
                &&& d.manufacturer_info_idx == bytes@[16]
                &&& d.serial_number_idx == bytes@[17]
                &&& d.user_defined_name_idx == bytes@[18]
                &&& d.supported_speed_mask == bytes@[19]
            },
    {
        if bytes.len() < MINIMUM_DESC_LENGTH as usize {
            return Err(Error::InvalidDevice);
        }
        let length = bytes[0];
        let descriptor_type = bytes[1];
        let descriptor_subtype = bytes[2];
        if length < MINIMUM_DESC_LENGTH || descriptor_type != DEVICE_INFO_DESCRIPTOR_TYPE
            || descriptor_subtype != DEVICE_INFO_DESCRIPTOR_SUBTYPE {
            return Err(Error::InvalidDevice);
        }
        Ok(
            DeviceInfoDescriptor {
                length,
                descriptor_type,
                descriptor_subtype,
                gencp_version_minor: crate::bytes::get_le16(bytes, 3),
                gencp_version_major: crate::bytes::get_le16(bytes, 5),
                u3v_version_minor: crate::bytes::get_le16(bytes, 7),
                u3v_version_major: crate::bytes::get_le16(bytes, 9),
                guid_idx: bytes[11],
                vendor_name_idx: bytes[12],
                model_name_idx: bytes[13],
                family_name_idx: bytes[14],
                device_version_idx: bytes[15],
                manufacturer_info_idx: bytes[16],
                serial_number_idx: bytes[17],
                user_defined_name_idx: bytes[18],
                supported_speed_mask: bytes[19],
            },
        )
    }

    /// The fastest supported speed; a mask without a known speed is `InvalidDevice`.
    pub fn supported_speed(&self) -> (r: Result<BusSpeed, Error>)
        ensures
            match fastest_speed(self.supported_speed_mask) {
                Some(s) => r == Ok::<BusSpeed, Error>(s),
                None => r == Err::<BusSpeed, Error>(Error::InvalidDevice),
            },
            r is Err <==> self.supported_speed_mask & 0x1f == 0,
            r matches Ok(s) ==> (self.supported_speed_mask >> speed_mask_bit(s)) & 1 == 1 && forall|
                k: u8,
            | speed_mask_bit(s) < k <= 4 ==> #[trigger] ((self.supported_speed_mask >> k) & 1) == 0,
    {
        proof {
            lemma_fastest_speed(self.supported_speed_mask);
        }
        let mask = self.supported_speed_mask;
        if (mask >> 4u8) & 0b1 == 1 {
            Ok(BusSpeed::SuperSpeedPlus)
        } else if (mask >> 3u8) & 0b1 == 1 {
            Ok(BusSpeed::SuperSpeed)
        } else if (mask >> 2u8) & 0b1 == 1 {
            Ok(BusSpeed::HighSpeed)
        } else if (mask >> 1u8) & 0b1 == 1 {
            Ok(BusSpeed::FullSpeed)
        } else if mask & 0b1 == 1 {
            Ok(BusSpeed::LowSpeed)
        } else {
            Err(Error::InvalidDevice)
        }
    }

    /// `GenCP` version of the device.
    pub fn gencp_version(&self) -> (r: Version)
        ensures
            r == (Version {
                major: self.gencp_version_major as u64,
                minor: self.gencp_version_minor as u64,
                patch: 0,
            }),
    {
        Version::new(self.gencp_version_major as u64, self.gencp_version_minor as u64, 0)
    }

    /// `USB3 Vision` version of the device.
    pub fn u3v_version(&self) -> (r: Version)
        ensures
            r == (Version {
                major: self.u3v_version_major as u64,
                minor: self.u3v_version_minor as u64,
                patch: 0,
            }),
    {
        Version::new(self.u3v_version_major as u64, self.u3v_version_minor as u64, 0)
    }
}

/// Information of a `USB3 Vision` device, from its device info descriptor.
#[derive(Clone, Debug)]
pub struct DeviceInfo {
    pub gencp_version: Version,
    pub u3v_version: Version,
    pub guid: String,
    pub vendor_name: String,
    pub model_name: String,
    pub family_name: Option<String>,
    pub device_version: String,
    pub manufacturer_info: String,
    pub serial_number: String,
    pub user_defined_name: Option<String>,
    pub supported_speed: BusSpeed,
}

/// The string reads of the device info, in the order they are made: the index of each string
/// and whether the string is required (`false` for the family and user defined names).
pub open spec fn string_steps(d: DeviceInfoDescriptor) -> Seq<(u8, bool)> {
    seq![
        (d.guid_idx, true),
        (d.vendor_name_idx, true),
        (d.model_name_idx, true),
        (d.family_name_idx, false),
        (d.device_version_idx, true),
        (d.manufacturer_info_idx, true),
        (d.serial_number_idx, true),
        (d.user_defined_name_idx, false),
    ]
}

/// The strings of the first `n` steps, where `answers[j]` is what the read of step `j`
/// answered: index 0 gives `None` for an optional string and `InvalidDevice` for a required
/// one; otherwise the read's string, or its error. The first error ends the walk.
pub open spec fn gathered_strings(
    steps: Seq<(u8, bool)>,
    answers: Seq<Result<String, Error>>,
    n: nat,
) -> Result<Seq<Option<String>>, Error>
    decreases n,
{
    if n == 0 {
        Ok(Seq::empty())
    } else {
        match gathered_strings(steps, answers, (n - 1) as nat) {
            Err(e) => Err(e),
            Ok(v) => if steps[n - 1].0 == 0 {
                if steps[n - 1].1 {
                    Err(Error::InvalidDevice)
                } else {
                    Ok(v.push(None))
                }
            } else {
                match answers[n - 1] {
                    Ok(s) => Ok(v.push(Some(s))),
                    Err(e) => Err(e),
                }
            },
        }
    }
}

/// Each step among the first `n` that the walk reaches with a non-zero index was read with
/// that index and `language_id`, and `answers` holds what `read` gave back.
pub open spec fn strings_read<F: Fn(u8, u16) -> Result<String, Error>>(
    read: F,
    steps: Seq<(u8, bool)>,
    answers: Seq<Result<String, Error>>,
    language_id: u16,
    n: nat,
) -> bool {
    forall|j: int|
        0 <= j < n && steps[j].0 != 0 && gathered_strings(steps, answers, j as nat) is Ok
            ==> call_ensures(read, (steps[j].0, language_id), #[trigger] answers[j])
}

/// The device info that `d` gives with the `strings` of [`string_steps`] in order: the
/// versions of `d`, each string in its field, and the fastest supported speed; a mask without
/// a known speed is `InvalidDevice`.
pub open spec fn device_info_of(d: DeviceInfoDescriptor, strings: Seq<Option<String>>) -> Result<
    DeviceInfo,
    Error,
> {
    match fastest_speed(d.supported_speed_mask) {
        None => Err(Error::InvalidDevice),
        Some(speed) => Ok(
            DeviceInfo {
                gencp_version: Version {
                    major: d.gencp_version_major as u64,
                    minor: d.gencp_version_minor as u64,
                    patch: 0,
                },
                u3v_version: Version {
                    major: d.u3v_version_major as u64,
                    minor: d.u3v_version_minor as u64,
                    patch: 0,
                },
                guid: strings[0]->Some_0,
                vendor_name: strings[1]->Some_0,
                model_name: strings[2]->Some_0,
                family_name: strings[3],
                device_version: strings[4]->Some_0,
                manufacturer_info: strings[5]->Some_0,
                serial_number: strings[6]->Some_0,
                user_defined_name: strings[7],
                supported_speed: speed,
            },
        ),
    }
}

/// What the device info walk gives from the answers of the reads.
pub open spec fn interpreted(d: DeviceInfoDescriptor, answers: Seq<Result<String, Error>>) -> Result<
    DeviceInfo,
    Error,
> {
    match gathered_strings(string_steps(d), answers, 8) {
        Err(e) => Err(e),
        Ok(v) => device_info_of(d, v),
    }
}

impl DeviceInfo {
    /// The device info of `desc` with the strings read for it: each argument goes to the field
    /// of the same name; a speed mask without a known speed is `InvalidDevice`.
    pub fn from_parts(
        desc: &DeviceInfoDescriptor,
        guid: String,
        vendor_name: String,
        model_name: String,
        family_name: Option<String>,
        device_version: String,
        manufacturer_info: String,
        serial_number: String,
        user_defined_name: Option<String>,
    ) -> (r: Result<DeviceInfo, Error>)
        ensures
            r == device_info_of(
                *desc,
                seq![
                    Some(guid),
                    Some(vendor_name),
                    Some(model_name),
                    family_name,
                    Some(device_version),
                    Some(manufacturer_info),
                    Some(serial_number),
                    user_defined_name,
                ],
            ),
    {
        let supported_speed = desc.supported_speed()?;
        Ok(
            DeviceInfo {
                gencp_version: desc.gencp_version(),
                u3v_version: desc.u3v_version(),
                guid,
                vendor_name,
                model_name,
                family_name,
                device_version,
                manufacturer_info,
                serial_number,
                user_defined_name,
                supported_speed,
            },
        )
    }
}

/// Reads the string descriptor `index` through `read`, with the answer the read gave; index 0
/// makes no read and gives `None` for an optional string, `InvalidDevice` for a required one.
fn fetch_string<F: Fn(u8, u16) -> Result<String, Error>>(
    read: &F,
    index: u8,
    required: bool,
    language_id: u16,
) -> (r: (Result<Option<String>, Error>, Ghost<Result<String, Error>>))
    requires
        forall|i: u8| i != 0 ==> call_requires(*read, (i, language_id)),
    ensures
        index == 0 ==> r.0 == (if required {
            Err::<Option<String>, Error>(Error::InvalidDevice)
        } else {
            Ok::<Option<String>, Error>(None)
        }),
        index != 0 ==> call_ensures(*read, (index, language_id), r.1@) && r.0 == match r.1@ {
            Ok(s) => Ok::<Option<String>, Error>(Some(s)),
            Err(e) => Err::<Option<String>, Error>(e),
        },
{
    if index == 0 {
        if required {
            return (Err(Error::InvalidDevice), Ghost(Err(Error::InvalidDevice)));
        }
        return (Ok(None), Ghost(Err(Error::InvalidDevice)));
    }
    let a = read(index, language_id);
    let ghost g = a;
    match a {
        Ok(s) => (Ok(Some(s)), Ghost(g)),
        Err(e) => (Err(e), Ghost(g)),
    }
}

/// The walk over the first `n` steps looks only at the first `n` answers.
proof fn lemma_gathered_prefix(
    steps: Seq<(u8, bool)>,
    a: Seq<Result<String, Error>>,
    b: Seq<Result<String, Error>>,
    n: nat,
)
    requires
        n <= a.len(),
        n <= b.len(),
        forall|k: int| 0 <= k < n ==> a[k] == b[k],
    ensures
        gathered_strings(steps, a, n) == gathered_strings(steps, b, n),
    decreases n,
{
    if n > 0 {
        lemma_gathered_prefix(steps, a, b, (n - 1) as nat);
    }
}

/// Once the walk has stopped with an error, later steps keep that error.
proof fn lemma_gathered_stays_err(
    steps: Seq<(u8, bool)>,
    a: Seq<Result<String, Error>>,
    j: nat,
    n: nat,
)
    requires
        j <= n,
        gathered_strings(steps, a, j) is Err,
    ensures
        gathered_strings(steps, a, n) == gathered_strings(steps, a, j),
    decreases n - j,
{
    if j < n {
        lemma_gathered_stays_err(steps, a, j, (n - 1) as nat);
    }
}

impl DeviceInfoDescriptor {
    /// The device info: the strings that the indices point to, read through `read` with
    /// `language_id` in the order of [`string_steps`], then the versions and the fastest
    /// supported speed, as [`interpreted`] states. A required string with index 0 is
    /// `InvalidDevice` and no later string is read; a failed read ends it with its error; the
    /// family and user defined names are `None` for index 0, which is never read.
    pub fn interpret<F: Fn(u8, u16) -> Result<String, Error>>(&self, read: F, language_id: u16) -> (r:
        Result<DeviceInfo, Error>)
        requires
            forall|i: u8| i != 0 ==> call_requires(read, (i, language_id)),
        ensures
            exists|answers: Seq<Result<String, Error>>|
                answers.len() == 8 && strings_read(read, string_steps(*self), answers, language_id, 8)
                    && r == interpreted(*self, answers),
    {
        let ghost steps = string_steps(*self);
        let steps_v: Vec<(u8, bool)> = vec![
            (self.guid_idx, true),
            (self.vendor_name_idx, true),
            (self.model_name_idx, true),
            (self.family_name_idx, false),
            (self.device_version_idx, true),
            (self.manufacturer_info_idx, true),
            (self.serial_number_idx, true),
            (self.user_defined_name_idx, false),
        ];
        assert(steps_v@ =~= steps);
        let mut collected: Vec<Option<String>> = Vec::new();
        let ghost mut answers: Seq<Result<String, Error>> = Seq::empty();
        let mut j: usize = 0;
        while j < 8
            invariant
                steps_v@ == steps,
                steps == string_steps(*self),
                forall|i: u8| i != 0 ==> call_requires(read, (i, language_id)),
                j <= 8,
                answers.len() == j,
                collected@.len() == j,
                gathered_strings(steps, answers, j as nat) == Ok::<Seq<Option<String>>, Error>(collected@),
                strings_read(read, steps, answers, language_id, j as nat),
            decreases 8 - j,
        {
            let (idx, required) = steps_v[j];
            let (a, g) = fetch_string(&read, idx, required, language_id);
            let ghost next = answers.push(g@);
            proof {
                lemma_gathered_prefix(steps, answers, next, j as nat);
                assert forall|k: int|
                    0 <= k < j + 1 && steps[k].0 != 0 && gathered_strings(steps, next, k as nat) is Ok
                        implies call_ensures(read, (steps[k].0, language_id), #[trigger] next[k]) by {
                    if k < j {
                        lemma_gathered_prefix(steps, answers, next, k as nat);
                        assert(answers[k] == next[k]);
                    }
                }
            }
            match a {
                Err(e) => {
                    let ghost full = next + Seq::new((7 - j) as nat, |i: int| Err::<String, Error>(Error::InvalidDevice));
                    proof {
                        lemma_gathered_prefix(steps, next, full, (j + 1) as nat);
                        lemma_gathered_stays_err(steps, full, (j + 1) as nat, 8);
                        assert forall|k: int|
                            0 <= k < 8 && steps[k].0 != 0 && gathered_strings(steps, full, k as nat) is Ok
                                implies call_ensures(read, (steps[k].0, language_id), #[trigger] full[k]) by {
                            if k <= j {
                                lemma_gathered_prefix(steps, next, full, k as nat);
                                assert(next[k] == full[k]);
                            } else {
                                lemma_gathered_stays_err(steps, full, (j + 1) as nat, k as nat);
                            }
                        }
                        assert(full.len() == 8);
                        assert(strings_read(read, steps, full, language_id, 8));
                    }
                    return Err(e);
                },
                Ok(o) => {
                    collected.push(o);
                    proof {
                        answers = next;
                    }
                },
            }
            j = j + 1;
        }
        proof {
            assert(forall|k: int| 0 <= k < 8 && #[trigger] steps[k].1 ==> collected@[k] is Some) by {
                reveal_with_fuel(gathered_strings, 9);
            }
        }
        let ghost strings = collected@;
        let user_defined_name = collected.pop().unwrap();
        let serial_number = collected.pop().unwrap().unwrap();
        let manufacturer_info = collected.pop().unwrap().unwrap();
        let device_version = collected.pop().unwrap().unwrap();
        let family_name = collected.pop().unwrap();
        let model_name = collected.pop().unwrap().unwrap();
        let vendor_name = collected.pop().unwrap().unwrap();
        let guid = collected.pop().unwrap().unwrap();
        assert(strings =~= seq![
            Some(guid),
            Some(vendor_name),
            Some(model_name),
            family_name,
            Some(device_version),
            Some(manufacturer_info),
            Some(serial_number),
            user_defined_name,
        ]);
        DeviceInfo::from_parts(
            self,
            guid,
            vendor_name,
            model_name,
            family_name,
            device_version,
            manufacturer_info,
            serial_number,
            user_defined_name,
        )
    }
}

} // verus!
