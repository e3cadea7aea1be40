//! Selection of a connector, timing mode, CRTC and plane from the resources
//! that the kernel's mode-setting interface enumerates.
//!
//! The caller queries the device and describes each resource with the plain
//! values below; the selection itself is made here.
use vstd::prelude::*;

verus! {

/// Bit of a mode's type flags that marks the mode the kernel prefers
/// (`DRM_MODE_TYPE_PREFERRED`).
pub const MODE_TYPE_PREFERRED: u32 = 8;

/// Value of a plane's "type" property that marks a primary plane
/// (`DRM_PLANE_TYPE_PRIMARY`).
pub const PLANE_TYPE_PRIMARY: u64 = 1;

/// One timing mode that a connector advertises.
pub struct ModeInfo {
    pub name: String,
    pub width: u16,
    pub height: u16,
    pub vrefresh: u32,
    /// The kernel's mode type flags.
    pub mode_type: u32,
}

/// A connector, as far as selection needs it.
pub struct ConnectorInfo {
    pub handle: u32,
    /// Whether the kernel reports a display attached.
    pub connected: bool,
    /// The advertised modes, in the kernel's order.
    pub modes: Vec<ModeInfo>,
}

/// One entry of the device's CRTC table, in the kernel's order.
#[derive(Debug, Clone, Copy, PartialEq, Eq, Structural)]
pub struct CrtcEntry {
    pub handle: u32,
    /// Whether the kernel answered the query for this CRTC.
    pub available: bool,
}

/// One property of a plane.
pub struct PlaneProperty {
    /// The property's name; `None` where it could not be read as text.
    pub name: Option<String>,
    pub value: u64,
}

/// A plane, as far as selection needs it.
pub struct PlaneInfo {
    pub handle: u32,
    /// Handles of the CRTCs that the plane's possible-CRTC bitmask names in
    /// the device's CRTC table; empty where the plane could not be queried.
    pub compatible_crtcs: Vec<u32>,
    pub properties: Vec<PlaneProperty>,
}

/// Positions of the chosen resources in the lists handed to [`negotiate`]
/// (the mode's position is in the chosen connector's mode list).
#[derive(Debug, Clone, Copy, PartialEq, Eq, Structural)]
pub struct Selection {
    pub connector: usize,
    pub mode: usize,
    pub crtc: usize,
    pub plane: usize,
}

/// Why no usable output could be negotiated.
#[derive(Debug, Clone, Copy, PartialEq, Eq, Structural)]
pub enum NegotiationError {
    NoConnectedConnector,
    NoCrtc,
    NoModes,
    NoCompatiblePlane,
}

pub open spec fn is_first_connected(cs: Seq<ConnectorInfo>, i: int) -> bool {
    &&& 0 <= i < cs.len()
    &&& cs[i].connected
    &&& forall|j: int| 0 <= j < i ==> !(#[trigger] cs[j]).connected
}

pub open spec fn any_connected(cs: Seq<ConnectorInfo>) -> bool {
    exists|i: int| 0 <= i < cs.len() && (#[trigger] cs[i]).connected
}

pub open spec fn is_first_available(crtcs: Seq<CrtcEntry>, i: int) -> bool {
    &&& 0 <= i < crtcs.len()
    &&& crtcs[i].available
    &&& forall|j: int| 0 <= j < i ==> !(#[trigger] crtcs[j]).available
}

pub open spec fn any_available(crtcs: Seq<CrtcEntry>) -> bool {
    exists|i: int| 0 <= i < crtcs.len() && (#[trigger] crtcs[i]).available
}

pub open spec fn is_preferred(m: ModeInfo) -> bool {
    (m.mode_type & MODE_TYPE_PREFERRED) != 0
}

pub open spec fn any_preferred(modes: Seq<ModeInfo>) -> bool {
    exists|i: int| 0 <= i < modes.len() && is_preferred(#[trigger] modes[i])
}

/// The mode to use: the first one flagged preferred, else the first one.
pub open spec fn is_chosen_mode(modes: Seq<ModeInfo>, i: int) -> bool {
    if any_preferred(modes) {
        &&& 0 <= i < modes.len()
        &&& is_preferred(modes[i])
        &&& forall|j: int| 0 <= j < i ==> !is_preferred(#[trigger] modes[j])
    } else {
        modes.len() > 0 && i == 0
    }
}

/// The plane may scan out through the CRTC at position `c`.
pub open spec fn is_compatible(p: PlaneInfo, crtcs: Seq<CrtcEntry>, c: int) -> bool {
    p.compatible_crtcs@.contains(crtcs[c].handle)
}

pub open spec fn is_type_name(name: Option<String>) -> bool {
    match name {
        Some(s) => s@ == seq!['t', 'y', 'p', 'e'],
        None => false,
    }
}

/// The value of the first property named "type", if any.
pub open spec fn plane_type(props: Seq<PlaneProperty>) -> Option<u64>
    decreases props.len(),
{
    if props.len() == 0 {
        None
    } else if is_type_name(props[0].name) {
        Some(props[0].value)
    } else {
        plane_type(props.drop_first())
    }
}

pub open spec fn is_primary(p: PlaneInfo) -> bool {
    plane_type(p.properties@) == Some(PLANE_TYPE_PRIMARY)
}

pub open spec fn any_compatible(planes: Seq<PlaneInfo>, crtcs: Seq<CrtcEntry>, c: int) -> bool {
    exists|i: int| 0 <= i < planes.len() && is_compatible(#[trigger] planes[i], crtcs, c)
}

pub open spec fn any_compatible_primary(
    planes: Seq<PlaneInfo>,
    crtcs: Seq<CrtcEntry>,
    c: int,
) -> bool {
    exists|i: int|
        0 <= i < planes.len() && is_compatible(#[trigger] planes[i], crtcs, c) && is_primary(
            planes[i],
        )
}

/// The plane to use with the CRTC at `c`: the first compatible primary plane,
/// else the first compatible plane.
pub open spec fn is_chosen_plane(
    planes: Seq<PlaneInfo>,
    crtcs: Seq<CrtcEntry>,
    c: int,
    i: int,
) -> bool {
    &&& 0 <= i < planes.len()
    &&& is_compatible(planes[i], crtcs, c)
    &&& if any_compatible_primary(planes, crtcs, c) {
        &&& is_primary(planes[i])
        &&& forall|j: int|
            0 <= j < i ==> !(is_compatible(#[trigger] planes[j], crtcs, c) && is_primary(
                planes[j],
            ))
    } else {
        forall|j: int| 0 <= j < i ==> !is_compatible(#[trigger] planes[j], crtcs, c)
    }
}

/// Position of the first connector that reports a display attached.
pub fn select_connector(connectors: &Vec<ConnectorInfo>) -> (r: Option<usize>)
    ensures
        match r {
            Some(i) => is_first_connected(connectors@, i as int),
            None => !any_connected(connectors@),
        },
{
    let mut i: usize = 0;
    while i < connectors.len()
        invariant
            i <= connectors.len(),
            forall|j: int| 0 <= j < i ==> !(#[trigger] connectors@[j]).connected,
        decreases connectors.len() - i,
    {
        if connectors[i].connected {
            return Some(i);
        }
        i += 1;
    }
    None
}

/// Position of the first CRTC that the kernel answered for.
pub fn select_crtc(crtcs: &Vec<CrtcEntry>) -> (r: Option<usize>)
    ensures
        match r {
            Some(i) => is_first_available(crtcs@, i as int),
            None => !any_available(crtcs@),
        },
{
    let mut i: usize = 0;
    while i < crtcs.len()
        invariant
            i <= crtcs.len(),
            forall|j: int| 0 <= j < i ==> !(#[trigger] crtcs@[j]).available,
        decreases crtcs.len() - i,
    {
        if crtcs[i].available {
            return Some(i);
        }
        i += 1;
    }
    None
}

/// Position of the mode to use: the first preferred one, else the first one;
/// `None` when the list is empty.
pub fn select_mode(modes: &Vec<ModeInfo>) -> (r: Option<usize>)
    ensures
        match r {
            Some(i) => is_chosen_mode(modes@, i as int),
            None => modes@.len() == 0,
        },
{
    let mut i: usize = 0;
    while i < modes.len()
        invariant
            i <= modes.len(),
            forall|j: int| 0 <= j < i ==> !is_preferred(#[trigger] modes@[j]),
        decreases modes.len() - i,
    {
        if (modes[i].mode_type & MODE_TYPE_PREFERRED) != 0 {
            return Some(i);
        }
        i += 1;
    }
    if modes.len() > 0 {
        Some(0)
    } else {
        None
    }
}

/// The selection that [`negotiate`] makes, given by positions.
pub open spec fn is_negotiated(
    cs: Seq<ConnectorInfo>,
    crtcs: Seq<CrtcEntry>,
    planes: Seq<PlaneInfo>,
    s: Selection,
) -> bool {
    &&& is_first_connected(cs, s.connector as int)
    &&& is_chosen_mode(cs[s.connector as int].modes@, s.mode as int)
    &&& is_first_available(crtcs, s.crtc as int)
    &&& is_chosen_plane(planes, crtcs, s.crtc as int, s.plane as int)
}

/// Whether the plane can be used with the CRTC at position `crtc`.
pub fn plane_is_compatible(plane: &PlaneInfo, crtcs: &Vec<CrtcEntry>, crtc: usize) -> (r: bool)
    requires
        crtc < crtcs@.len(),
    ensures
        r == is_compatible(*plane, crtcs@, crtc as int),
{
    let target = crtcs[crtc].handle;
    let list = &plane.compatible_crtcs;
    let mut n: usize = 0;
    while n < list.len()
        invariant
            n <= list@.len(),
            list@ == plane.compatible_crtcs@,
            crtc < crtcs@.len(),
            target == crtcs@[crtc as int].handle,
            forall|k: int| 0 <= k < n ==> #[trigger] list@[k] != target,
        decreases list.len() - n,
    {
        if list[n] == target {
            assert(list@[n as int] == crtcs@[crtc as int].handle);
            return true;
        }
        n += 1;
    }
    false
}

/// Whether the plane's first property named "type" marks it primary.
pub fn plane_is_primary(plane: &PlaneInfo) -> (r: bool)
    ensures
        r == is_primary(*plane),
{
    let type_key = "type".to_owned();
    proof {
        reveal_strlit("type");
    }
    let props = &plane.properties;
    assert(props@.subrange(0, props@.len() as int) =~= props@);
    let mut i: usize = 0;
    while i < props.len()
        invariant
            i <= props@.len(),
            props@ == plane.properties@,
            type_key@ == seq!['t', 'y', 'p', 'e'],
            plane_type(props@) == plane_type(props@.subrange(i as int, props@.len() as int)),
        decreases props.len() - i,
    {
        let tail = Ghost(props@.subrange(i as int, props@.len() as int));
        assert(tail@.drop_first() =~= props@.subrange(i + 1, props@.len() as int));
        assert(tail@[0] == props@[i as int]);
        let is_type = match &props[i].name {
            Some(name) => *name == type_key,
            None => false,
        };
        if is_type {
            assert(is_type_name(tail@[0].name));
            return props[i].value == PLANE_TYPE_PRIMARY;
        }
        i += 1;
    }
    assert(props@.subrange(i as int, props@.len() as int).len() == 0);
    false
}

/// Position of the plane to use with the CRTC at position `crtc`: the first
/// compatible primary plane, else the first compatible plane; `None` when no
/// plane is compatible.
pub fn find_plane(planes: &Vec<PlaneInfo>, crtcs: &Vec<CrtcEntry>, crtc: usize) -> (r: Option<
    usize,
>)
    requires
        crtc < crtcs@.len(),
    ensures
        match r {
            Some(i) => is_chosen_plane(planes@, crtcs@, crtc as int, i as int),
            None => !any_compatible(planes@, crtcs@, crtc as int),
        },
{
    let ghost c = crtc as int;
    let mut first_primary: Option<usize> = None;
    let mut first_other: Option<usize> = None;
    let mut i: usize = 0;
    while i < planes.len()
        invariant
            i <= planes@.len(),
            crtc < crtcs@.len(),
            c == crtc as int,
            match first_primary {
                Some(k) => {
                    &&& k < i
                    &&& is_compatible(planes@[k as int], crtcs@, c)
                    &&& is_primary(planes@[k as int])
                    &&& forall|j: int|
                        0 <= j < k ==> !(is_compatible(#[trigger] planes@[j], crtcs@, c)
                            && is_primary(planes@[j]))
                },
                None => forall|j: int|
                    0 <= j < i ==> !(is_compatible(#[trigger] planes@[j], crtcs@, c)
                        && is_primary(planes@[j])),
            },
            match first_other {
                Some(k) => {
                    &&& k < i
                    &&& is_compatible(planes@[k as int], crtcs@, c)
                    &&& forall|j: int|
                        0 <= j < k ==> !is_compatible(#[trigger] planes@[j], crtcs@, c)
                },
                None => forall|j: int| 0 <= j < i ==> !is_compatible(#[trigger] planes@[j], crtcs@, c),
            },
        decreases planes.len() - i,
    {
        if plane_is_compatible(&planes[i], crtcs, crtc) {
            if first_other.is_none() {
                first_other = Some(i);
            }
            if first_primary.is_none() && plane_is_primary(&planes[i]) {
                first_primary = Some(i);
            }
        }
        i += 1;
    }
    match first_primary {
        Some(k) => {
            assert(any_compatible_primary(planes@, crtcs@, c));
            Some(k)
        },
        None => {
            assert(!any_compatible_primary(planes@, crtcs@, c));
            first_other
        },
    }
}

/// Chooses the output to drive: the first connected connector, the first CRTC
/// that answered, the connector's preferred mode (else its first), and a plane
/// compatible with that CRTC, primary ones first.
///
/// Fails, checking in this order, when no connector is connected, when no CRTC
/// answered, when the chosen connector advertises no mode, and when no plane is
/// compatible with the chosen CRTC.
pub fn negotiate(
    connectors: &Vec<ConnectorInfo>,
    crtcs: &Vec<CrtcEntry>,
    planes: &Vec<PlaneInfo>,
) -> (r: Result<Selection, NegotiationError>)
    ensures
        match r {
            Ok(s) => is_negotiated(connectors@, crtcs@, planes@, s),
            Err(NegotiationError::NoConnectedConnector) => !any_connected(connectors@),
            Err(NegotiationError::NoCrtc) => any_connected(connectors@) && !any_available(crtcs@),
            Err(NegotiationError::NoModes) => {
                &&& any_available(crtcs@)
                &&& exists|i: int|
                    is_first_connected(connectors@, i) && (#[trigger] connectors@[i]).modes@.len()
                        == 0
            },
            Err(NegotiationError::NoCompatiblePlane) => {
                &&& exists|i: int|
                    is_first_connected(connectors@, i) && (#[trigger] connectors@[i]).modes@.len()
                        > 0
                &&& exists|c: int|
                    is_first_available(crtcs@, c) && !any_compatible(planes@, crtcs@, c)
            },
        },
{
    let connector = match select_connector(connectors) {
        Some(i) => i,
        None => return Err(NegotiationError::NoConnectedConnector),
    };
    let crtc = match select_crtc(crtcs) {
        Some(i) => i,
        None => return Err(NegotiationError::NoCrtc),
    };
    let mode = match select_mode(&connectors[connector].modes) {
        Some(i) => i,
        None => {
            assert(connectors@[connector as int].modes@.len() == 0);
            return Err(NegotiationError::NoModes);
        },
    };
    let plane = match find_plane(planes, crtcs, crtc) {
        Some(i) => i,
        None => {
            assert(connectors@[connector as int].modes@.len() > 0);
            return Err(NegotiationError::NoCompatiblePlane);
        },
    };
    Ok(Selection { connector, mode, crtc, plane })
}

/// When exactly one connector reports a display attached, every negotiated
/// selection uses that connector, wherever it stands in the list.
pub proof fn lemma_single_connected_connector_selected(
    cs: Seq<ConnectorInfo>,
    crtcs: Seq<CrtcEntry>,
    planes: Seq<PlaneInfo>,
    i: int,
)
    requires
        0 <= i < cs.len(),
        cs[i].connected,
        forall|j: int| 0 <= j < cs.len() && j != i ==> !(#[trigger] cs[j]).connected,
    ensures
        any_connected(cs),
        is_first_connected(cs, i),
        forall|s: Selection| #[trigger]
            is_negotiated(cs, crtcs, planes, s) ==> s.connector as int == i,
{
}

/// When a connector flags exactly one mode as preferred, that mode is the one
/// chosen, also where it is not the first in the list.
pub proof fn lemma_preferred_mode_selected(modes: Seq<ModeInfo>, p: int)
    requires
        0 <= p < modes.len(),
        is_preferred(modes[p]),
        forall|j: int| 0 <= j < modes.len() && j != p ==> !is_preferred(#[trigger] modes[j]),
    ensures
        is_chosen_mode(modes, p),
        forall|i: int| #[trigger] is_chosen_mode(modes, i) ==> i == p,
{
    assert(any_preferred(modes));
}

/// When no plane is of the primary type but some plane is compatible with the
/// CRTC, a plane is still chosen, and it is a compatible one.
pub proof fn lemma_non_primary_plane_fallback(
    planes: Seq<PlaneInfo>,
    crtcs: Seq<CrtcEntry>,
    c: int,
)
    requires
        0 <= c < crtcs.len(),
        any_compatible(planes, crtcs, c),
        forall|j: int| 0 <= j < planes.len() ==> !is_primary(#[trigger] planes[j]),
    ensures
        exists|i: int| is_chosen_plane(planes, crtcs, c, i),
        forall|i: int| #[trigger]
            is_chosen_plane(planes, crtcs, c, i) ==> is_compatible(planes[i], crtcs, c)
                && !is_primary(planes[i]),
{
    assert(!any_compatible_primary(planes, crtcs, c));
    let k = choose|k: int| 0 <= k < planes.len() && is_compatible(#[trigger] planes[k], crtcs, c);
    let first = first_compatible(planes, crtcs, c, k);
    assert(is_chosen_plane(planes, crtcs, c, first));
}

/// A first compatible plane exists at or before any compatible one.
proof fn first_compatible(planes: Seq<PlaneInfo>, crtcs: Seq<CrtcEntry>, c: int, k: int) -> (f: int)
    requires
        0 <= k < planes.len(),
        is_compatible(planes[k], crtcs, c),
    ensures
        0 <= f <= k,
        is_compatible(planes[f], crtcs, c),
        forall|j: int| 0 <= j < f ==> !is_compatible(#[trigger] planes[j], crtcs, c),
    decreases k,
{
    if exists|j: int| 0 <= j < k && is_compatible(#[trigger] planes[j], crtcs, c) {
        let j = choose|j: int| 0 <= j < k && is_compatible(#[trigger] planes[j], crtcs, c);
        first_compatible(planes, crtcs, c, j)
    } else {
        k
    }
}

} // verus!
