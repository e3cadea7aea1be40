//! Choice of the display device node and of the locale for key composition.
//!
//! The caller enumerates the device nodes and reads the environment; the
//! policy that picks among what it found is here.
use vstd::prelude::*;

verus! {

/// A display device node that the host's device enumeration reported.
pub struct CardCandidate {
    /// The seat the device is assigned to; `None` means the default seat.
    pub seat: Option<String>,
    /// The parent PCI device's `boot_vga` attribute, where there is one.
    pub boot_vga: Option<String>,
    /// The device node's path, where it has one.
    pub devnode: Option<String>,
}

#[derive(Debug, Clone, Copy, PartialEq, Eq, Structural)]
pub enum AcquisitionError {
    /// No device node belongs to the seat.
    NoSuitableAdapter,
}

pub open spec fn default_seat_name() -> Seq<char> {
    seq!['s', 'e', 'a', 't', '0']
}

pub open spec fn default_locale_name() -> Seq<char> {
    seq!['C']
}

/// The seat a candidate belongs to.
pub open spec fn seat_of(c: CardCandidate) -> Seq<char> {
    match c.seat {
        Some(s) => s@,
        None => default_seat_name(),
    }
}

/// The candidate belongs to the seat and has a device node.
pub open spec fn is_usable(c: CardCandidate, seat: Seq<char>) -> bool {
    seat_of(c) == seat && c.devnode is Some
}

/// The candidate's parent PCI device is marked as the boot video adapter.
pub open spec fn is_boot_vga(c: CardCandidate) -> bool {
    match c.boot_vga {
        Some(v) => v@ == seq!['1'],
        None => false,
    }
}

pub open spec fn is_preferred_card(c: CardCandidate, seat: Seq<char>) -> bool {
    is_usable(c, seat) && is_boot_vga(c)
}

/// The device to use: the first usable boot adapter of the seat, else the
/// first usable device of the seat.
pub open spec fn is_chosen_card(cs: Seq<CardCandidate>, seat: Seq<char>, i: int) -> bool {
    &&& 0 <= i < cs.len()
    &&& is_usable(cs[i], seat)
    &&& if exists|j: int| 0 <= j < cs.len() && is_preferred_card(#[trigger] cs[j], seat) {
        &&& is_boot_vga(cs[i])
        &&& forall|j: int| 0 <= j < i ==> !is_preferred_card(#[trigger] cs[j], seat)
    } else {
        forall|j: int| 0 <= j < i ==> !is_usable(#[trigger] cs[j], seat)
    }
}

/// The name of the default seat.
pub fn default_seat() -> (r: String)
    ensures
        r@ == default_seat_name(),
{
    proof {
        reveal_strlit("seat0");
    }
    "seat0".to_owned()
}

fn candidate_on_seat(c: &CardCandidate, seat: &String, default: &String) -> (r: bool)
    requires
        default@ == default_seat_name(),
    ensures
        r == (seat_of(*c) == seat@),
{
    match &c.seat {
        Some(s) => *s == *seat,
        None => *default == *seat,
    }
}

fn candidate_is_boot_vga(c: &CardCandidate, one: &String) -> (r: bool)
    requires
        one@ == seq!['1'],
    ensures
        r == is_boot_vga(*c),
{
    match &c.boot_vga {
        Some(v) => *v == *one,
        None => false,
    }
}

/// Position of the device node to open for `seat`: the first one of the seat
/// whose parent is the boot video adapter, else the first one of the seat;
/// only nodes with a path count.
pub fn pick_card(candidates: &Vec<CardCandidate>, seat: &String) -> (r: Option<usize>)
    ensures
        match r {
            Some(i) => is_chosen_card(candidates@, seat@, i as int),
            None => forall|j: int|
                0 <= j < candidates@.len() ==> !is_usable(#[trigger] candidates@[j], seat@),
        },
{
    let default = default_seat();
    proof {
        reveal_strlit("1");
    }
    let one = "1".to_owned();
    let mut first_usable: Option<usize> = None;
    let mut i: usize = 0;
    while i < candidates.len()
        invariant
            i <= candidates@.len(),
            default@ == default_seat_name(),
            one@ == seq!['1'],
            forall|j: int| 0 <= j < i ==> !is_preferred_card(#[trigger] candidates@[j], seat@),
            match first_usable {
                Some(k) => {
                    &&& k < i
                    &&& is_usable(candidates@[k as int], seat@)
                    &&& forall|j: int| 0 <= j < k ==> !is_usable(#[trigger] candidates@[j], seat@)
                },
                None => forall|j: int| 0 <= j < i ==> !is_usable(#[trigger] candidates@[j], seat@),
            },
        decreases candidates.len() - i,
    {
        let c = &candidates[i];
        if candidate_on_seat(c, seat, &default) && c.devnode.is_some() {
            if candidate_is_boot_vga(c, &one) {
                assert(is_preferred_card(candidates@[i as int], seat@));
                return Some(i);
            }
            if first_usable.is_none() {
                first_usable = Some(i);
            }
        }
        i += 1;
    }
    first_usable
}

/// The path of the display device to open: the explicit override when one is
/// given, else the path of the device that [`pick_card`] chooses.
pub fn resolve_card_path(
    override_path: Option<String>,
    candidates: &Vec<CardCandidate>,
    seat: &String,
) -> (r: Result<String, AcquisitionError>)
    ensures
        match override_path {
            Some(p) => r == Ok::<String, AcquisitionError>(p),
            None => match r {
                Ok(p) => exists|i: int|
                    is_chosen_card(candidates@, seat@, i) && (#[trigger] candidates@[i]).devnode
                        == Some(p),
                Err(_) => forall|j: int|
                    0 <= j < candidates@.len() ==> !is_usable(#[trigger] candidates@[j], seat@),
            },
        },
{
    match override_path {
        Some(p) => Ok(p),
        None => match pick_card(candidates, seat) {
            Some(i) => match &candidates[i].devnode {
                Some(p) => Ok(p.clone()),
                None => Err(AcquisitionError::NoSuitableAdapter),
            },
            None => Err(AcquisitionError::NoSuitableAdapter),
        },
    }
}

/// The locale for the compose table: the first of `LC_ALL`, `LC_CTYPE` and
/// `LANG` that is set, else "C".
pub fn select_locale(lc_all: Option<String>, lc_ctype: Option<String>, lang: Option<String>) -> (r:
    String)
    ensures
        r@ == match (lc_all, lc_ctype, lang) {
            (Some(a), _, _) => a@,
            (None, Some(b), _) => b@,
            (None, None, Some(c)) => c@,
            (None, None, None) => default_locale_name(),
        },
{
    match lc_all {
        Some(a) => a,
        None => match lc_ctype {
            Some(b) => b,
            None => match lang {
                Some(c) => c,
                None => {
                    proof {
                        reveal_strlit("C");
                    }
                    "C".to_owned()
                },
            },
        },
    }
}

} // verus!
