use vstd::prelude::*;
use crate::text::{chars_equal, chars_of, parse_usize_chars, parse_usize_spec};

verus! {

/// Route key prefix of the hotbar slot widgets.
pub open spec fn hotbar_slot_prefix() -> Seq<char> {
    "aetna_hotbar_slot_"@
}

/// Route key prefix of the orientation buttons.
pub open spec fn orientation_prefix() -> Seq<char> {
    "aetna_orientation_"@
}

/// `s` begins with `prefix`.
pub open spec fn has_prefix(s: Seq<char>, prefix: Seq<char>) -> bool {
    prefix.len() <= s.len() && s.take(prefix.len() as int) == prefix
}

/// `s` with `prefix` removed, when `s` begins with it (`str::strip_prefix`).
pub open spec fn strip_prefix_spec(s: Seq<char>, prefix: Seq<char>) -> Option<Seq<char>> {
    if has_prefix(s, prefix) {
        Some(s.skip(prefix.len() as int))
    } else {
        None
    }
}

fn strip_prefix_chars(s: &Vec<char>, prefix: &str) -> (r: Option<Vec<char>>)
    ensures
        match r {
            Some(rest) => strip_prefix_spec(s@, prefix@) == Some(rest@),
            None => strip_prefix_spec(s@, prefix@) is None,
        },
{
    let p = chars_of(prefix);
    if p.len() > s.len() {
        return None;
    }
    let mut i: usize = 0;
    while i < p.len()
        invariant
            p@ == prefix@,
            p.len() <= s.len(),
            0 <= i <= p.len(),
            forall|j: int| 0 <= j < i ==> s@[j] == p@[j],
        decreases p.len() - i,
    {
        if s[i] != p[i] {
            assert(s@.take(p@.len() as int)[i as int] != p@[i as int]);
            return None;
        }
        i = i + 1;
    }
    assert(s@.take(p@.len() as int) =~= p@);
    let mut rest: Vec<char> = Vec::new();
    let mut k: usize = p.len();
    while k < s.len()
        invariant
            p@ == prefix@,
            p.len() <= k <= s.len(),
            rest@ == s@.subrange(p.len() as int, k as int),
        decreases s.len() - k,
    {
        rest.push(s[k]);
        assert(rest@ =~= s@.subrange(p.len() as int, k + 1));
        k = k + 1;
    }
    assert(rest@ =~= s@.skip(p.len() as int));
    Some(rest)
}

/// The hotbar slot a route names: the prefix, then a slot number below 9 as
/// `str::parse::<usize>` reads it.
pub open spec fn hotbar_slot_route_spec(route: Seq<char>) -> Option<usize> {
    match strip_prefix_spec(route, hotbar_slot_prefix()) {
        None => None,
        Some(suffix) => match parse_usize_spec(suffix) {
            Some(index) => if index < 9 {
                Some(index)
            } else {
                None
            },
            None => None,
        },
    }
}

/// The hotbar slot named by a widget route (see `hotbar_slot_route_spec`).
pub fn aetna_hotbar_slot_index(route: &str) -> (r: Option<usize>)
    ensures
        r == hotbar_slot_route_spec(route@),
{
    let chars = chars_of(route);
    let suffix = match strip_prefix_chars(&chars, "aetna_hotbar_slot_") {
        Some(rest) => rest,
        None => {
            return None;
        },
    };
    match parse_usize_chars(&suffix) {
        Some(index) => if index < 9 {
            Some(index)
        } else {
            None
        },
        None => None,
    }
}

/// What an orientation button does to the placement orientation.
#[derive(Copy, Clone, Debug, PartialEq, Eq, Structural)]
pub enum OrientationAction {
    /// Compose a quarter turn in the XZ plane.
    RotateXz,
    /// Compose a quarter turn in the YZ plane.
    RotateYz,
    /// Compose a quarter turn in the XW plane.
    RotateXw,
    /// Compose a quarter turn in the XY plane.
    RotateXy,
    /// Compose a quarter turn in the YW plane.
    RotateYw,
    /// Compose a quarter turn in the ZW plane.
    RotateZw,
    /// Back to the identity orientation.
    Reset,
    /// Leave the orientation as it is.
    Keep,
}

/// The action named by an orientation button's action text.
pub open spec fn orientation_action_spec(action: Seq<char>) -> OrientationAction {
    if action == "xz"@ {
        OrientationAction::RotateXz
    } else if action == "yz"@ {
        OrientationAction::RotateYz
    } else if action == "xw"@ {
        OrientationAction::RotateXw
    } else if action == "xy"@ {
        OrientationAction::RotateXy
    } else if action == "yw"@ {
        OrientationAction::RotateYw
    } else if action == "zw"@ {
        OrientationAction::RotateZw
    } else if action == "reset"@ {
        OrientationAction::Reset
    } else {
        OrientationAction::Keep
    }
}

fn orientation_action_of(action: &Vec<char>) -> (r: OrientationAction)
    ensures
        r == orientation_action_spec(action@),
{
    if chars_equal(action, "xz") {
        OrientationAction::RotateXz
    } else if chars_equal(action, "yz") {
        OrientationAction::RotateYz
    } else if chars_equal(action, "xw") {
        OrientationAction::RotateXw
    } else if chars_equal(action, "xy") {
        OrientationAction::RotateXy
    } else if chars_equal(action, "yw") {
        OrientationAction::RotateYw
    } else if chars_equal(action, "zw") {
        OrientationAction::RotateZw
    } else if chars_equal(action, "reset") {
        OrientationAction::Reset
    } else {
        OrientationAction::Keep
    }
}

/// What a widget route asks of the overlay.
#[derive(Copy, Clone, Debug, PartialEq, Eq, Structural)]
pub enum OverlayRoute {
    /// A hotbar slot widget: select that slot when it is clicked or activated.
    HotbarSlot(usize),
    /// An orientation button: apply that action when it is clicked or activated.
    Orientation(OrientationAction),
    /// A route the overlay does not handle; the event is not consumed.
    Other,
}

/// How the overlay reads a route: a hotbar slot route first, then any route under the
/// orientation prefix.
pub open spec fn overlay_route_spec(route: Seq<char>) -> OverlayRoute {
    match hotbar_slot_route_spec(route) {
        Some(index) => OverlayRoute::HotbarSlot(index),
        None => match strip_prefix_spec(route, orientation_prefix()) {
            Some(action) => OverlayRoute::Orientation(orientation_action_spec(action)),
            None => OverlayRoute::Other,
        },
    }
}

/// Classify a widget route of the overlay (see `overlay_route_spec`).
pub fn overlay_route(route: &str) -> (r: OverlayRoute)
    ensures
        r == overlay_route_spec(route@),
{
    if let Some(index) = aetna_hotbar_slot_index(route) {
        return OverlayRoute::HotbarSlot(index);
    }
    let chars = chars_of(route);
    match strip_prefix_chars(&chars, "aetna_orientation_") {
        Some(action) => OverlayRoute::Orientation(orientation_action_of(&action)),
        None => OverlayRoute::Other,
    }
}

} // verus!
