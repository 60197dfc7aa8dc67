//! Feature capabilities of a workspace, and the check that gates an
//! operation on them.

use vstd::prelude::*;
use vstd::string::*;
use crate::text::{str_eq, eq_ignore_ascii_case_lower, matches_ignore_ascii_case, trim_text, trimmed};

verus! {

/// Which features a workspace has switched on.
#[derive(Debug, Clone, Copy, PartialEq, Eq, Default)]
pub struct Capabilities {
    pub universes: bool,
    pub bestiary: bool,
    pub locations: bool,
    pub timeline: bool,
    pub boards: bool,
    pub forge: bool,
    pub snapshots: bool,
    pub trash: bool,
}

/// `name` is the capability word `word` (written in lower case), ignoring ASCII case.
pub open spec fn is_word(name: Seq<char>, word: &str) -> bool {
    matches_ignore_ascii_case(name, word@)
}

/// Whether the (already trimmed) capability `name` is enabled in `c`.
/// Canonical names and their aliases map onto the stored flags; an unknown
/// name is never enabled.
pub open spec fn capability_enabled(c: Capabilities, name: Seq<char>) -> bool {
    if is_word(name, "novel") || is_word(name, "the_forge") || is_word(name, "forge") {
        c.forge
    } else if is_word(name, "pm") || is_word(name, "project_management") || is_word(name, "boards") {
        c.boards
    } else if is_word(name, "worldbuilding") || is_word(name, "world_building") || is_word(
        name,
        "world-building",
    ) {
        c.universes || c.bestiary || c.locations
    } else if is_word(name, "universes") || is_word(name, "universe") {
        c.universes
    } else if is_word(name, "bestiary") || is_word(name, "creatures") {
        c.bestiary
    } else if is_word(name, "locations") || is_word(name, "location") {
        c.locations
    } else if is_word(name, "timeline") {
        c.timeline
    } else if is_word(name, "trash") {
        c.trash
    } else if is_word(name, "snapshots") {
        c.snapshots
    } else {
        false
    }
}

/// Every flag of `c` is set.
pub open spec fn all_set(c: Capabilities) -> bool {
    c.universes && c.bestiary && c.locations && c.timeline && c.boards && c.forge && c.snapshots
        && c.trash
}

/// The flags that a list of stored capability keys switches on, starting
/// from everything disabled: internal keys set their flag, the canonical
/// aliases `novel`, `pm` and `worldbuilding` set the flags they stand for,
/// unknown keys are ignored.
pub open spec fn caps_from_keys(keys: Seq<Seq<char>>) -> Capabilities
    decreases keys.len(),
{
    if keys.len() == 0 {
        Capabilities {
            universes: false,
            bestiary: false,
            locations: false,
            timeline: false,
            boards: false,
            forge: false,
            snapshots: false,
            trash: false,
        }
    } else {
        apply_key(caps_from_keys(keys.drop_last()), keys.last())
    }
}

/// The flags after one stored key `k` was read (keys are matched exactly).
pub open spec fn apply_key(c: Capabilities, k: Seq<char>) -> Capabilities {
    if k == "universes"@ {
        Capabilities { universes: true, ..c }
    } else if k == "bestiary"@ {
        Capabilities { bestiary: true, ..c }
    } else if k == "locations"@ {
        Capabilities { locations: true, ..c }
    } else if k == "timeline"@ {
        Capabilities { timeline: true, ..c }
    } else if k == "boards"@ || k == "pm"@ {
        Capabilities { boards: true, ..c }
    } else if k == "forge"@ || k == "novel"@ {
        Capabilities { forge: true, ..c }
    } else if k == "snapshots"@ {
        Capabilities { snapshots: true, ..c }
    } else if k == "trash"@ {
        Capabilities { trash: true, ..c }
    } else if k == "worldbuilding"@ {
        Capabilities { universes: true, bestiary: true, locations: true, ..c }
    } else {
        c
    }
}

impl Capabilities {
    /// Everything enabled.
    pub fn all_enabled() -> (r: Self)
        ensures
            all_set(r),
    {
        Capabilities {
            universes: true,
            bestiary: true,
            locations: true,
            timeline: true,
            boards: true,
            forge: true,
            snapshots: true,
            trash: true,
        }
    }

    /// Everything disabled: the fail-closed state before anything was read.
    pub fn none_enabled() -> (r: Self)
        ensures
            r == caps_from_keys(Seq::empty()),
    {
        Capabilities {
            universes: false,
            bestiary: false,
            locations: false,
            timeline: false,
            boards: false,
            forge: false,
            snapshots: false,
            trash: false,
        }
    }

    /// Whether the capability `name`, already trimmed, is enabled.
    pub fn is_enabled_trimmed(&self, name: &str) -> (r: bool)
        ensures
            r == capability_enabled(*self, name@),
    {
        if eq_ignore_ascii_case_lower(name, "novel") || eq_ignore_ascii_case_lower(
            name,
            "the_forge",
        ) || eq_ignore_ascii_case_lower(name, "forge") {
            self.forge
        } else if eq_ignore_ascii_case_lower(name, "pm") || eq_ignore_ascii_case_lower(
            name,
            "project_management",
        ) || eq_ignore_ascii_case_lower(name, "boards") {
            self.boards
        } else if eq_ignore_ascii_case_lower(name, "worldbuilding") || eq_ignore_ascii_case_lower(
            name,
            "world_building",
        ) || eq_ignore_ascii_case_lower(name, "world-building") {
            self.universes || self.bestiary || self.locations
        } else if eq_ignore_ascii_case_lower(name, "universes") || eq_ignore_ascii_case_lower(
            name,
            "universe",
        ) {
            self.universes
        } else if eq_ignore_ascii_case_lower(name, "bestiary") || eq_ignore_ascii_case_lower(
            name,
            "creatures",
        ) {
            self.bestiary
        } else if eq_ignore_ascii_case_lower(name, "locations") || eq_ignore_ascii_case_lower(
            name,
            "location",
        ) {
            self.locations
        } else if eq_ignore_ascii_case_lower(name, "timeline") {
            self.timeline
        } else if eq_ignore_ascii_case_lower(name, "trash") {
            self.trash
        } else if eq_ignore_ascii_case_lower(name, "snapshots") {
            self.snapshots
        } else {
            false
        }
    }

    /// Whether the capability `capability` is enabled; surrounding white
    /// space is ignored, and so is ASCII case.
    pub fn is_enabled(&self, capability: &str) -> (r: bool)
        ensures
            r == capability_enabled(*self, trimmed(capability@)),
    {
        let t = trim_text(capability);
        self.is_enabled_trimmed(t)
    }

    /// The capabilities that a list of stored keys enables.
    pub fn from_keys(keys: &Vec<String>) -> (r: Self)
        ensures
            r == caps_from_keys(keys@.map_values(|k: String| k@)),
    {
        let mut c = Capabilities::none_enabled();
        let ghost kv = keys@.map_values(|k: String| k@);
        let mut i: usize = 0;
        while i < keys.len()
            invariant
                i <= keys.len(),
                kv == keys@.map_values(|k: String| k@),
                c == caps_from_keys(kv.take(i as int)),
            decreases keys.len() - i,
        {
            let k = keys[i].as_str();
            assert(kv.take(i + 1).drop_last() =~= kv.take(i as int));
            c = apply_stored_key(c, k);
            i = i + 1;
        }
        assert(kv.take(keys.len() as int) =~= kv);
        c
    }
}

/// One stored key applied to `c`.
fn apply_stored_key(c: Capabilities, k: &str) -> (r: Capabilities)
    ensures
        r == apply_key(c, k@),
{
    if str_eq(k, "universes") {
        Capabilities { universes: true, ..c }
    } else if str_eq(k, "bestiary") {
        Capabilities { bestiary: true, ..c }
    } else if str_eq(k, "locations") {
        Capabilities { locations: true, ..c }
    } else if str_eq(k, "timeline") {
        Capabilities { timeline: true, ..c }
    } else if str_eq(k, "boards") || str_eq(k, "pm") {
        Capabilities { boards: true, ..c }
    } else if str_eq(k, "forge") || str_eq(k, "novel") {
        Capabilities { forge: true, ..c }
    } else if str_eq(k, "snapshots") {
        Capabilities { snapshots: true, ..c }
    } else if str_eq(k, "trash") {
        Capabilities { trash: true, ..c }
    } else if str_eq(k, "worldbuilding") {
        Capabilities { universes: true, bestiary: true, locations: true, ..c }
    } else {
        c
    }
}

/// An operation was refused because its capability is switched off.
#[derive(Debug, Clone, PartialEq, Eq)]
pub struct CapabilityDisabledError {
    pub capability: String,
}

impl CapabilityDisabledError {
    /// The user-facing message of this error.
    pub fn message(&self) -> (r: String)
        ensures
            r@ == "Capability '"@ + self.capability@ + "' is disabled in this project"@,
    {
        let mut s = String::from_str("Capability '");
        s.append(self.capability.as_str());
        s.append("' is disabled in this project");
        s
    }
}

/// Refuses an operation whose capability is not enabled.
pub fn check_capability(caps: &Capabilities, capability: &str) -> (r: Result<
    (),
    CapabilityDisabledError,
>)
    ensures
        r is Ok <==> capability_enabled(*caps, trimmed(capability@)),
        r matches Err(e) ==> e.capability@ == capability@,
{
    if !caps.is_enabled(capability) {
        return Err(CapabilityDisabledError { capability: capability.to_string() });
    }
    Ok(())
}

/// The keys whose flag is set, in order.
pub open spec fn enabled_of(flags: Seq<(String, bool)>) -> Seq<Seq<char>>
    decreases flags.len(),
{
    if flags.len() == 0 {
        Seq::empty()
    } else if flags.last().1 {
        enabled_of(flags.drop_last()).push(flags.last().0@)
    } else {
        enabled_of(flags.drop_last())
    }
}

/// The capability keys of a stored flag object (key, enabled) whose flag
/// is set, in order.
pub fn enabled_keys(flags: &Vec<(String, bool)>) -> (r: Vec<String>)
    ensures
        crate::kanban::id_views(r@) == enabled_of(flags@),
{
    let mut r: Vec<String> = Vec::new();
    let mut i: usize = 0;
    assert(crate::kanban::id_views(r@) =~= enabled_of(flags@.take(0)));
    while i < flags.len()
        invariant
            i <= flags@.len(),
            crate::kanban::id_views(r@) == enabled_of(flags@.take(i as int)),
        decreases flags.len() - i,
    {
        assert(flags@.take(i + 1).drop_last() =~= flags@.take(i as int));
        if flags[i].1 {
            let ghost before = r@;
            r.push(flags[i].0.clone());
            assert(crate::kanban::id_views(r@) =~= crate::kanban::id_views(before).push(flags@[i as int].0@));
        }
        i = i + 1;
    }
    assert(flags@.take(flags@.len() as int) =~= flags@);
    r
}

} // verus!
