use vstd::prelude::*;

verus! {

/// Number of mods in the menu; bit `i` of a mod bitmask stands for mod `i`.
pub const MOD_COUNT: u32 = 6;

/// A one-shot change to the game that a mod makes when it is switched on
/// or off. The numeric values (speeds, scales, colours) belong to the code
/// that performs the change.
#[derive(Clone, Copy, Debug, PartialEq, Eq, Structural)]
pub enum Effect {
    /// Nothing to do.
    NoChange,
    /// Set the player's velocity to zero.
    StopMotion,
    /// Lengthen the arms (player scale multiplier 1.5).
    LongArms,
    /// Restore the default player scale (1.0).
    NormalArms,
    /// Disable player movement.
    FreezeMovement,
    /// Enable player movement again.
    UnfreezeMovement,
    /// Grey, ghost-like rig colour (0.5, 0.5, 0.5).
    GhostColour,
    /// Black rig colour (0.0, 0.0, 0.0).
    PlainColour,
}

/// A mod of the menu: its id (used in saved configuration), its display
/// name, and whether it does work on every frame while it is on.
#[derive(Clone, Copy, Debug)]
pub struct Mod {
    pub id: &'static str,
    pub name: &'static str,
    pub has_tick: bool,
}

/// The ids of the mods, in bitmask order.
pub open spec fn mod_ids() -> Seq<Seq<char>> {
    seq!["speed"@, "fly"@, "long_arms"@, "freeze"@, "ghost"@, "bounce"@]
}

/// The display names of the mods, in bitmask order.
pub open spec fn mod_names() -> Seq<Seq<char>> {
    seq!["Speed Boost"@, "Fly"@, "Long Arms"@, "Freeze Self"@, "Ghost"@, "Bounce"@]
}

/// What switching mod `i` on does.
pub open spec fn enable_effect(i: int) -> Effect {
    if i == 2 {
        Effect::LongArms
    } else if i == 3 {
        Effect::FreezeMovement
    } else if i == 4 {
        Effect::GhostColour
    } else {
        Effect::NoChange
    }
}

/// What switching mod `i` off does.
pub open spec fn disable_effect(i: int) -> Effect {
    if i == 0 || i == 1 {
        Effect::StopMotion
    } else if i == 2 {
        Effect::NormalArms
    } else if i == 3 {
        Effect::UnfreezeMovement
    } else if i == 4 {
        Effect::PlainColour
    } else {
        Effect::NoChange
    }
}

/// Whether mod `i` has per-frame work: speed boost, fly and bounce do.
pub open spec fn mod_ticks(i: int) -> bool {
    i == 0 || i == 1 || i == 5
}

/// What switching each mod on and off does: speed boost and fly stop the
/// player when switched off; long arms scale the player to 1.5 and back;
/// freeze self disables and re-enables movement; ghost greys the rig and
/// restores it; bounce does nothing either way. Speed boost (0), fly (1) and
/// bounce (5) have per-frame work; no index past the table does anything.
pub proof fn lemma_effect_table()
    ensures
        enable_effect(0) == Effect::NoChange && disable_effect(0) == Effect::StopMotion,
        enable_effect(1) == Effect::NoChange && disable_effect(1) == Effect::StopMotion,
        enable_effect(2) == Effect::LongArms && disable_effect(2) == Effect::NormalArms,
        enable_effect(3) == Effect::FreezeMovement && disable_effect(3)
            == Effect::UnfreezeMovement,
        enable_effect(4) == Effect::GhostColour && disable_effect(4) == Effect::PlainColour,
        enable_effect(5) == Effect::NoChange && disable_effect(5) == Effect::NoChange,
        forall|i: int|
            i < 0 || i >= 6 ==> enable_effect(i) == Effect::NoChange && disable_effect(i)
                == Effect::NoChange,
        forall|i: int| mod_ticks(i) <==> (i == 0 || i == 1 || i == 5),
{
}

/// Speed boost: switching it on changes nothing by itself.
pub fn speed_enable() -> (e: Effect)
    ensures
        e == enable_effect(0),
{
    Effect::NoChange
}

/// Speed boost off: stop the player.
pub fn speed_disable() -> (e: Effect)
    ensures
        e == disable_effect(0),
{
    Effect::StopMotion
}

/// Fly: switching it on changes nothing by itself.
pub fn fly_enable() -> (e: Effect)
    ensures
        e == enable_effect(1),
{
    Effect::NoChange
}

/// Fly off: stop the player.
pub fn fly_disable() -> (e: Effect)
    ensures
        e == disable_effect(1),
{
    Effect::StopMotion
}

/// Long arms on: scale the player up.
pub fn long_arms_enable() -> (e: Effect)
    ensures
        e == enable_effect(2),
{
    Effect::LongArms
}

/// Long arms off: default scale.
pub fn long_arms_disable() -> (e: Effect)
    ensures
        e == disable_effect(2),
{
    Effect::NormalArms
}

/// Freeze self on: disable movement.
pub fn freeze_enable() -> (e: Effect)
    ensures
        e == enable_effect(3),
{
    Effect::FreezeMovement
}

/// Freeze self off: enable movement.
pub fn freeze_disable() -> (e: Effect)
    ensures
        e == disable_effect(3),
{
    Effect::UnfreezeMovement
}

/// Ghost on: grey rig colour.
pub fn ghost_enable() -> (e: Effect)
    ensures
        e == enable_effect(4),
{
    Effect::GhostColour
}

/// Ghost off: plain rig colour.
pub fn ghost_disable() -> (e: Effect)
    ensures
        e == disable_effect(4),
{
    Effect::PlainColour
}

/// Bounce: switching it on changes nothing by itself.
pub fn bounce_enable() -> (e: Effect)
    ensures
        e == enable_effect(5),
{
    Effect::NoChange
}

/// Bounce: switching it off changes nothing by itself.
pub fn bounce_disable() -> (e: Effect)
    ensures
        e == disable_effect(5),
{
    Effect::NoChange
}

/// The effect of switching mod `i` on; indices past the table do nothing.
pub fn on_enable(i: u32) -> (e: Effect)
    ensures
        e == enable_effect(i as int),
{
    if i == 0 {
        speed_enable()
    } else if i == 1 {
        fly_enable()
    } else if i == 2 {
        long_arms_enable()
    } else if i == 3 {
        freeze_enable()
    } else if i == 4 {
        ghost_enable()
    } else if i == 5 {
        bounce_enable()
    } else {
        Effect::NoChange
    }
}

/// The effect of switching mod `i` off; indices past the table do nothing.
pub fn on_disable(i: u32) -> (e: Effect)
    ensures
        e == disable_effect(i as int),
{
    if i == 0 {
        speed_disable()
    } else if i == 1 {
        fly_disable()
    } else if i == 2 {
        long_arms_disable()
    } else if i == 3 {
        freeze_disable()
    } else if i == 4 {
        ghost_disable()
    } else if i == 5 {
        bounce_disable()
    } else {
        Effect::NoChange
    }
}

/// Whether mod `i` has per-frame work; indices past the table have none.
pub fn has_tick(i: u32) -> (b: bool)
    ensures
        b == mod_ticks(i as int),
        b == (i == 0 || i == 1 || i == 5),
{
    i == 0 || i == 1 || i == 5
}

/// The menu's mods, in bitmask order.
pub fn all_mods() -> (v: Vec<Mod>)
    ensures
        v.len() == MOD_COUNT,
        forall|i: int| 0 <= i < 6 ==> #[trigger] v[i].id@ == mod_ids()[i],
        forall|i: int| 0 <= i < 6 ==> #[trigger] v[i].name@ == mod_names()[i],
        v[0].id@ == "speed"@ && v[0].name@ == "Speed Boost"@,
        v[1].id@ == "fly"@ && v[1].name@ == "Fly"@,
        v[2].id@ == "long_arms"@ && v[2].name@ == "Long Arms"@,
        v[3].id@ == "freeze"@ && v[3].name@ == "Freeze Self"@,
        v[4].id@ == "ghost"@ && v[4].name@ == "Ghost"@,
        v[5].id@ == "bounce"@ && v[5].name@ == "Bounce"@,
        v[0].has_tick && v[1].has_tick && !v[2].has_tick && !v[3].has_tick && !v[4].has_tick
            && v[5].has_tick,
        forall|i: int| 0 <= i < 6 ==> #[trigger] v[i].has_tick == mod_ticks(i),
{
    let mut v: Vec<Mod> = Vec::new();
    v.push(Mod { id: "speed", name: "Speed Boost", has_tick: true });
    v.push(Mod { id: "fly", name: "Fly", has_tick: true });
    v.push(Mod { id: "long_arms", name: "Long Arms", has_tick: false });
    v.push(Mod { id: "freeze", name: "Freeze Self", has_tick: false });
    v.push(Mod { id: "ghost", name: "Ghost", has_tick: false });
    v.push(Mod { id: "bounce", name: "Bounce", has_tick: true });
    v
}

} // verus!
