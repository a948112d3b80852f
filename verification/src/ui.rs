use vstd::prelude::*;
use vstd::string::*;
use crate::mods::{all_mods, mod_ids, MOD_COUNT};

verus! {

/// How a menu button is drawn: the cursor's button stands out, then mods
/// that are on, then the rest.
#[derive(Clone, Copy, Debug, PartialEq, Eq, Structural)]
pub enum ButtonStyle {
    /// Yellow: the button under the cursor.
    Cursor,
    /// Green: a mod that is on.
    On,
    /// Light grey: a mod that is off.
    Off,
}

/// The style of button `i` when the cursor is on `selected` and the mod is
/// on or off as `enabled` says.
pub fn button_style(i: usize, selected: usize, enabled: bool) -> (s: ButtonStyle)
    ensures
        s == (if i == selected {
            ButtonStyle::Cursor
        } else if enabled {
            ButtonStyle::On
        } else {
            ButtonStyle::Off
        }),
{
    if i == selected {
        ButtonStyle::Cursor
    } else if enabled {
        ButtonStyle::On
    } else {
        ButtonStyle::Off
    }
}

/// The label of a mod's button: `[ON]  ` or `[OFF] ` before its name.
pub fn button_label(name: &str, enabled: bool) -> (l: String)
    ensures
        l@ == (if enabled { "[ON]  "@ } else { "[OFF] "@ }) + name@,
{
    if enabled {
        String::from_str("[ON]  ").concat(name)
    } else {
        String::from_str("[OFF] ").concat(name)
    }
}

/// Whether `id` is among `ids`.
pub fn id_listed(ids: &Vec<String>, id: &str) -> (b: bool)
    ensures
        b == exists|k: int| 0 <= k < ids@.len() && #[trigger] ids@[k]@ == id@,
{
    let target = String::from_str(id);
    let mut i: usize = 0;
    while i < ids.len()
        invariant
            i <= ids@.len(),
            target@ == id@,
            forall|k: int| 0 <= k < i ==> #[trigger] ids@[k]@ != id@,
        decreases ids@.len() - i,
    {
        if ids[i] == target {
            return true;
        }
        i = i + 1;
    }
    false
}

/// The index of the first mod whose id is `id`, if any.
pub fn mod_index_of(id: &str) -> (r: Option<u32>)
    ensures
        r matches Some(k) ==> k < MOD_COUNT && mod_ids()[k as int] == id@
            && forall|j: int| 0 <= j < k ==> mod_ids()[j] != id@,
        r is None ==> forall|j: int| 0 <= j < MOD_COUNT ==> mod_ids()[j] != id@,
{
    let mods = all_mods();
    let target = String::from_str(id);
    let mut i: usize = 0;
    while i < mods.len()
        invariant
            i <= mods@.len(),
            mods@.len() == MOD_COUNT,
            target@ == id@,
            forall|k: int| 0 <= k < MOD_COUNT ==> #[trigger] mods@[k].id@ == mod_ids()[k],
            forall|j: int| 0 <= j < i ==> mod_ids()[j] != id@,
        decreases mods@.len() - i,
    {
        let m = String::from_str(mods[i].id);
        if m == target {
            return Some(i as u32);
        }
        i = i + 1;
    }
    None
}

} // verus!
