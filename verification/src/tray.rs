//! The tray icon: what its menu entries and clicks mean, and the pixels of
//! its image.

use crate::text::str_eq;
use vstd::prelude::*;

verus! {

/// What a menu entry or a click on the tray icon asks for.
#[derive(Debug, Clone, Copy, PartialEq, Eq, Structural)]
pub enum TrayCommand {
    ToggleWindow,
    ShowWindow,
    Quit,
    /// An entry without effect.
    Nothing,
}

/// The command of a menu entry, by the entry's identifier.
pub open spec fn menu_command(menu_id: Seq<char>) -> TrayCommand {
    if menu_id == "show_hide"@ {
        TrayCommand::ToggleWindow
    } else if menu_id == "preferences"@ {
        TrayCommand::ShowWindow
    } else if menu_id == "quit"@ {
        TrayCommand::Quit
    } else {
        TrayCommand::Nothing
    }
}

/// Finds the command of a menu entry.
pub fn handle_menu_event(menu_id: &str) -> (command: TrayCommand)
    ensures
        command == menu_command(menu_id@),
{
    if str_eq(menu_id, "show_hide") {
        TrayCommand::ToggleWindow
    } else if str_eq(menu_id, "preferences") {
        TrayCommand::ShowWindow
    } else if str_eq(menu_id, "quit") {
        TrayCommand::Quit
    } else {
        TrayCommand::Nothing
    }
}

/// A click on the tray icon, as far as it matters.
#[derive(Debug, Clone, Copy, PartialEq, Eq, Structural)]
pub enum TrayClick {
    /// The left button was released.
    LeftUp,
    /// The left button was clicked twice.
    LeftDouble,
    Other,
}

/// Finds the command of a click on the tray icon.
pub fn handle_tray_event(click: TrayClick) -> (command: TrayCommand)
    ensures
        command == (match click {
            TrayClick::LeftUp => TrayCommand::ToggleWindow,
            TrayClick::LeftDouble => TrayCommand::ShowWindow,
            TrayClick::Other => TrayCommand::Nothing,
        }),
{
    match click {
        TrayClick::LeftUp => TrayCommand::ToggleWindow,
        TrayClick::LeftDouble => TrayCommand::ShowWindow,
        TrayClick::Other => TrayCommand::Nothing,
    }
}

/// The text that tells whether the window can be seen.
pub fn update_tray_tooltip(visible: bool) -> (state: &'static str)
    ensures
        state@ == (if visible {
            "visible"@
        } else {
            "hidden"@
        }),
{
    if visible {
        "visible"
    } else {
        "hidden"
    }
}

/// Pixels of three bytes each with an opaque alpha byte behind each. A
/// last pixel that is cut short keeps the bytes it has.
pub open spec fn with_alpha(rgb: Seq<u8>) -> Seq<u8>
    decreases rgb.len(),
{
    if rgb.len() == 0 {
        Seq::empty()
    } else if rgb.len() < 3 {
        rgb.push(255u8)
    } else {
        rgb.take(3).push(255u8) + with_alpha(rgb.skip(3))
    }
}

/// Turns RGB pixels into RGBA pixels that are fully opaque.
pub fn rgb_to_rgba(rgb: &Vec<u8>) -> (rgba: Vec<u8>)
    ensures
        rgba@ == with_alpha(rgb@),
{
    let mut rgba: Vec<u8> = Vec::new();
    let mut i: usize = 0;
    assert(rgb@.skip(0) =~= rgb@);
    assert(rgba@ + with_alpha(rgb@) =~= with_alpha(rgb@));
    while i < rgb.len()
        invariant
            i <= rgb.len(),
            rgba@ + with_alpha(rgb@.skip(i as int)) == with_alpha(rgb@),
        decreases rgb.len() - i,
    {
        let ghost rest = rgb@.skip(i as int);
        let ghost before = rgba@;
        let end: usize = if rgb.len() - i < 3 {
            rgb.len()
        } else {
            i + 3
        };
        let mut k: usize = i;
        while k < end
            invariant
                i <= k <= end <= rgb.len(),
                rgba@ == before + rgb@.subrange(i as int, k as int),
            decreases end - k,
        {
            rgba.push(rgb[k]);
            assert(rgba@ =~= before + rgb@.subrange(i as int, k + 1));
            k += 1;
        }
        rgba.push(255);
        proof {
            if rest.len() < 3 {
                assert(rgb@.subrange(i as int, end as int) =~= rest);
                assert(rgb@.skip(end as int) =~= Seq::<u8>::empty());
                assert(rgba@ + with_alpha(rgb@.skip(end as int)) =~= before + with_alpha(rest));
            } else {
                assert(rgb@.subrange(i as int, end as int) =~= rest.take(3));
                assert(rgb@.skip(end as int) =~= rest.skip(3));
                assert(rgba@ + with_alpha(rgb@.skip(end as int)) =~= before + with_alpha(rest));
            }
        }
        i = end;
    }
    assert(rgb@.skip(rgb.len() as int) =~= Seq::<u8>::empty());
    assert(rgba@ + Seq::<u8>::empty() =~= rgba@);
    rgba
}

} // verus!
