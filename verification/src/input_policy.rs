//! Compositor-level input decisions: the key bindings the compositor
//! intercepts before forwarding input to clients, and when a window move grab
//! ends.

use vstd::prelude::*;

verus! {

/// The keysym of the upper-case letter Q.
pub const KEYSYM_Q: u32 = 0x51;

/// The keysym of the first virtual-terminal switch key.
pub const KEYSYM_SWITCH_VT_1: u32 = 0x1008FE01;

/// The keysym of the last virtual-terminal switch key.
pub const KEYSYM_SWITCH_VT_12: u32 = 0x1008FE0C;

/// The button code of the left pointer button, as the kernel defines it.
pub const BTN_LEFT: u32 = 0x110;

/// What the compositor does with a key press.
#[derive(Clone, Copy, PartialEq, Eq, Structural, Debug)]
pub enum KeyAction {
    /// Stop the event loop and exit cleanly.
    Quit,
    /// Switch to the given virtual terminal, numbered from 1.
    SwitchVt { vt: i32 },
    /// Not a compositor binding: forward the key to the focused client.
    Forward,
}

/// Decides a key press from its modified keysym and the held modifiers:
/// Ctrl+Shift+Q quits; the virtual-terminal switch keysyms switch to the
/// terminal they name; everything else is forwarded to the client.
pub fn key_action(modified_keysym: u32, ctrl: bool, shift: bool) -> (a: KeyAction)
    ensures
        a == KeyAction::Quit <==> (modified_keysym == KEYSYM_Q && ctrl && shift),
        a matches KeyAction::SwitchVt { vt } ==> {
            &&& KEYSYM_SWITCH_VT_1 <= modified_keysym <= KEYSYM_SWITCH_VT_12
            &&& vt == modified_keysym - KEYSYM_SWITCH_VT_1 + 1
        },
        (KEYSYM_SWITCH_VT_1 <= modified_keysym <= KEYSYM_SWITCH_VT_12)
            ==> a matches KeyAction::SwitchVt { .. },
        a == KeyAction::Forward <==> !(modified_keysym == KEYSYM_Q && ctrl && shift)
            && !(KEYSYM_SWITCH_VT_1 <= modified_keysym <= KEYSYM_SWITCH_VT_12),
{
    if modified_keysym == KEYSYM_Q && ctrl && shift {
        KeyAction::Quit
    } else if KEYSYM_SWITCH_VT_1 <= modified_keysym && modified_keysym <= KEYSYM_SWITCH_VT_12 {
        let vt: i32 = (modified_keysym - KEYSYM_SWITCH_VT_1 + 1) as i32;
        KeyAction::SwitchVt { vt }
    } else {
        KeyAction::Forward
    }
}

/// Whether a window move grab ends: the grab is released exactly when the
/// left pointer button is no longer among the pressed button codes.
pub fn grab_should_release(pressed: &Vec<u32>) -> (r: bool)
    ensures
        r <==> !pressed@.contains(BTN_LEFT),
{
    let mut k: usize = 0;
    while k < pressed.len()
        invariant
            k <= pressed@.len(),
            forall|j: int| 0 <= j < k ==> pressed@[j] != BTN_LEFT,
        decreases pressed@.len() - k,
    {
        if pressed[k] == BTN_LEFT {
            proof {
                assert(pressed@.contains(BTN_LEFT));
            }
            return false;
        }
        k = k + 1;
    }
    proof {
        assert(!pressed@.contains(BTN_LEFT)) by {
            assert(forall|j: int| 0 <= j < pressed@.len() ==> pressed@[j] != BTN_LEFT);
        }
    }
    true
}

} // verus!
