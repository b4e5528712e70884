pub mod buttons;

use vstd::prelude::*;
use crate::button::Button;
use crate::joypad::buttons::Buttons;
use crate::mmu::interrupt::Interrupt;
use crate::mmu::memory::{Memory, MemoryView};

verus! {

/// The buttons as the joypad register sees them: a bit per button, clear while
/// it is held, and whether a button of each half was newly pressed.
pub struct Controller {
    released: Buttons,
    previously_unset_button_pressed: bool,
    previously_unset_direction_pressed: bool,
}

pub struct ControllerView {
    pub released: u8,
    pub button_pressed: bool,
    pub direction_pressed: bool,
}

impl View for Controller {
    type V = ControllerView;

    closed spec fn view(&self) -> ControllerView {
        ControllerView {
            released: self.released@,
            button_pressed: self.previously_unset_button_pressed,
            direction_pressed: self.previously_unset_direction_pressed,
        }
    }
}

/// The bit of a button in the joypad state.
pub open spec fn button_mask(button: Button) -> u8 {
    match button {
        Button::Right => 0x01,
        Button::Left => 0x02,
        Button::Up => 0x04,
        Button::Down => 0x08,
        Button::A => 0x10,
        Button::B => 0x20,
        Button::Select => 0x40,
        Button::Start => 0x80,
    }
}

/// A, B, Select and Start.
pub open spec fn is_action_button(button: Button) -> bool {
    button_mask(button) >= 0x10
}

fn button_to_buttons(button: Button) -> (r: u8)
    ensures
        r == button_mask(button),
{
    match button {
        Button::Up => Buttons::UP,
        Button::Down => Buttons::DOWN,
        Button::Left => Buttons::LEFT,
        Button::Right => Buttons::RIGHT,
        Button::A => Buttons::A,
        Button::B => Buttons::B,
        Button::Start => Buttons::START,
        Button::Select => Buttons::SELECT,
    }
}

/// The controller after `button` goes down: it leaves the released set, and if it
/// was up, the half it belongs to records a new press (and the other half none).
pub open spec fn pressed(c: ControllerView, button: Button) -> ControllerView {
    let mask = button_mask(button);
    let was_released = c.released & mask == mask;
    ControllerView {
        released: c.released & !mask,
        button_pressed: if was_released {
            is_action_button(button)
        } else {
            c.button_pressed
        },
        direction_pressed: if was_released {
            !is_action_button(button)
        } else {
            c.direction_pressed
        },
    }
}

/// The controller after `button` comes up.
pub open spec fn released(c: ControllerView, button: Button) -> ControllerView {
    ControllerView { released: c.released | button_mask(button), ..c }
}

/// The controller and memory after an update: a new press in the half that the
/// joypad register selects requests the joypad interrupt (action buttons first)
/// and is forgotten; the joypad state is then the released set.
pub open spec fn controller_updated(c: ControllerView, m: MemoryView) -> (ControllerView, MemoryView) {
    let (c1, m1) = if m.action_keys_enabled() && c.button_pressed {
        (ControllerView { button_pressed: false, ..c }, m.interrupt_requested(4))
    } else if m.direction_keys_enabled() && c.direction_pressed {
        (ControllerView { direction_pressed: false, ..c }, m.interrupt_requested(4))
    } else {
        (c, m)
    };
    (c1, MemoryView { joypad_state: c.released, ..m1 })
}

proof fn lemma_masks(mask: u8)
    by (bit_vector)
    requires
        mask == 1 || mask == 2 || mask == 4 || mask == 8 || mask == 0x10 || mask == 0x20 || mask == 0x40 || mask
            == 0x80,
    ensures
        (0xF0u8 & mask == mask) == (mask >= 0x10),
        (0x0Fu8 & mask == mask) == (mask < 0x10),
{
}

impl Controller {
    /// Every button up, no press recorded.
    pub fn new() -> (r: Controller)
        ensures
            r@ == (ControllerView { released: 0xFF, button_pressed: false, direction_pressed: false }),
    {
        Controller {
            released: Buttons::all(),
            previously_unset_button_pressed: false,
            previously_unset_direction_pressed: false,
        }
    }

    /// Passes new presses to the joypad interrupt and the button state to memory.
    pub fn update(&mut self, memory: &mut Memory)
        requires
            old(memory)@.wf(),
        ensures
            (final(self)@, final(memory)@) == controller_updated(old(self)@, old(memory)@),
            final(memory)@.wf(),
    {
        if memory.are_action_keys_enabled() && self.previously_unset_button_pressed {
            memory.request_interrupt(Interrupt::Joypad);
            self.previously_unset_button_pressed = false;
        } else if memory.are_direction_keys_enabled() && self.previously_unset_direction_pressed {
            memory.request_interrupt(Interrupt::Joypad);
            self.previously_unset_direction_pressed = false;
        }
        let bits = self.released.bits();
        memory.set_joypad_state(bits);
    }

    pub fn press(&mut self, button: Button)
        ensures
            final(self)@ == pressed(old(self)@, button),
    {
        let button = button_to_buttons(button);
        if self.released.contains(button) {
            proof {
                lemma_masks(button);
            }
            let action_keys: u8 = Buttons::A | Buttons::B | Buttons::START | Buttons::SELECT;
            assert(action_keys == 0xF0) by (bit_vector)
                requires
                    action_keys == 0x10u8 | 0x20u8 | 0x80u8 | 0x40u8,
            ;
            self.previously_unset_button_pressed = action_keys & button == button;
            let direction_keys: u8 = Buttons::UP | Buttons::DOWN | Buttons::LEFT | Buttons::RIGHT;
            assert(direction_keys == 0x0F) by (bit_vector)
                requires
                    direction_keys == 0x04u8 | 0x08u8 | 0x02u8 | 0x01u8,
            ;
            self.previously_unset_direction_pressed = direction_keys & button == button;
        }
        self.released.remove(button);
    }

    pub fn release(&mut self, button: Button)
        ensures
            final(self)@ == released(old(self)@, button),
    {
        let button = button_to_buttons(button);
        self.released.insert(button);
    }
}

proof fn lemma_mask_bits(x: u8, m: u8)
    by (bit_vector)
    ensures
        (x & !m) | m == x | m,
        x & m == m ==> x | m == x,
        (x & !m) & m == 0,
        (x | m) & m == m,
{
}

/// A pressed button is not in the released set; releasing a button puts it back
/// whatever came before; and a button that was up, pressed and then released,
/// leaves the released set as it was.
pub proof fn lemma_press_then_release(c: ControllerView, b: Button)
    ensures
        pressed(c, b).released & button_mask(b) == 0,
        released(c, b).released & button_mask(b) == button_mask(b),
        released(pressed(c, b), b).released == c.released | button_mask(b),
        c.released & button_mask(b) == button_mask(b) ==> released(pressed(c, b), b).released == c.released,
{
    lemma_mask_bits(c.released, button_mask(b));
}

/// Pressing a button that is already down changes nothing.
pub proof fn lemma_press_twice(c: ControllerView, b: Button)
    ensures
        pressed(pressed(c, b), b) == pressed(c, b),
{
    let x = c.released;
    let m = button_mask(b);
    assert((x & !m) & !m == x & !m && (x & !m) & m != m) by (bit_vector)
        requires
            m != 0,
    ;
}

} // verus!
