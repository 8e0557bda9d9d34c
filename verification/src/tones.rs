//! The tones of the buttons: each button that is held down has a tone of its own.
use vstd::prelude::*;

use crate::audio::{play_tone, requested_tone, Tone};
use crate::buttons::{button_index, Button, ButtonEvent};

verus! {

/// The drive of the buttons' tones.
pub const BUTTON_TEST_DRIVE_PERCENT: u8 = 10;

/// The pitch of a button.
pub open spec fn button_frequency(button: Button) -> u32 {
    match button {
        Button::One => 330,
        Button::Two => 440,
        Button::Three => 550,
        Button::Four => 660,
    }
}

pub fn button_test_frequency_hz(button: Button) -> (frequency_hz: u32)
    ensures
        frequency_hz == button_frequency(button),
{
    match button {
        Button::One => 330,
        Button::Two => 440,
        Button::Three => 550,
        Button::Four => 660,
    }
}

/// The tone of a button.
pub open spec fn button_tone(button: Button) -> Option<Tone> {
    requested_tone(button_frequency(button), BUTTON_TEST_DRIVE_PERCENT)
}

/// Which buttons are held down, and whose tone is played: that of the one pressed last.
pub struct HeldTones {
    pub held: [bool; 4],
    pub active: Option<Button>,
}

/// The last in order of the buttons that are held down.
pub open spec fn last_held(held: Seq<bool>) -> Option<Button> {
    if held[3] {
        Some(Button::Four)
    } else if held[2] {
        Some(Button::Three)
    } else if held[1] {
        Some(Button::Two)
    } else if held[0] {
        Some(Button::One)
    } else {
        None
    }
}

/// Whose tone is played after a change.
pub open spec fn active_after(
    held: Seq<bool>,
    active: Option<Button>,
    event: ButtonEvent,
) -> Option<Button> {
    if event.pressed {
        Some(event.button)
    } else if active == Some(event.button) {
        last_held(held.update(button_index(event.button), false))
    } else {
        active
    }
}

/// The tone that is to be played from a change on, where it changes anything.
pub open spec fn tone_request(
    held: Seq<bool>,
    active: Option<Button>,
    event: ButtonEvent,
) -> Option<Option<Tone>> {
    if event.pressed || active == Some(event.button) {
        Some(
            match active_after(held, active, event) {
                Some(button) => button_tone(button),
                None => None,
            },
        )
    } else {
        None
    }
}

impl HeldTones {
    /// A tone is played exactly while a button is held down, and it is that of such a button.
    pub open spec fn wf(self) -> bool {
        &&& self.active is Some <==> last_held(self.held@) is Some
        &&& self.active matches Some(button) ==> self.held@[button_index(button)]
    }

    pub fn new() -> (tones: Self)
        ensures
            tones.wf(),
            tones.held@ == seq![false, false, false, false],
            tones.active is None,
    {
        let tones = HeldTones { held: [false, false, false, false], active: None };
        assert(tones.held@ =~= seq![false, false, false, false]);
        tones
    }

    /// Takes a change of a button. Gives the tone that is to be played from now on, silence among
    /// them; `None` where nothing changes.
    pub fn on_event(&mut self, event: ButtonEvent) -> (request: Option<Option<Tone>>)
        requires
            old(self).wf(),
        ensures
            final(self).wf(),
            final(self).held@ == old(self).held@.update(
                button_index(event.button),
                event.pressed,
            ),
            final(self).active == active_after(old(self).held@, old(self).active, event),
            request == tone_request(old(self).held@, old(self).active, event),
    {
        let index: usize = event.button.index();
        self.held[index] = event.pressed;
        if event.pressed {
            self.active = Some(event.button);
            return Some(
                play_tone(button_test_frequency_hz(event.button), BUTTON_TEST_DRIVE_PERCENT),
            );
        }
        let was_active: bool = match self.active {
            Some(active) => active == event.button,
            None => false,
        };
        if !was_active {
            return None;
        }
        self.active = if self.held[3] {
            Some(Button::Four)
        } else if self.held[2] {
            Some(Button::Three)
        } else if self.held[1] {
            Some(Button::Two)
        } else if self.held[0] {
            Some(Button::One)
        } else {
            None
        };
        match self.active {
            Some(button) => Some(
                play_tone(button_test_frequency_hz(button), BUTTON_TEST_DRIVE_PERCENT),
            ),
            None => Some(None),
        }
    }
}

/// A button that is released while another one has the loudspeaker does not disturb its tone, and
/// one that had it leaves it to a button that is still held down, where there is one.
pub proof fn law_released_buttons_hand_on(held: Seq<bool>, active: Option<Button>, button: Button)
    requires
        held.len() == 4,
    ensures
        ({
            let event = ButtonEvent { button, pressed: false };
            let after = active_after(held, active, event);
            &&& active != Some(button) ==> after == active
            &&& active == Some(button) ==> (after matches Some(next) ==> next != button
                && held[button_index(next)])
            &&& active == Some(button) && after is None ==> forall|i: int|
                0 <= i < 4 && i != button_index(button) ==> !held[i]
        }),
{
    let rest = held.update(button_index(button), false);
    assert forall|i: int|
        0 <= i < 4 && i != button_index(button) && last_held(rest) is None implies !held[i] by {
        assert(rest[i] == held[i]);
    }
}

/// Each button has a pitch of its own, 110 Hz above that of the one before it, from 330 Hz on, and
/// all are driven by a tenth.
pub proof fn law_pitches_of_the_buttons(button: Button)
    ensures
        button_frequency(button) == 330 + 110 * button_index(button),
        button_tone(button) == Some(
            Tone { frequency_hz: button_frequency(button), drive_percent: 10 },
        ),
{
}

/// The last in order of the buttons that are held down is held down, and none behind it is. There
/// is none exactly where no button is held down.
pub proof fn law_last_of_the_held_buttons(held: Seq<bool>)
    requires
        held.len() == 4,
    ensures
        last_held(held) matches Some(button) ==> held[button_index(button)] && forall|i: int|
            button_index(button) < i < 4 ==> !#[trigger] held[i],
        last_held(held) is None <==> forall|i: int| 0 <= i < 4 ==> !#[trigger] held[i],
{
    if forall|i: int| 0 <= i < 4 ==> !#[trigger] held[i] {
        assert(!held[0] && !held[1] && !held[2] && !held[3]);
    }
}

/// A button that goes down is heard at once, whatever was held down before. One that comes up is
/// heard only where it had the loudspeaker: the last in order of those still down is heard then,
/// and none of them means silence.
pub proof fn law_what_is_heard_of_a_button(
    held: Seq<bool>,
    active: Option<Button>,
    event: ButtonEvent,
)
    requires
        held.len() == 4,
    ensures
        ({
            let request = tone_request(held, active, event);
            let down = held.update(button_index(event.button), false);
            &&& event.pressed ==> request == Some(
                Some(
                    Tone {
                        frequency_hz: (330 + 110 * button_index(event.button)) as u32,
                        drive_percent: 10,
                    },
                ),
            ) && active_after(held, active, event) == Some(event.button)
            &&& !event.pressed && active != Some(event.button) ==> request is None
                && active_after(held, active, event) == active
            &&& !event.pressed && active == Some(event.button) ==> request is Some
                && active_after(held, active, event) == last_held(down)
            &&& !event.pressed && active == Some(event.button) && (forall|i: int|
                0 <= i < 4 ==> !#[trigger] down[i]) ==> request == Some(None::<Tone>)
            &&& !event.pressed && active == Some(event.button) && last_held(down) is Some
                ==> request->0 is Some && request->0->0.frequency_hz == 330 + 110 * button_index(
                last_held(down)->0,
            )
        }),
{
    law_last_of_the_held_buttons(held.update(button_index(event.button), false));
    law_pitches_of_the_buttons(event.button);
    if let Some(button) = last_held(held.update(button_index(event.button), false)) {
        law_pitches_of_the_buttons(button);
    }
}

} // verus!
