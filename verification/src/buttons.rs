//! The four buttons, freed from contact bounce.
use vstd::prelude::*;

verus! {

/// How often the inputs are sampled.
pub const POLL_INTERVAL_MS: u64 = 5;

/// How many samples in a row have to differ before a change is believed.
pub const DEBOUNCE_SAMPLES: u8 = 4;

/// How many changes can wait to be handled.
pub const EVENT_CHANNEL_DEPTH: usize = 8;

#[derive(Clone, Copy, Debug, PartialEq, Eq, Structural)]
pub enum Button {
    One,
    Two,
    Three,
    Four,
}

/// The place of a button, counted from 0.
pub open spec fn button_index(button: Button) -> int {
    match button {
        Button::One => 0,
        Button::Two => 1,
        Button::Three => 2,
        Button::Four => 3,
    }
}

impl Button {
    pub fn index(self) -> (index: usize)
        ensures
            index == button_index(self),
    {
        match self {
            Button::One => 0,
            Button::Two => 1,
            Button::Three => 2,
            Button::Four => 3,
        }
    }

    /// The number that a button has for its user, counted from 1.
    pub fn number(self) -> (number: u8)
        ensures
            number == button_index(self) + 1,
    {
        self.index() as u8 + 1
    }

    /// The button at a place.
    pub fn at(index: usize) -> (button: Button)
        requires
            index < 4,
        ensures
            button_index(button) == index,
    {
        if index == 0 {
            Button::One
        } else if index == 1 {
            Button::Two
        } else if index == 2 {
            Button::Three
        } else {
            Button::Four
        }
    }
}

/// A button went down or came up.
#[derive(Clone, Copy, Debug, PartialEq, Eq, Structural)]
pub struct ButtonEvent {
    pub button: Button,
    pub pressed: bool,
}

/// One button: the state that is believed, and how many samples in a row differed from it.
#[derive(Clone, Copy, Debug, PartialEq, Eq, Structural)]
pub struct Contact {
    pub pressed: bool,
    pub differing: u8,
}

/// Whether a contact waits for fewer samples than make a change.
pub open spec fn contact_wf(contact: Contact) -> bool {
    contact.differing < DEBOUNCE_SAMPLES
}

/// Whether one more sample changes the state that is believed.
pub open spec fn sample_flips(contact: Contact, pressed: bool) -> bool {
    pressed != contact.pressed && contact.differing + 1 >= DEBOUNCE_SAMPLES
}

/// A contact after one more sample.
pub open spec fn contact_after(contact: Contact, pressed: bool) -> Contact {
    if pressed == contact.pressed {
        Contact { pressed: contact.pressed, differing: 0 }
    } else if sample_flips(contact, pressed) {
        Contact { pressed, differing: 0 }
    } else {
        Contact { pressed: contact.pressed, differing: (contact.differing + 1) as u8 }
    }
}

/// Whether an event is the change that a sample made: of the button at its place, to the state of
/// the sample.
pub open spec fn reports_change(
    change: ButtonEvent,
    index: int,
    contact: Contact,
    pressed: bool,
) -> bool {
    &&& button_index(change.button) == index
    &&& change.pressed == pressed
    &&& sample_flips(contact, pressed)
}

/// A contact after some samples, one after the other.
pub open spec fn contact_after_all(contact: Contact, samples: Seq<bool>) -> Contact
    decreases samples.len(),
{
    if samples.len() == 0 {
        contact
    } else {
        contact_after(contact_after_all(contact, samples.drop_last()), samples.last())
    }
}

/// The four contacts.
pub struct Debouncer {
    pub contacts: [Contact; 4],
}

impl Debouncer {
    pub open spec fn wf(self) -> bool {
        forall|i: int| 0 <= i < 4 ==> contact_wf(#[trigger] self.contacts@[i])
    }

    /// All buttons up. One that is held down already is reported a moment later.
    pub fn new() -> (debouncer: Self)
        ensures
            debouncer.wf(),
            forall|i: int|
                0 <= i < 4 ==> #[trigger] debouncer.contacts@[i] == (Contact {
                    pressed: false,
                    differing: 0,
                }),
    {
        let up = Contact { pressed: false, differing: 0 };
        Debouncer { contacts: [up, up, up, up] }
    }

    /// Takes one sample of one button, and reports the change where the sample makes one.
    pub fn sample(&mut self, index: usize, pressed: bool) -> (event: Option<ButtonEvent>)
        requires
            old(self).wf(),
            index < 4,
        ensures
            final(self).wf(),
            final(self).contacts@ == old(self).contacts@.update(
                index as int,
                contact_after(old(self).contacts@[index as int], pressed),
            ),
            event is Some <==> sample_flips(old(self).contacts@[index as int], pressed),
            event matches Some(change) ==> reports_change(
                change,
                index as int,
                old(self).contacts@[index as int],
                pressed,
            ),
    {
        let contact = self.contacts[index];
        assert(contact_wf(self.contacts@[index as int]));
        if pressed == contact.pressed {
            self.contacts[index] = Contact { pressed, differing: 0 };
            None
        } else if contact.differing + 1 < DEBOUNCE_SAMPLES {
            self.contacts[index] = Contact {
                pressed: contact.pressed,
                differing: contact.differing + 1,
            };
            None
        } else {
            self.contacts[index] = Contact { pressed, differing: 0 };
            Some(ButtonEvent { button: Button::at(index), pressed })
        }
    }
}

/// A contact that differs for less than the full number of samples, and then no longer, is as it
/// was: bounce is never reported.
pub proof fn law_bounce_is_swallowed(contact: Contact, count: nat)
    requires
        contact.differing == 0,
        count < DEBOUNCE_SAMPLES,
    ensures
        ({
            let bounce = Seq::new(count, |i: int| !contact.pressed);
            let last = contact_after_all(contact, bounce);
            &&& last == (Contact { pressed: contact.pressed, differing: count as u8 })
            &&& contact_after(last, contact.pressed) == contact
        }),
    decreases count,
{
    let bounce = Seq::new(count, |i: int| !contact.pressed);
    if count > 0 {
        let shorter = Seq::new((count - 1) as nat, |i: int| !contact.pressed);
        assert(bounce.drop_last() =~= shorter);
        law_bounce_is_swallowed(contact, (count - 1) as nat);
    }
}

/// A contact that differs for the full number of samples is believed with the last of them.
pub proof fn law_steady_change_is_believed(contact: Contact)
    requires
        contact.differing == 0,
    ensures
        ({
            let steady = Seq::new(DEBOUNCE_SAMPLES as nat, |i: int| !contact.pressed);
            &&& sample_flips(contact_after_all(contact, steady.drop_last()), steady.last())
            &&& contact_after_all(contact, steady) == (Contact {
                pressed: !contact.pressed,
                differing: 0,
            })
        }),
{
    let steady = Seq::new(DEBOUNCE_SAMPLES as nat, |i: int| !contact.pressed);
    let shorter = Seq::new((DEBOUNCE_SAMPLES - 1) as nat, |i: int| !contact.pressed);
    assert(steady.drop_last() =~= shorter);
    law_bounce_is_swallowed(contact, (DEBOUNCE_SAMPLES - 1) as nat);
}

/// The buttons are counted from 0 in their order.
pub proof fn law_buttons_are_counted(a: Button, b: Button)
    ensures
        0 <= button_index(a) <= 3,
        button_index(a) == button_index(b) <==> a == b,
        button_index(Button::One) < button_index(Button::Two) < button_index(Button::Three)
            < button_index(Button::Four),
{
}

proof fn lemma_differing(contact: Contact, samples: Seq<bool>)
    requires
        contact.differing == 0,
    ensures
        ({
            let last = contact_after_all(contact, samples);
            &&& last.differing <= 3
            &&& last.differing <= samples.len()
            &&& forall|i: int|
                samples.len() - last.differing <= i < samples.len() ==> #[trigger] samples[i]
                    != last.pressed
        }),
    decreases samples.len(),
{
    if samples.len() > 0 {
        let front = samples.drop_last();
        lemma_differing(contact, front);
        let before = contact_after_all(contact, front);
        let last = contact_after_all(contact, samples);
        assert forall|i: int| samples.len() - last.differing <= i < samples.len() implies
            #[trigger] samples[i] != last.pressed by {
            if i < front.len() {
                assert(front[i] == samples[i]);
                assert(front[i] != before.pressed);
            }
        }
    }
}

/// A change is never reported early: the sample that makes one is at least the fourth in a row that
/// says so, whatever the samples before them were.
pub proof fn law_change_takes_four_samples(contact: Contact, samples: Seq<bool>, sample: bool)
    requires
        contact.differing == 0,
        sample_flips(contact_after_all(contact, samples), sample),
    ensures
        samples.len() >= 3,
        samples[samples.len() - 1] == sample,
        samples[samples.len() - 2] == sample,
        samples[samples.len() - 3] == sample,
        contact_after_all(contact, samples).pressed == !sample,
{
    lemma_differing(contact, samples);
    let n = samples.len() as int;
    assert(samples[n - 1] == sample);
    assert(samples[n - 2] == sample);
    assert(samples[n - 3] == sample);
}

/// A change is never missed either: four samples in a row that say so are believed with the fourth,
/// wherever the contact stood.
pub proof fn law_four_samples_are_believed(contact: Contact, sample: bool)
    requires
        contact.differing < 4,
    ensures
        ({
            let one = contact_after(contact, sample);
            let two = contact_after(one, sample);
            let three = contact_after(two, sample);
            let four = contact_after(three, sample);
            &&& four.pressed == sample
            &&& contact.pressed != sample && contact.differing == 0 ==> {
                &&& one.pressed != sample && two.pressed != sample && three.pressed != sample
                &&& !sample_flips(contact, sample) && !sample_flips(one, sample) && !sample_flips(
                    two,
                    sample,
                )
                &&& sample_flips(three, sample)
            }
            &&& contact.pressed == sample ==> four == Contact { pressed: sample, differing: 0 }
        }),
{
}

/// What is reported of a button is the state that is believed of it from then on, and not the one
/// before.
pub proof fn law_events_tell_the_new_state(
    change: ButtonEvent,
    index: int,
    contact: Contact,
    pressed: bool,
)
    requires
        reports_change(change, index, contact, pressed),
    ensures
        change.pressed == contact_after(contact, pressed).pressed,
        change.pressed != contact.pressed,
        index == 0 <==> change.button is One,
        index == 1 <==> change.button is Two,
        index == 2 <==> change.button is Three,
        index == 3 <==> change.button is Four,
{
}

} // verus!
