//! Tones and signals of the loudspeaker.
use vstd::prelude::*;

verus! {

/// How many signals can wait to be played.
pub const UI_SOUND_QUEUE_DEPTH: usize = 4;

/// How often the loudspeaker looks for something new to play.
pub const AUDIO_SERVICE_INTERVAL_MS: u64 = 5;

/// The drive of signals.
pub const UI_DRIVE_PERCENT: u8 = 10;

/// The most that a tone is driven.
pub const MAX_DRIVE_PERCENT: u8 = 50;

/// The most counts that a period of the pulse generator can have.
pub const MAX_PERIOD_COUNTS: u32 = 65_536;

/// The largest divider of the pulse generator.
pub const MAX_DIVIDER: u32 = 255;

#[derive(Clone, Copy, Debug, PartialEq, Eq, Structural)]
pub struct Tone {
    pub frequency_hz: u32,
    pub drive_percent: u8,
}

/// The signals that the device gives.
#[derive(Clone, Copy, Debug, PartialEq, Eq, Structural)]
pub enum UiSound {
    Startup,
    LinkLost,
    LinkReacquired,
}

/// What a request for a tone asks for: silence where its frequency or its drive is 0, else the
/// tone, its drive held below the limit.
pub open spec fn requested_tone(frequency_hz: u32, drive_percent: u8) -> Option<Tone> {
    if frequency_hz == 0 || drive_percent == 0 {
        None
    } else {
        Some(
            Tone {
                frequency_hz,
                drive_percent: if drive_percent <= MAX_DRIVE_PERCENT {
                    drive_percent
                } else {
                    MAX_DRIVE_PERCENT
                },
            },
        )
    }
}

/// The tone that a caller's request stands for.
pub fn play_tone(frequency_hz: u32, drive_percent: u8) -> (tone: Option<Tone>)
    ensures
        tone == requested_tone(frequency_hz, drive_percent),
        tone matches Some(sound) ==> 0 < sound.drive_percent <= MAX_DRIVE_PERCENT,
{
    if frequency_hz == 0 || drive_percent == 0 {
        None
    } else if drive_percent <= MAX_DRIVE_PERCENT {
        Some(Tone { frequency_hz, drive_percent })
    } else {
        Some(Tone { frequency_hz, drive_percent: MAX_DRIVE_PERCENT })
    }
}

/// One part of a signal.
#[derive(Clone, Copy, Debug, PartialEq, Eq, Structural)]
pub struct UiStep {
    /// The pitch, `None` for a rest.
    pub tone: Option<Tone>,
    pub duration_ms: u64,
}

/// A note of a signal.
pub open spec fn note(frequency_hz: u32, duration_ms: u64) -> UiStep {
    UiStep {
        tone: Some(Tone { frequency_hz, drive_percent: UI_DRIVE_PERCENT }),
        duration_ms,
    }
}

/// A rest between two notes.
pub open spec fn gap(duration_ms: u64) -> UiStep {
    UiStep { tone: None, duration_ms }
}

/// A signal, note by note. The start of the device rises over four notes, the loss of the link
/// falls over three, and its return rises again to a long high one.
pub open spec fn score(sound: UiSound) -> Seq<UiStep> {
    match sound {
        UiSound::Startup => seq![
            note(523, 90),
            gap(25),
            note(659, 90),
            gap(25),
            note(784, 100),
            gap(30),
            note(1047, 170),
        ],
        UiSound::LinkLost => seq![
            note(659, 130),
            gap(35),
            note(440, 180),
            gap(40),
            note(294, 280),
        ],
        UiSound::LinkReacquired => seq![
            note(440, 85),
            gap(20),
            note(659, 85),
            gap(20),
            note(880, 100),
            gap(20),
            note(1175, 220),
        ],
    }
}

fn make_note(frequency_hz: u32, duration_ms: u64) -> (step: UiStep)
    ensures
        step == note(frequency_hz, duration_ms),
{
    UiStep {
        tone: Some(Tone { frequency_hz, drive_percent: UI_DRIVE_PERCENT }),
        duration_ms,
    }
}

fn make_gap(duration_ms: u64) -> (step: UiStep)
    ensures
        step == gap(duration_ms),
{
    UiStep { tone: None, duration_ms }
}

/// The part of a signal at a place, counted from 0; `None` behind the last.
pub fn ui_step(sound: UiSound, index: usize) -> (step: Option<UiStep>)
    ensures
        step == (if index < score(sound).len() {
            Some(score(sound)[index as int])
        } else {
            None
        }),
{
    match sound {
        UiSound::Startup => match index {
            0 => Some(make_note(523, 90)),
            1 => Some(make_gap(25)),
            2 => Some(make_note(659, 90)),
            3 => Some(make_gap(25)),
            4 => Some(make_note(784, 100)),
            5 => Some(make_gap(30)),
            6 => Some(make_note(1047, 170)),
            _ => None,
        },
        UiSound::LinkLost => match index {
            0 => Some(make_note(659, 130)),
            1 => Some(make_gap(35)),
            2 => Some(make_note(440, 180)),
            3 => Some(make_gap(40)),
            4 => Some(make_note(294, 280)),
            _ => None,
        },
        UiSound::LinkReacquired => match index {
            0 => Some(make_note(440, 85)),
            1 => Some(make_gap(20)),
            2 => Some(make_note(659, 85)),
            3 => Some(make_gap(20)),
            4 => Some(make_note(880, 100)),
            5 => Some(make_gap(20)),
            6 => Some(make_note(1175, 220)),
            _ => None,
        },
    }
}

/// How the pulse generator is set for a tone.
#[derive(Clone, Copy, Debug, PartialEq, Eq, Structural)]
pub struct PwmSetting {
    pub divider: u8,
    /// The last count of a period, which counts from 0.
    pub top: u16,
    /// How many counts of a period the output is high.
    pub compare: u16,
}

/// The counts of a period at a divider, before they are brought into range.
pub open spec fn raw_period(clock_hz: int, frequency_hz: int, divider: int) -> int {
    clock_hz / frequency_hz / divider
}

/// The counts of a period in range: at least 2, and no more than the generator has.
pub open spec fn period_in_range(period: int) -> int {
    if period < 2 {
        2
    } else if period > MAX_PERIOD_COUNTS {
        MAX_PERIOD_COUNTS as int
    } else {
        period
    }
}

/// The last count of a period, which counts from 0.
pub open spec fn last_count(period: int) -> int {
    period - 1
}

/// How many counts of a period the output is high, as far as the generator can count them.
pub open spec fn high_counts(period: int, drive_percent: int) -> int {
    (period * drive_percent / 100) % 0x1_0000
}

/// Whether a divider is the first at which a period fits the generator, or the largest there is
/// where none is.
pub open spec fn is_first_divider(clock_hz: int, frequency_hz: int, divider: int) -> bool {
    &&& 1 <= divider <= MAX_DIVIDER
    &&& divider < MAX_DIVIDER ==> raw_period(clock_hz, frequency_hz, divider) <= MAX_PERIOD_COUNTS
    &&& forall|d: int|
        1 <= d < divider ==> #[trigger] raw_period(clock_hz, frequency_hz, d) > MAX_PERIOD_COUNTS
}

/// A frequency of 0 is set like the lowest.
pub open spec fn audible(frequency_hz: u32) -> int {
    if frequency_hz == 0 {
        1
    } else {
        frequency_hz as int
    }
}

/// The setting of the pulse generator for a tone at the system clock: the smallest divider that
/// lets the period fit, the period, and the share of it that the drive asks for.
pub fn tone_config(system_clock_hz: u32, frequency_hz: u32, drive_percent: u8) -> (setting:
    PwmSetting)
    ensures
        is_first_divider(
            system_clock_hz as int,
            audible(frequency_hz),
            setting.divider as int,
        ),
        ({
            let period = period_in_range(
                raw_period(system_clock_hz as int, audible(frequency_hz), setting.divider as int),
            );
            &&& setting.top == last_count(period)
            &&& setting.compare == high_counts(period, drive_percent as int)
        }),
{
    let frequency: u32 = if frequency_hz == 0 {
        1
    } else {
        frequency_hz
    };
    let quotient: u32 = system_clock_hz / frequency;
    let mut divider: u32 = 1;
    let mut period: u32 = quotient / divider;
    while period > MAX_PERIOD_COUNTS && divider < MAX_DIVIDER
        invariant
            frequency == audible(frequency_hz),
            quotient == system_clock_hz as int / frequency as int,
            1 <= divider <= MAX_DIVIDER,
            period == raw_period(system_clock_hz as int, frequency as int, divider as int),
            forall|d: int|
                1 <= d < divider ==> #[trigger] raw_period(
                    system_clock_hz as int,
                    frequency as int,
                    d,
                ) > MAX_PERIOD_COUNTS,
        decreases MAX_DIVIDER - divider,
    {
        divider = divider + 1;
        period = quotient / divider;
    }
    let counts: u32 = if period < 2 {
        2
    } else if period > MAX_PERIOD_COUNTS {
        MAX_PERIOD_COUNTS
    } else {
        period
    };
    assert(counts * drive_percent <= 65_536 * 255) by (nonlinear_arith)
        requires
            counts <= 65_536,
            drive_percent <= 255,
    ;
    let high: u32 = counts * (drive_percent as u32) / 100;
    PwmSetting {
        divider: divider as u8,
        top: (counts - 1) as u16,
        compare: (high % 0x1_0000) as u16,
    }
}

/// A tone that was asked for is high for at most half of its period.
pub proof fn law_drive_is_limited(tone: Tone, period: int)
    requires
        tone.drive_percent <= MAX_DRIVE_PERCENT,
        2 <= period <= MAX_PERIOD_COUNTS,
    ensures
        0 <= (period * tone.drive_percent / 100) % 0x1_0000 <= period / 2,
{
    let drive = tone.drive_percent as int;
    assert(0 <= period * drive <= period * 50) by (nonlinear_arith)
        requires
            0 <= drive <= 50,
            period >= 0,
    ;
}

/// Plays tones and signals in turn: a signal goes before a tone, and the tone that was asked for
/// last comes back behind it.
pub struct AudioPlayer {
    pub routine: Option<Tone>,
}

/// The tone that is due when the newest request, where there is one, has been taken.
pub open spec fn routine_after(routine: Option<Tone>, latest: Option<Option<Tone>>) -> Option<
    Tone,
> {
    match latest {
        Some(request) => request,
        None => routine,
    }
}

impl AudioPlayer {
    pub fn new() -> (player: Self)
        ensures
            player.routine is None,
    {
        AudioPlayer { routine: None }
    }

    /// Behind a signal: takes the newest request, and gives the tone that comes back.
    pub fn after_sound(&mut self, latest: Option<Option<Tone>>) -> (tone: Option<Tone>)
        ensures
            final(self).routine == routine_after(old(self).routine, latest),
            tone == final(self).routine,
    {
        match latest {
            Some(request) => {
                self.routine = request;
            },
            None => {},
        }
        self.routine
    }

    /// With no signal waiting: takes the newest request, and gives the tone that it sets where
    /// there is one.
    pub fn without_sound(&mut self, latest: Option<Option<Tone>>) -> (tone: Option<Option<Tone>>)
        ensures
            final(self).routine == routine_after(old(self).routine, latest),
            tone == latest,
    {
        match latest {
            Some(request) => {
                self.routine = request;
            },
            None => {},
        }
        latest
    }
}

/// Of any requests that came before and during a signal, the newest is what comes back behind it.
pub proof fn law_newest_tone_resumes(
    routine: Option<Tone>,
    before: Option<Option<Tone>>,
    during: Option<Option<Tone>>,
)
    ensures
        routine_after(routine_after(routine, before), during) == (match during {
            Some(request) => request,
            None => match before {
                Some(request) => request,
                None => routine,
            },
        }),
{
}

/// A request for a tone is silence exactly where its pitch or its drive is 0. Any other is that
/// pitch, and its drive up to a half.
pub proof fn law_requests_for_tones(frequency_hz: u32, drive_percent: u8)
    ensures
        requested_tone(frequency_hz, drive_percent) is None <==> frequency_hz == 0 || drive_percent
            == 0,
        requested_tone(frequency_hz, drive_percent) matches Some(tone) ==> {
            &&& tone.frequency_hz == frequency_hz
            &&& drive_percent <= 50 ==> tone.drive_percent == drive_percent
            &&& drive_percent > 50 ==> tone.drive_percent == 50
        },
{
}

/// Signals are notes with a rest between each and the next, all driven by a tenth: a note stands at
/// each even place, a rest at each odd one, and the last is a note.
pub proof fn law_signals_are_notes_and_rests(sound: UiSound, i: int)
    requires
        0 <= i < score(sound).len(),
    ensures
        score(sound)[i].tone is Some <==> i % 2 == 0,
        score(sound)[i].tone matches Some(tone) ==> tone.drive_percent == 10 && tone.frequency_hz
            > 0,
        score(sound)[i].duration_ms > 0,
        score(sound).len() % 2 == 1,
        sound is LinkLost ==> score(sound).len() == 5,
        !(sound is LinkLost) ==> score(sound).len() == 7,
{
}

/// The start of the device and the return of the link rise from note to note, the loss of the link
/// falls, and the last note is the longest.
pub proof fn law_signals_rise_and_fall(sound: UiSound, i: int)
    requires
        0 <= i,
        i + 2 < score(sound).len(),
        i % 2 == 0,
    ensures
        ({
            let here = score(sound)[i].tone->0.frequency_hz;
            let next = score(sound)[i + 2].tone->0.frequency_hz;
            &&& sound is LinkLost ==> next < here
            &&& !(sound is LinkLost) ==> next > here
            &&& score(sound)[i].duration_ms < score(sound).last().duration_ms
        }),
{
}

/// The pitches and the lengths of the signals.
pub proof fn law_notes_of_the_signals()
    ensures
        score(UiSound::Startup)[0].tone->0.frequency_hz == 523,
        score(UiSound::Startup)[0].duration_ms == 90,
        score(UiSound::Startup)[1].duration_ms == 25,
        score(UiSound::Startup)[2].tone->0.frequency_hz == 659,
        score(UiSound::Startup)[2].duration_ms == 90,
        score(UiSound::Startup)[3].duration_ms == 25,
        score(UiSound::Startup)[4].tone->0.frequency_hz == 784,
        score(UiSound::Startup)[4].duration_ms == 100,
        score(UiSound::Startup)[5].duration_ms == 30,
        score(UiSound::Startup)[6].tone->0.frequency_hz == 1047,
        score(UiSound::Startup)[6].duration_ms == 170,
        score(UiSound::LinkLost)[0].tone->0.frequency_hz == 659,
        score(UiSound::LinkLost)[0].duration_ms == 130,
        score(UiSound::LinkLost)[1].duration_ms == 35,
        score(UiSound::LinkLost)[2].tone->0.frequency_hz == 440,
        score(UiSound::LinkLost)[2].duration_ms == 180,
        score(UiSound::LinkLost)[3].duration_ms == 40,
        score(UiSound::LinkLost)[4].tone->0.frequency_hz == 294,
        score(UiSound::LinkLost)[4].duration_ms == 280,
        score(UiSound::LinkReacquired)[0].tone->0.frequency_hz == 440,
        score(UiSound::LinkReacquired)[0].duration_ms == 85,
        score(UiSound::LinkReacquired)[1].duration_ms == 20,
        score(UiSound::LinkReacquired)[2].tone->0.frequency_hz == 659,
        score(UiSound::LinkReacquired)[2].duration_ms == 85,
        score(UiSound::LinkReacquired)[3].duration_ms == 20,
        score(UiSound::LinkReacquired)[4].tone->0.frequency_hz == 880,
        score(UiSound::LinkReacquired)[4].duration_ms == 100,
        score(UiSound::LinkReacquired)[5].duration_ms == 20,
        score(UiSound::LinkReacquired)[6].tone->0.frequency_hz == 1175,
        score(UiSound::LinkReacquired)[6].duration_ms == 220,
{
}

/// The counts of a period times its divider and its pitch are the clock, but for what the two
/// divisions leave over: less than one count.
pub proof fn law_periods_divide_the_clock(clock_hz: int, frequency_hz: int, divider: int)
    requires
        clock_hz >= 0,
        frequency_hz > 0,
        divider > 0,
    ensures
        ({
            let period = raw_period(clock_hz, frequency_hz, divider);
            &&& period * (divider * frequency_hz) <= clock_hz
            &&& clock_hz < (period + 1) * (divider * frequency_hz)
        }),
{
    let period = raw_period(clock_hz, frequency_hz, divider);
    let unit = frequency_hz * divider;
    vstd::arithmetic::div_mod::lemma_div_denominator(clock_hz, frequency_hz, divider);
    assert(unit > 0) by (nonlinear_arith)
        requires
            unit == frequency_hz * divider,
            frequency_hz > 0,
            divider > 0,
    ;
    vstd::arithmetic::div_mod::lemma_fundamental_div_mod(clock_hz, unit);
    vstd::arithmetic::div_mod::lemma_mod_bound(clock_hz, unit);
    assert(period == clock_hz / unit);
    assert(period * (divider * frequency_hz) == unit * (clock_hz / unit)) by (nonlinear_arith)
        requires
            period == clock_hz / unit,
            unit == frequency_hz * divider,
    ;
    assert((period + 1) * (divider * frequency_hz) == unit * (clock_hz / unit) + unit)
        by (nonlinear_arith)
        requires
            period == clock_hz / unit,
            unit == frequency_hz * divider,
    ;
}

/// A period is brought into the range from 2 to 65536 counts and is left as it is inside it. A
/// divider is one from 1 to 255, and all before it leave a period too long.
pub proof fn law_periods_fit_the_generator(
    clock_hz: int,
    frequency_hz: int,
    divider: int,
    period: int,
)
    ensures
        2 <= period_in_range(period) <= 65_536,
        2 <= period <= 65_536 ==> period_in_range(period) == period,
        is_first_divider(clock_hz, frequency_hz, divider) ==> {
            &&& 1 <= divider <= 255
            &&& divider < 255 ==> raw_period(clock_hz, frequency_hz, divider) <= 65_536
            &&& divider > 1 ==> raw_period(clock_hz, frequency_hz, divider - 1) > 65_536
        },
        audible(0) == 1,
        forall|hz: u32| hz > 0 ==> #[trigger] audible(hz) == hz,
{
}

/// A period of so many counts ends with the one before, and is high for the percentage of it that
/// the drive asks for, cut off to a count.
pub proof fn law_share_of_a_period(period: int, drive_percent: int)
    requires
        2 <= period <= 65_536,
        0 <= drive_percent <= 50,
    ensures
        last_count(period) + 1 == period,
        100 * high_counts(period, drive_percent) <= period * drive_percent,
        period * drive_percent < 100 * high_counts(period, drive_percent) + 100,
{
    assert(0 <= period * drive_percent <= period * 50) by (nonlinear_arith)
        requires
            0 <= drive_percent <= 50,
            period >= 0,
    ;
}

} // verus!
