//! Whether a card is there: it answers the command that puts it into its idle state.
//!
//! The steps on the bus are decided here and carried out by the caller, who tells how each of them
//! went.
use vstd::prelude::*;

verus! {

/// The clock of the bus while a card is brought up.
pub const SD_INIT_FREQUENCY_HZ: u32 = 400_000;

/// The clock of the bus otherwise.
pub const RUN_FREQUENCY_HZ: u32 = 24_000_000;

/// How many bytes of clocks a card is woken with.
pub const STARTUP_CLOCK_BYTES: usize = 10;

/// How often the command is sent before the card counts as missing.
pub const SD_PRESENCE_ATTEMPTS: u8 = 8;

/// How many bytes are read for the answer to one command.
pub const MAX_RESPONSE_READS: u8 = 16;

/// The answer of a card that is in its idle state.
pub const IDLE_RESPONSE: u8 = 0x01;

/// How long a probe waits for a card that was just powered.
pub const SETTLE_MS: u64 = 5;

/// How long a patient probe waits between two commands.
pub const PAUSE_MS: u64 = 2;

/// The bytes of the command, with its checksum.
pub open spec fn idle_command_bytes() -> Seq<u8> {
    seq![0x40u8, 0x00, 0x00, 0x00, 0x00, 0x95]
}

/// The command, with its checksum.
pub fn idle_command() -> (command: [u8; 6])
    ensures
        command@ == idle_command_bytes(),
{
    let command: [u8; 6] = [0x40, 0x00, 0x00, 0x00, 0x00, 0x95];
    assert(command@ =~= seq![0x40u8, 0x00, 0x00, 0x00, 0x00, 0x95]);
    command
}

/// A step on the bus.
#[derive(Clone, Copy, Debug, PartialEq, Eq, Structural)]
pub enum ProbeRequest {
    /// Wait for some milliseconds.
    Wait(u64),
    /// Select the card.
    Select,
    /// Deselect the card.
    Deselect,
    /// Send the clocks that wake a card.
    StartupClocks,
    /// Send an idle byte.
    IdleByte,
    /// Send the command.
    Command,
    /// Exchange an idle byte for one from the card.
    ReadByte,
    /// The probe is over: whether there is a card.
    Verdict(bool),
}

/// How a step went.
#[derive(Clone, Copy, Debug, PartialEq, Eq, Structural)]
pub enum ProbeReply {
    Done,
    Failed,
    Byte(u8),
}

#[derive(Clone, Copy, Debug, PartialEq, Eq, Structural)]
pub enum ProbePhase {
    Settle,
    Clear,
    Clocks,
    Select,
    Idle,
    Command,
    Read,
    Release,
    Trailing,
    Pause,
    /// The bus failed; the card is deselected before the verdict.
    Abort,
    Present,
    Absent,
}

/// A probe between two steps.
#[derive(Clone, Copy, Debug, PartialEq, Eq, Structural)]
pub struct CardProbe {
    /// Whether the probe waits for the card.
    pub patient: bool,
    pub phase: ProbePhase,
    /// Which command this is, counted from 1.
    pub attempt: u8,
    /// How many bytes were read for its answer.
    pub reads: u8,
    /// The answer, with the top bit set as long as there is none.
    pub response: u8,
}

/// Whether the card is selected.
pub open spec fn selected(phase: ProbePhase) -> bool {
    phase == ProbePhase::Idle || phase == ProbePhase::Command || phase == ProbePhase::Read || phase
        == ProbePhase::Release || phase == ProbePhase::Abort
}

/// The next command, or the end.
pub open spec fn next_attempt(probe: CardProbe) -> CardProbe {
    if probe.attempt < SD_PRESENCE_ATTEMPTS {
        CardProbe { phase: ProbePhase::Select, attempt: (probe.attempt + 1) as u8, ..probe }
    } else {
        CardProbe { phase: ProbePhase::Absent, ..probe }
    }
}

/// What comes behind a step.
pub open spec fn probe_next(probe: CardProbe, reply: ProbeReply) -> CardProbe {
    match probe.phase {
        ProbePhase::Settle => CardProbe { phase: ProbePhase::Clocks, ..probe },
        ProbePhase::Clear => CardProbe { phase: ProbePhase::Clocks, ..probe },
        ProbePhase::Clocks => if reply is Done {
            CardProbe { phase: ProbePhase::Select, attempt: 1, ..probe }
        } else {
            CardProbe { phase: ProbePhase::Absent, ..probe }
        },
        ProbePhase::Select => CardProbe { phase: ProbePhase::Idle, ..probe },
        ProbePhase::Idle => if reply is Done {
            CardProbe { phase: ProbePhase::Command, ..probe }
        } else {
            CardProbe { phase: ProbePhase::Abort, ..probe }
        },
        ProbePhase::Command => if reply is Done {
            CardProbe { phase: ProbePhase::Read, reads: 0, response: 0xFF, ..probe }
        } else {
            CardProbe { phase: ProbePhase::Abort, ..probe }
        },
        ProbePhase::Read => match reply {
            ProbeReply::Byte(byte) => if byte < 0x80 {
                CardProbe { phase: ProbePhase::Release, response: byte, ..probe }
            } else if probe.reads + 1 < MAX_RESPONSE_READS {
                CardProbe { reads: (probe.reads + 1) as u8, ..probe }
            } else {
                CardProbe { phase: ProbePhase::Release, ..probe }
            },
            _ => CardProbe { phase: ProbePhase::Abort, ..probe },
        },
        ProbePhase::Release => CardProbe { phase: ProbePhase::Trailing, ..probe },
        ProbePhase::Trailing => if probe.response == IDLE_RESPONSE {
            CardProbe { phase: ProbePhase::Present, ..probe }
        } else if probe.patient {
            CardProbe { phase: ProbePhase::Pause, ..probe }
        } else {
            next_attempt(probe)
        },
        ProbePhase::Pause => next_attempt(probe),
        ProbePhase::Abort => CardProbe { phase: ProbePhase::Absent, ..probe },
        ProbePhase::Present => probe,
        ProbePhase::Absent => probe,
    }
}

/// The step of a phase.
pub open spec fn probe_request(phase: ProbePhase) -> ProbeRequest {
    match phase {
        ProbePhase::Settle => ProbeRequest::Wait(SETTLE_MS),
        ProbePhase::Clear => ProbeRequest::Deselect,
        ProbePhase::Clocks => ProbeRequest::StartupClocks,
        ProbePhase::Select => ProbeRequest::Select,
        ProbePhase::Idle => ProbeRequest::IdleByte,
        ProbePhase::Command => ProbeRequest::Command,
        ProbePhase::Read => ProbeRequest::ReadByte,
        ProbePhase::Release => ProbeRequest::Deselect,
        ProbePhase::Trailing => ProbeRequest::IdleByte,
        ProbePhase::Pause => ProbeRequest::Wait(PAUSE_MS),
        ProbePhase::Abort => ProbeRequest::Deselect,
        ProbePhase::Present => ProbeRequest::Verdict(true),
        ProbePhase::Absent => ProbeRequest::Verdict(false),
    }
}

/// A probe of a card that was just powered, before its first step.
pub open spec fn patient_probe() -> CardProbe {
    CardProbe {
        patient: true,
        phase: ProbePhase::Settle,
        attempt: 0,
        reads: 0,
        response: 0xFF,
    }
}

/// A probe that does not wait, before its first step.
pub open spec fn quick_probe() -> CardProbe {
    CardProbe { patient: false, phase: ProbePhase::Clear, attempt: 0, reads: 0, response: 0xFF }
}

impl CardProbe {
    /// The counts are in their ranges, an answer has its top bit clear, and a card is found only
    /// by the right answer.
    pub open spec fn wf(self) -> bool {
        &&& self.attempt <= SD_PRESENCE_ATTEMPTS
        &&& self.reads < MAX_RESPONSE_READS
        &&& self.response < 0x80 || self.response == 0xFF
        &&& self.phase == ProbePhase::Present ==> self.response == IDLE_RESPONSE
    }

    /// A probe of a card that was just powered, which waits for it.
    pub fn patient() -> (probe: Self)
        ensures
            probe.wf(),
            probe == patient_probe(),
    {
        CardProbe {
            patient: true,
            phase: ProbePhase::Settle,
            attempt: 0,
            reads: 0,
            response: 0xFF,
        }
    }

    /// A probe that does not wait, so that a missing card does not hold up the start.
    pub fn quick() -> (probe: Self)
        ensures
            probe.wf(),
            probe == quick_probe(),
    {
        CardProbe {
            patient: false,
            phase: ProbePhase::Clear,
            attempt: 0,
            reads: 0,
            response: 0xFF,
        }
    }

    /// The step at hand.
    pub fn request(&self) -> (request: ProbeRequest)
        ensures
            request == probe_request(self.phase),
    {
        match self.phase {
            ProbePhase::Settle => ProbeRequest::Wait(SETTLE_MS),
            ProbePhase::Clear => ProbeRequest::Deselect,
            ProbePhase::Clocks => ProbeRequest::StartupClocks,
            ProbePhase::Select => ProbeRequest::Select,
            ProbePhase::Idle => ProbeRequest::IdleByte,
            ProbePhase::Command => ProbeRequest::Command,
            ProbePhase::Read => ProbeRequest::ReadByte,
            ProbePhase::Release => ProbeRequest::Deselect,
            ProbePhase::Trailing => ProbeRequest::IdleByte,
            ProbePhase::Pause => ProbeRequest::Wait(PAUSE_MS),
            ProbePhase::Abort => ProbeRequest::Deselect,
            ProbePhase::Present => ProbeRequest::Verdict(true),
            ProbePhase::Absent => ProbeRequest::Verdict(false),
        }
    }

    fn retry(&mut self)
        ensures
            *final(self) == next_attempt(*old(self)),
    {
        if self.attempt < SD_PRESENCE_ATTEMPTS {
            self.attempt = self.attempt + 1;
            self.phase = ProbePhase::Select;
        } else {
            self.phase = ProbePhase::Absent;
        }
    }

    /// Takes how the step at hand went, and goes on to the next.
    pub fn step(&mut self, reply: ProbeReply)
        requires
            old(self).wf(),
        ensures
            final(self).wf(),
            *final(self) == probe_next(*old(self), reply),
    {
        let done: bool = match reply {
            ProbeReply::Done => true,
            _ => false,
        };
        match self.phase {
            ProbePhase::Settle => {
                self.phase = ProbePhase::Clocks;
            },
            ProbePhase::Clear => {
                self.phase = ProbePhase::Clocks;
            },
            ProbePhase::Clocks => {
                if done {
                    self.phase = ProbePhase::Select;
                    self.attempt = 1;
                } else {
                    self.phase = ProbePhase::Absent;
                }
            },
            ProbePhase::Select => {
                self.phase = ProbePhase::Idle;
            },
            ProbePhase::Idle => {
                self.phase = if done {
                    ProbePhase::Command
                } else {
                    ProbePhase::Abort
                };
            },
            ProbePhase::Command => {
                if done {
                    self.phase = ProbePhase::Read;
                    self.reads = 0;
                    self.response = 0xFF;
                } else {
                    self.phase = ProbePhase::Abort;
                }
            },
            ProbePhase::Read => match reply {
                ProbeReply::Byte(byte) => {
                    if byte < 0x80 {
                        self.response = byte;
                        self.phase = ProbePhase::Release;
                    } else if self.reads + 1 < MAX_RESPONSE_READS {
                        self.reads = self.reads + 1;
                    } else {
                        self.phase = ProbePhase::Release;
                    }
                },
                _ => {
                    self.phase = ProbePhase::Abort;
                },
            },
            ProbePhase::Release => {
                self.phase = ProbePhase::Trailing;
            },
            ProbePhase::Trailing => {
                if self.response == IDLE_RESPONSE {
                    self.phase = ProbePhase::Present;
                } else if self.patient {
                    self.phase = ProbePhase::Pause;
                } else {
                    self.retry();
                }
            },
            ProbePhase::Pause => self.retry(),
            ProbePhase::Abort => {
                self.phase = ProbePhase::Absent;
            },
            ProbePhase::Present => {},
            ProbePhase::Absent => {},
        }
    }
}

/// A step changes whether the card is selected exactly as it asks, and at the verdict the card is
/// not selected.
pub proof fn law_probe_leaves_the_card_deselected(probe: CardProbe, reply: ProbeReply)
    requires
        probe.wf(),
    ensures
        ({
            let request = probe_request(probe.phase);
            let next = probe_next(probe, reply);
            &&& request == ProbeRequest::Select ==> selected(next.phase)
            &&& request == ProbeRequest::Deselect ==> !selected(next.phase)
            &&& request != ProbeRequest::Select && request != ProbeRequest::Deselect ==> selected(
                next.phase,
            ) == selected(probe.phase)
            &&& request is Verdict ==> !selected(probe.phase)
        }),
{
}

/// A card is found only when the first byte without top bit that it answered was the right one.
pub proof fn law_card_is_found_by_its_answer(probe: CardProbe, reply: ProbeReply)
    requires
        probe.wf(),
    ensures
        ({
            let next = probe_next(probe, reply);
            &&& next.phase == ProbePhase::Present && probe.phase != ProbePhase::Present ==> {
                &&& probe.phase == ProbePhase::Trailing
                &&& probe.response == IDLE_RESPONSE
            }
            &&& next.response != probe.response && next.response != 0xFF ==> {
                &&& probe_request(probe.phase) == ProbeRequest::ReadByte
                &&& reply == ProbeReply::Byte(next.response)
                &&& next.response < 0x80
            }
        }),
{
}

/// How many steps a probe can still take at most.
pub open spec fn probe_steps_left(probe: CardProbe) -> int {
    let attempt = (SD_PRESENCE_ATTEMPTS - probe.attempt) * 30;
    match probe.phase {
        ProbePhase::Settle => 302,
        ProbePhase::Clear => 302,
        ProbePhase::Clocks => 301,
        ProbePhase::Select => attempt + 29,
        ProbePhase::Idle => attempt + 28,
        ProbePhase::Command => attempt + 27,
        ProbePhase::Read => attempt + 26 - probe.reads,
        ProbePhase::Release => attempt + 9,
        ProbePhase::Trailing => attempt + 8,
        ProbePhase::Pause => attempt + 7,
        ProbePhase::Abort => 1,
        ProbePhase::Present => 0,
        ProbePhase::Absent => 0,
    }
}

/// A probe comes to an end, however the bus behaves.
pub proof fn law_probe_ends(probe: CardProbe, reply: ProbeReply)
    requires
        probe.wf(),
        probe_request(probe.phase) !is Verdict,
    ensures
        0 <= probe_steps_left(probe_next(probe, reply)) < probe_steps_left(probe),
{
}

/// A patient probe begins with a wait of 5 milliseconds, a quick one by deselecting the card. Both
/// send the clocks that wake a card then, and go on to the first command only where that went well.
pub proof fn law_start_of_a_probe(first: ProbeReply, second: ProbeReply, patient: bool)
    ensures
        ({
            let start = if patient {
                patient_probe()
            } else {
                quick_probe()
            };
            let clocks = probe_next(start, first);
            let command = probe_next(clocks, second);
            &&& start.patient == patient
            &&& patient ==> probe_request(start.phase) == ProbeRequest::Wait(5)
            &&& !patient ==> probe_request(start.phase) is Deselect
            &&& probe_request(clocks.phase) is StartupClocks
            &&& second is Done ==> probe_request(command.phase) is Select && command.attempt == 1
            &&& !(second is Done) ==> probe_request(command.phase) == ProbeRequest::Verdict(false)
        }),
{
}

/// How a command is sent: the card is selected, an idle byte and the command go out, and a byte is
/// read. A fault of the bus ends the probe without a card, which is deselected first.
pub proof fn law_steps_of_a_command(probe: CardProbe, reply: ProbeReply)
    requires
        probe.wf(),
    ensures
        ({
            let step = probe_request(probe.phase);
            let next = probe_next(probe, reply);
            let after = probe_request(next.phase);
            &&& step is Select ==> after is IdleByte
            &&& step is Command && reply is Done ==> after is ReadByte && next.reads == 0
            &&& step is Command && !(reply is Done) ==> after is Deselect && probe_request(
                probe_next(next, ProbeReply::Done).phase,
            ) == ProbeRequest::Verdict(false)
            &&& step is ReadByte && !(reply is Byte) ==> after is Deselect && probe_request(
                probe_next(next, ProbeReply::Done).phase,
            ) == ProbeRequest::Verdict(false)
            &&& step is Verdict ==> next == probe
            &&& next.patient == probe.patient
        }),
{
}

/// The answer is the first byte below 128, looked for in 16 bytes. Behind it, or behind the last of
/// them, the card is deselected and gets an idle byte. An answer of 1 means that there is a card.
pub proof fn law_answer_to_a_command(probe: CardProbe, byte: u8)
    requires
        probe.wf(),
        probe_request(probe.phase) is ReadByte,
        probe.response == 255,
    ensures
        ({
            let next = probe_next(probe, ProbeReply::Byte(byte));
            let released = probe_next(next, ProbeReply::Done);
            let done = probe_next(released, ProbeReply::Done);
            &&& byte >= 128 && probe.reads < 15 ==> probe_request(next.phase) is ReadByte
                && next.reads == probe.reads + 1
            &&& byte >= 128 && probe.reads == 15 ==> probe_request(next.phase) is Deselect
                && next.response == 255
            &&& byte < 128 ==> probe_request(next.phase) is Deselect && next.response == byte
            &&& byte < 128 || probe.reads == 15 ==> probe_request(released.phase) is IdleByte
            &&& byte == 1 ==> probe_request(done.phase) == ProbeRequest::Verdict(true)
            &&& byte != 1 && (byte < 128 || probe.reads == 15) ==> probe_request(done.phase)
                != ProbeRequest::Verdict(true)
        }),
{
}

/// A command without the right answer is sent again, up to eight times; a patient probe waits 2
/// milliseconds before each. Behind the eighth there is no card.
pub proof fn law_commands_are_repeated(probe: CardProbe, reply: ProbeReply)
    requires
        probe.wf(),
        probe.phase is Trailing,
        probe.response != 1,
    ensures
        ({
            let next = probe_next(probe, reply);
            let again = if probe.patient {
                probe_next(next, reply)
            } else {
                next
            };
            &&& probe.patient ==> probe_request(next.phase) == ProbeRequest::Wait(2)
            &&& probe.attempt < 8 ==> probe_request(again.phase) is Select && again.attempt
                == probe.attempt + 1
            &&& probe.attempt == 8 ==> probe_request(again.phase) == ProbeRequest::Verdict(false)
        }),
{
}

/// One bit more taken into the checksum of a command, seven bits of the polynomial x^7 + x^3 + 1.
pub open spec fn crc7_bit(register: u8, bit: bool) -> u8 {
    let high = (register & 0x40u8) != 0;
    let shifted = (register << 1) & 0x7Fu8;
    if high != bit {
        shifted ^ 0x09u8
    } else {
        shifted
    }
}

/// One byte more, its highest bit first.
pub open spec fn crc7_byte(register: u8, byte: u8) -> u8 {
    crc7_bit(
        crc7_bit(
            crc7_bit(
                crc7_bit(
                    crc7_bit(
                        crc7_bit(
                            crc7_bit(
                                crc7_bit(register, (byte & 0x80u8) != 0),
                                (byte & 0x40u8) != 0,
                            ),
                            (byte & 0x20u8) != 0,
                        ),
                        (byte & 0x10u8) != 0,
                    ),
                    (byte & 0x08u8) != 0,
                ),
                (byte & 0x04u8) != 0,
            ),
            (byte & 0x02u8) != 0,
        ),
        (byte & 0x01u8) != 0,
    )
}

/// The command is number 0 with the argument 0, and carries the checksum of its first five bytes
/// with the end bit behind it.
pub proof fn law_command_is_sealed()
    ensures
        ({
            let c = idle_command_bytes();
            let sum = crc7_byte(
                crc7_byte(crc7_byte(crc7_byte(crc7_byte(0, c[0]), c[1]), c[2]), c[3]),
                c[4],
            );
            &&& c.len() == 6
            &&& c[0] == 64
            &&& c[1] == 0 && c[2] == 0 && c[3] == 0 && c[4] == 0
            &&& c[5] == 2 * sum + 1
        }),
{
    assert(crc7_byte(
        crc7_byte(crc7_byte(crc7_byte(crc7_byte(0u8, 0x40u8), 0u8), 0u8), 0u8),
        0u8,
    ) == 0x4Au8) by (bit_vector);
}

} // verus!
