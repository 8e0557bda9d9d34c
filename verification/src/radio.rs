//! The owner of the radio: what it is asked, what it answers, and what it does next.
use vstd::prelude::*;

verus! {

pub const RX_BUFFER_SIZE: usize = 255;

pub const TX_BUFFER_SIZE: usize = 255;

pub const LORA_FREQUENCY_HZ: u32 = 915_000_000;

pub const DEFAULT_TX_POWER_DBM: i32 = 14;

/// How many symbols a receive window stays open without a preamble: the most that the radio's
/// driver takes. A window is never broken off from outside; it ends with a packet or by itself,
/// and only then are commands served.
pub const RX_SLICE_SYMBOLS: u16 = 248;

pub const RX_CHANNEL_DEPTH: usize = 4;

pub const COMMAND_CHANNEL_DEPTH: usize = 4;

pub const TX_EVENT_CHANNEL_DEPTH: usize = 4;

/// How long the owner rests when a window could not be opened.
pub const PREPARE_RETRY_MS: u64 = 10;

/// How long the owner rests when a window failed.
pub const RECEIVE_RETRY_MS: u64 = 5;

/// How strong a packet came in.
#[derive(Clone, Copy, Debug, PartialEq, Eq, Structural)]
pub struct PacketStatus {
    pub rssi: i16,
    pub snr: i16,
}

/// One received frame.
pub struct RxPacket {
    pub len: u8,
    pub data: [u8; RX_BUFFER_SIZE],
    pub status: PacketStatus,
}

/// One frame to be sent.
#[derive(Clone, Copy)]
pub struct TxRequest {
    pub token: u32,
    pub len: u8,
    pub data: [u8; TX_BUFFER_SIZE],
    pub power_dbm: i32,
    pub resume_receive: bool,
}

impl TxRequest {
    /// The bytes that go on the air.
    pub open spec fn payload(self) -> Seq<u8> {
        self.data@.take(self.len as int)
    }

    /// Whether a request is for a payload, at a power, under a token. What is left of its buffer is
    /// empty.
    pub open spec fn asks_for(
        self,
        token: u32,
        payload: Seq<u8>,
        power_dbm: i32,
        resume_receive: bool,
    ) -> bool {
        &&& self.token == token
        &&& self.payload() == payload
        &&& self.len == payload.len()
        &&& forall|i: int| self.len <= i < TX_BUFFER_SIZE ==> self.data@[i] == 0
        &&& self.power_dbm == power_dbm
        &&& self.resume_receive == resume_receive
    }

    /// A request at the default power.
    pub fn new_default(token: u32, payload: &[u8], resume_receive: bool) -> (request: Option<Self>)
        ensures
            request is Some <==> payload@.len() <= TX_BUFFER_SIZE,
            request matches Some(made) ==> made.asks_for(
                token,
                payload@,
                DEFAULT_TX_POWER_DBM,
                resume_receive,
            ),
    {
        Self::new(token, payload, DEFAULT_TX_POWER_DBM, resume_receive)
    }

    /// A request; `None` for a payload that is larger than the radio's buffer.
    pub fn new(token: u32, payload: &[u8], power_dbm: i32, resume_receive: bool) -> (request:
        Option<Self>)
        ensures
            request is Some <==> payload@.len() <= TX_BUFFER_SIZE,
            request matches Some(made) ==> made.asks_for(
                token,
                payload@,
                power_dbm,
                resume_receive,
            ),
    {
        if payload.len() > TX_BUFFER_SIZE {
            return None;
        }
        let mut data: [u8; TX_BUFFER_SIZE] = [0u8;TX_BUFFER_SIZE];
        let mut i: usize = 0;
        while i < payload.len()
            invariant
                i <= payload.len() <= TX_BUFFER_SIZE,
                forall|j: int| 0 <= j < i ==> data@[j] == payload@[j],
                forall|j: int| i <= j < TX_BUFFER_SIZE ==> data@[j] == 0,
            decreases payload.len() - i,
        {
            data[i] = payload[i];
            i = i + 1;
        }
        let len: u8 = payload.len() as u8;
        assert(data@.take(len as int) =~= payload@);
        Some(TxRequest { token, len, data, power_dbm, resume_receive })
    }
}

/// What the radio's owner is asked to do.
#[derive(Clone, Copy)]
pub enum RadioCommand {
    SetReceiveEnabled(bool),
    Transmit(TxRequest),
}

/// What came of a frame that was to be sent.
#[derive(Clone, Copy, Debug, PartialEq, Eq, Structural)]
pub struct TxEvent {
    pub token: u32,
    pub len: u8,
    pub success: bool,
    /// How long the radio was sending.
    pub tx_duration_us: u64,
}

/// How frames are sent and received.
#[derive(Clone, Copy, Debug, PartialEq, Eq, Structural)]
pub struct RadioProfile {
    pub frequency_hz: u32,
    pub spreading_factor: u8,
    pub bandwidth_hz: u32,
    /// The denominator of the coding rate, whose numerator is 4.
    pub coding_rate_denominator: u8,
    pub preamble_symbols: u16,
    pub implicit_header: bool,
    pub crc_on: bool,
    pub iq_inverted: bool,
    pub public_network: bool,
    pub tcxo_millivolts: u16,
    pub use_dcdc: bool,
    pub rx_boost: bool,
}

/// The profile of the device: 915 MHz, spreading factor 7, 125 kHz, coding rate 4/5, eight symbols
/// of preamble, explicit header, checksum on, plain IQ, private sync word.
pub open spec fn device_profile() -> RadioProfile {
    RadioProfile {
        frequency_hz: LORA_FREQUENCY_HZ,
        spreading_factor: 7,
        bandwidth_hz: 125_000,
        coding_rate_denominator: 5,
        preamble_symbols: 8,
        implicit_header: false,
        crc_on: true,
        iq_inverted: false,
        public_network: false,
        tcxo_millivolts: 1_700,
        use_dcdc: true,
        rx_boost: false,
    }
}

pub fn radio_profile() -> (profile: RadioProfile)
    ensures
        profile == device_profile(),
{
    RadioProfile {
        frequency_hz: LORA_FREQUENCY_HZ,
        spreading_factor: 7,
        bandwidth_hz: 125_000,
        coding_rate_denominator: 5,
        preamble_symbols: 8,
        implicit_header: false,
        crc_on: true,
        iq_inverted: false,
        public_network: false,
        tcxo_millivolts: 1_700,
        use_dcdc: true,
        rx_boost: false,
    }
}

/// The steps that bring the radio up, in their order. The radio counts as up only when a receive
/// window has been set once.
#[derive(Clone, Copy, Debug, PartialEq, Eq, Structural)]
pub enum BringUp {
    InitChip,
    CreateModulation,
    CreateRxParams,
    CreateTxParams,
    PrepareReceive,
    Ready,
    /// The step that failed; nothing is tried behind it.
    Failed(u8),
}

/// The place of a step.
pub open spec fn bring_up_place(step: BringUp) -> int {
    match step {
        BringUp::InitChip => 0,
        BringUp::CreateModulation => 1,
        BringUp::CreateRxParams => 2,
        BringUp::CreateTxParams => 3,
        BringUp::PrepareReceive => 4,
        BringUp::Ready => 5,
        BringUp::Failed(_) => 6,
    }
}

/// Whether a step comes behind one that went well or failed.
pub open spec fn follows_step(step: BringUp, ok: bool, next: BringUp) -> bool {
    &&& bring_up_place(step) >= 5 ==> next == step
    &&& bring_up_place(step) < 5 && ok ==> bring_up_place(next) == bring_up_place(step) + 1
    &&& bring_up_place(step) < 5 && !ok ==> next == BringUp::Failed(bring_up_place(step) as u8)
}

impl BringUp {
    /// The step behind one that went well or failed.
    pub fn next(self, ok: bool) -> (step: BringUp)
        ensures
            follows_step(self, ok, step),
    {
        match self {
            BringUp::InitChip => if ok {
                BringUp::CreateModulation
            } else {
                BringUp::Failed(0)
            },
            BringUp::CreateModulation => if ok {
                BringUp::CreateRxParams
            } else {
                BringUp::Failed(1)
            },
            BringUp::CreateRxParams => if ok {
                BringUp::CreateTxParams
            } else {
                BringUp::Failed(2)
            },
            BringUp::CreateTxParams => if ok {
                BringUp::PrepareReceive
            } else {
                BringUp::Failed(3)
            },
            BringUp::PrepareReceive => if ok {
                BringUp::Ready
            } else {
                BringUp::Failed(4)
            },
            BringUp::Ready => BringUp::Ready,
            BringUp::Failed(place) => BringUp::Failed(place),
        }
    }
}

/// What the owner does next.
#[derive(Clone, Copy)]
pub enum RadioAction {
    /// Take a command if one waits.
    PollCommand,
    /// Wait for a command.
    AwaitCommand,
    /// Send the frame.
    Transmit(TxRequest),
    /// Report what came of a frame.
    Report(TxEvent),
    /// Set a receive window.
    PrepareReceive,
    /// Wait for the window's end.
    ReceiveWindow,
    /// Hand on the packet that the window brought.
    Deliver,
    /// Rest for some milliseconds.
    Rest(u64),
}

/// What came of the last action.
#[derive(Clone, Copy)]
pub enum RadioReply {
    /// The action is done.
    Done,
    /// No command waits.
    NoCommand,
    /// This command was taken.
    Command(RadioCommand),
    /// The frame was sent in this time, in microseconds.
    Sent(u64),
    /// The window brought a packet.
    Packet,
    /// The window ended without a packet.
    Timeout,
    /// The action failed.
    Failed,
}

/// What a command leads to: whether receiving is enabled, and what is done next.
pub open spec fn command_served(rx_enabled: bool, command: RadioCommand) -> (bool, RadioAction) {
    match command {
        RadioCommand::SetReceiveEnabled(enabled) => (enabled, RadioAction::PollCommand),
        RadioCommand::Transmit(request) => (rx_enabled, RadioAction::Transmit(request)),
    }
}

/// What is reported of a frame: the time that it took, where it was sent.
pub open spec fn transmit_report(request: TxRequest, reply: RadioReply) -> TxEvent {
    match reply {
        RadioReply::Sent(tx_duration_us) => TxEvent {
            token: request.token,
            len: request.len,
            success: true,
            tx_duration_us,
        },
        _ => TxEvent { token: request.token, len: request.len, success: false, tx_duration_us: 0 },
    }
}

/// What comes behind an action: whether receiving is enabled, and what is done next.
pub open spec fn radio_next(rx_enabled: bool, doing: RadioAction, reply: RadioReply) -> (
    bool,
    RadioAction,
) {
    match doing {
        RadioAction::PollCommand => match reply {
            RadioReply::Command(command) => command_served(rx_enabled, command),
            _ => if rx_enabled {
                (rx_enabled, RadioAction::PrepareReceive)
            } else {
                (rx_enabled, RadioAction::AwaitCommand)
            },
        },
        RadioAction::AwaitCommand => match reply {
            RadioReply::Command(command) => command_served(rx_enabled, command),
            _ => (rx_enabled, RadioAction::PollCommand),
        },
        RadioAction::Transmit(request) => (
            request.resume_receive,
            RadioAction::Report(transmit_report(request, reply)),
        ),
        RadioAction::PrepareReceive => match reply {
            RadioReply::Done => (rx_enabled, RadioAction::ReceiveWindow),
            _ => (rx_enabled, RadioAction::Rest(PREPARE_RETRY_MS)),
        },
        RadioAction::ReceiveWindow => match reply {
            RadioReply::Packet => (rx_enabled, RadioAction::Deliver),
            RadioReply::Timeout => (rx_enabled, RadioAction::PollCommand),
            _ => (rx_enabled, RadioAction::Rest(RECEIVE_RETRY_MS)),
        },
        RadioAction::Report(_) | RadioAction::Deliver | RadioAction::Rest(_) => (
            rx_enabled,
            RadioAction::PollCommand,
        ),
    }
}

/// The radio at first: whether receiving is enabled, and what is done.
pub open spec fn radio_at_first() -> (bool, RadioAction) {
    (true, RadioAction::PollCommand)
}

/// The owner of the radio between two actions.
pub struct RadioManager {
    pub rx_enabled: bool,
    pub doing: RadioAction,
}

impl RadioManager {
    pub fn new() -> (manager: Self)
        ensures
            (manager.rx_enabled, manager.doing) == radio_at_first(),
    {
        RadioManager { rx_enabled: true, doing: RadioAction::PollCommand }
    }

    fn serve(&mut self, command: RadioCommand)
        ensures
            (final(self).rx_enabled, final(self).doing) == command_served(
                old(self).rx_enabled,
                command,
            ),
    {
        match command {
            RadioCommand::SetReceiveEnabled(enabled) => {
                self.rx_enabled = enabled;
                self.doing = RadioAction::PollCommand;
            },
            RadioCommand::Transmit(request) => {
                self.doing = RadioAction::Transmit(request);
            },
        }
    }

    /// Takes what came of the action at hand, and goes on to the next.
    pub fn step(&mut self, reply: RadioReply)
        ensures
            (final(self).rx_enabled, final(self).doing) == radio_next(
                old(self).rx_enabled,
                old(self).doing,
                reply,
            ),
    {
        match self.doing {
            RadioAction::PollCommand => match reply {
                RadioReply::Command(command) => self.serve(command),
                _ => {
                    self.doing = if self.rx_enabled {
                        RadioAction::PrepareReceive
                    } else {
                        RadioAction::AwaitCommand
                    };
                },
            },
            RadioAction::AwaitCommand => match reply {
                RadioReply::Command(command) => self.serve(command),
                _ => {
                    self.doing = RadioAction::PollCommand;
                },
            },
            RadioAction::Transmit(request) => {
                let (success, tx_duration_us): (bool, u64) = match reply {
                    RadioReply::Sent(duration) => (true, duration),
                    _ => (false, 0),
                };
                self.rx_enabled = request.resume_receive;
                self.doing = RadioAction::Report(
                    TxEvent { token: request.token, len: request.len, success, tx_duration_us },
                );
            },
            RadioAction::PrepareReceive => {
                self.doing = match reply {
                    RadioReply::Done => RadioAction::ReceiveWindow,
                    _ => RadioAction::Rest(PREPARE_RETRY_MS),
                };
            },
            RadioAction::ReceiveWindow => {
                self.doing = match reply {
                    RadioReply::Packet => RadioAction::Deliver,
                    RadioReply::Timeout => RadioAction::PollCommand,
                    _ => RadioAction::Rest(RECEIVE_RETRY_MS),
                };
            },
            RadioAction::Report(_) => {
                self.doing = RadioAction::PollCommand;
            },
            RadioAction::Deliver => {
                self.doing = RadioAction::PollCommand;
            },
            RadioAction::Rest(_) => {
                self.doing = RadioAction::PollCommand;
            },
        }
    }
}

/// A receive window is set only while receiving is enabled and no command waits.
pub proof fn law_windows_open_between_commands(
    rx_enabled: bool,
    doing: RadioAction,
    reply: RadioReply,
)
    ensures
        radio_next(rx_enabled, doing, reply).1 == RadioAction::PrepareReceive ==> {
            &&& rx_enabled
            &&& doing == RadioAction::PollCommand
            &&& reply !is Command
        },
{
}

/// While a window is set or open no command is taken: the window ends with a packet, by itself or
/// by a fault of the radio, and receiving stays enabled as it was.
pub proof fn law_windows_are_not_broken_off(
    rx_enabled: bool,
    doing: RadioAction,
    reply: RadioReply,
)
    requires
        doing == RadioAction::PrepareReceive || doing == RadioAction::ReceiveWindow,
    ensures
        radio_next(rx_enabled, doing, reply).0 == rx_enabled,
        radio_next(rx_enabled, doing, reply).1 !is Transmit,
        doing == RadioAction::ReceiveWindow && reply == RadioReply::Timeout ==> radio_next(
            rx_enabled,
            doing,
            reply,
        ).1 == RadioAction::PollCommand,
{
}

/// Whatever came of a frame, one report with its token and length follows, and behind it receiving
/// is enabled as the frame asked.
pub proof fn law_every_frame_is_reported(request: TxRequest, rx_enabled: bool, reply: RadioReply)
    ensures
        ({
            let (enabled, action) = radio_next(rx_enabled, RadioAction::Transmit(request), reply);
            &&& enabled == request.resume_receive
            &&& action matches RadioAction::Report(event) && event.token == request.token
                && event.len == request.len && event.success == (reply is Sent)
            &&& radio_next(enabled, action, RadioReply::Done) == (
                request.resume_receive,
                RadioAction::PollCommand,
            )
        }),
{
}

/// The device sends and listens on 915 MHz with spreading factor 7, a bandwidth of 125 kHz and a
/// coding rate of 4 in 5, behind eight symbols of preamble, with an explicit header and a checksum,
/// plain IQ and a private sync word. A packet of it is heard only by a radio that is set like that.
pub proof fn law_profile_of_the_device()
    ensures
        device_profile().frequency_hz == 915_000_000,
        device_profile().spreading_factor == 7,
        device_profile().bandwidth_hz == 125_000,
        device_profile().coding_rate_denominator == 5,
        device_profile().preamble_symbols == 8,
        !device_profile().implicit_header,
        device_profile().crc_on,
        !device_profile().iq_inverted,
        !device_profile().public_network,
        device_profile().tcxo_millivolts == 1_700,
        device_profile().use_dcdc,
        !device_profile().rx_boost,
{
}

/// The radio is brought up in the order of its steps: chip, modulation, packets to receive, packets
/// to send, and a receive window.
pub proof fn law_steps_of_the_radio(step: BringUp)
    ensures
        step is InitChip <==> bring_up_place(step) == 0,
        step is CreateModulation <==> bring_up_place(step) == 1,
        step is CreateRxParams <==> bring_up_place(step) == 2,
        step is CreateTxParams <==> bring_up_place(step) == 3,
        step is PrepareReceive <==> bring_up_place(step) == 4,
        step is Ready <==> bring_up_place(step) == 5,
        step is Failed <==> bring_up_place(step) == 6,
{
}

/// A command is done at once: receiving is enabled or not from then on, and a frame is sent as it
/// is. Neither command changes what the other is about.
pub proof fn law_commands_are_served(
    rx_enabled: bool,
    doing: RadioAction,
    command: RadioCommand,
)
    requires
        doing is PollCommand || doing is AwaitCommand,
    ensures
        ({
            let (enabled, action) = radio_next(rx_enabled, doing, RadioReply::Command(command));
            &&& command matches RadioCommand::SetReceiveEnabled(wanted) ==> enabled == wanted
                && action is PollCommand
            &&& command matches RadioCommand::Transmit(request) ==> enabled == rx_enabled && action
                == RadioAction::Transmit(request)
        }),
{
}

/// Without a command the owner opens a window where receiving is enabled, and waits for a command
/// where it is not. A packet that a window brought is handed on before anything else. A window
/// that could not be set is tried again after 10 milliseconds, one that failed after 5.
pub proof fn law_windows_of_the_radio(rx_enabled: bool, reply: RadioReply)
    ensures
        ({
            let poll = radio_next(rx_enabled, RadioAction::PollCommand, reply);
            let prepared = radio_next(rx_enabled, RadioAction::PrepareReceive, reply);
            let ended = radio_next(rx_enabled, RadioAction::ReceiveWindow, reply);
            &&& !(reply is Command) && rx_enabled ==> poll == (true, RadioAction::PrepareReceive)
            &&& !(reply is Command) && !rx_enabled ==> poll == (false, RadioAction::AwaitCommand)
            &&& reply is Done ==> prepared == (rx_enabled, RadioAction::ReceiveWindow)
            &&& !(reply is Done) ==> prepared == (rx_enabled, RadioAction::Rest(10))
            &&& reply is Packet ==> ended == (rx_enabled, RadioAction::Deliver)
            &&& reply is Timeout ==> ended == (rx_enabled, RadioAction::PollCommand)
            &&& !(reply is Packet || reply is Timeout) ==> ended == (
                rx_enabled,
                RadioAction::Rest(5),
            )
            &&& radio_next(rx_enabled, RadioAction::Deliver, reply) == (
                rx_enabled,
                RadioAction::PollCommand,
            )
        }),
{
}

/// The report of a frame that was sent says how long the radio was sending, and that of one that
/// was not says 0.
pub proof fn law_reports_tell_the_time(request: TxRequest, duration_us: u64, reply: RadioReply)
    ensures
        transmit_report(request, RadioReply::Sent(duration_us)).tx_duration_us == duration_us,
        transmit_report(request, RadioReply::Sent(duration_us)).success,
        !(reply is Sent) ==> transmit_report(request, reply).tx_duration_us == 0
            && !transmit_report(request, reply).success,
        transmit_report(request, reply).token == request.token,
        transmit_report(request, reply).len == request.len,
{
}

/// A request sends its payload byte by byte and nothing behind it, and asks for what it was made
/// with. Without a power of its own it is sent at 14 dBm, and its payload has up to 255 bytes.
pub proof fn law_requests_carry_their_payload(
    request: TxRequest,
    token: u32,
    payload: Seq<u8>,
    power_dbm: i32,
    resume_receive: bool,
)
    requires
        payload.len() <= 255,
        request.asks_for(token, payload, power_dbm, resume_receive),
    ensures
        request.token == token,
        request.power_dbm == power_dbm,
        request.resume_receive == resume_receive,
        request.len == payload.len(),
        forall|i: int| 0 <= i < payload.len() ==> #[trigger] request.data@[i] == payload[i],
        forall|i: int| payload.len() <= i < 255 ==> #[trigger] request.data@[i] == 0,
        DEFAULT_TX_POWER_DBM == 14,
        TX_BUFFER_SIZE == 255,
{
    assert forall|i: int| 0 <= i < payload.len() implies #[trigger] request.data@[i]
        == payload[i] by {
        assert(request.payload()[i] == request.data@[i]);
    }
}

/// The radio is up behind five steps that all went well, and a step that fails ends it: the number
/// of the step is told, and nothing is tried any more.
pub proof fn law_radio_comes_up(a: BringUp, b: BringUp, c: BringUp, d: BringUp, e: BringUp)
    requires
        follows_step(BringUp::InitChip, true, a),
        follows_step(a, true, b),
        follows_step(b, true, c),
        follows_step(c, true, d),
        follows_step(d, true, e),
    ensures
        a is CreateModulation,
        b is CreateRxParams,
        c is CreateTxParams,
        d is PrepareReceive,
        e is Ready,
        forall|ok: bool, next: BringUp| #[trigger] follows_step(e, ok, next) ==> next is Ready,
        forall|next: BringUp|
            #[trigger] follows_step(BringUp::InitChip, false, next) ==> next == BringUp::Failed(0),
        forall|next: BringUp| #[trigger] follows_step(d, false, next)
            ==> next == BringUp::Failed(4),
        forall|n: u8, ok: bool, next: BringUp| #[trigger]
            follows_step(BringUp::Failed(n), ok, next) ==> next == BringUp::Failed(n),
{
}

/// At first receiving is enabled, and commands go before the first window.
pub proof fn law_radio_at_first(reply: RadioReply)
    ensures
        radio_at_first().0,
        radio_at_first().1 is PollCommand,
        !(reply is Command) ==> radio_next(
            radio_at_first().0,
            radio_at_first().1,
            reply,
        ).1 is PrepareReceive,
{
}

} // verus!
