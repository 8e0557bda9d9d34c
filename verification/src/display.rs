//! What the screen shows, and which parts of it are drawn anew when something changes.
use vstd::prelude::*;

use crate::digits::pow10;
use crate::format::{
    ascii_within, decimal, decimal_fixed, decimal_signed, lemma_ascii_bytes, lemma_ascii_sum,
    lemma_decimal_within, lemma_fixed_within, lemma_number_sizes, lemma_signed_within, Line,
};
use crate::gps::GpsState;
use crate::reader::{
    digits_read, is_digit_char, law_decimal_reads_back, law_fixed_reads_back,
    law_signed_reads_back, read_int, read_nat,
};
use crate::text::Text;

verus! {

pub const SCREEN_WIDTH: u32 = 240;

pub const SCREEN_HEIGHT: u32 = 320;

/// Where the values of the general page begin, and the size of their regions.
pub const VALUE_X: i32 = 74;

pub const VALUE_W: u32 = 162;

pub const VALUE_H: u32 = 12;

/// The longest value, in bytes.
pub const VALUE_CAPACITY: usize = 32;

/// Where the rows of the start page begin, and the size of the regions of their states.
pub const LABEL_X: i32 = 12;

pub const STATUS_X: i32 = 104;

pub const STATUS_W: u32 = 124;

pub const ROW_H: u32 = 18;

#[derive(Clone, Copy, Debug, PartialEq, Eq, Structural)]
pub enum DisplayPage {
    Boot,
    General,
}

#[derive(Clone, Copy, Debug, PartialEq, Eq, Structural)]
pub enum InitStatus {
    Initializing,
    Okay,
    Nok,
}

#[derive(Clone, Copy, Debug, PartialEq, Eq, Structural)]
pub enum InitSubsystem {
    System,
    Display,
    SdCard,
    Gps,
    Lora,
}

/// The colours of the screen. What does not work is drawn in blue, which the screen shows red.
#[derive(Clone, Copy, Debug, PartialEq, Eq, Structural)]
pub enum Color {
    White,
    Yellow,
    Green,
    Blue,
}

/// How far the parts of the device have come at its start.
#[derive(Clone, Copy, Debug, PartialEq, Eq, Structural)]
pub struct BootStatus {
    pub system: InitStatus,
    pub display: InitStatus,
    pub sd_card: InitStatus,
    pub gps: InitStatus,
    pub lora: InitStatus,
}

/// How far a part has come.
pub open spec fn status_of(boot: BootStatus, subsystem: InitSubsystem) -> InitStatus {
    match subsystem {
        InitSubsystem::System => boot.system,
        InitSubsystem::Display => boot.display,
        InitSubsystem::SdCard => boot.sd_card,
        InitSubsystem::Gps => boot.gps,
        InitSubsystem::Lora => boot.lora,
    }
}

impl BootStatus {
    /// When the screen can be drawn, the system and the screen itself are up.
    pub fn starting() -> (boot: Self)
        ensures
            boot == starting_status(),
    {
        BootStatus {
            system: InitStatus::Okay,
            display: InitStatus::Okay,
            sd_card: InitStatus::Initializing,
            gps: InitStatus::Initializing,
            lora: InitStatus::Initializing,
        }
    }

    pub fn set(&mut self, subsystem: InitSubsystem, status: InitStatus)
        ensures
            forall|other: InitSubsystem|
                #[trigger] status_of(*final(self), other) == (if other == subsystem {
                    status
                } else {
                    status_of(*old(self), other)
                }),
    {
        match subsystem {
            InitSubsystem::System => {
                self.system = status;
            },
            InitSubsystem::Display => {
                self.display = status;
            },
            InitSubsystem::SdCard => {
                self.sd_card = status;
            },
            InitSubsystem::Gps => {
                self.gps = status;
            },
            InitSubsystem::Lora => {
                self.lora = status;
            },
        }
        assert(status_of(*self, InitSubsystem::System) == self.system);
        assert(status_of(*self, InitSubsystem::Display) == self.display);
        assert(status_of(*self, InitSubsystem::SdCard) == self.sd_card);
        assert(status_of(*self, InitSubsystem::Gps) == self.gps);
        assert(status_of(*self, InitSubsystem::Lora) == self.lora);
    }

    pub fn get(&self, subsystem: InitSubsystem) -> (status: InitStatus)
        ensures
            status == status_of(*self, subsystem),
    {
        match subsystem {
            InitSubsystem::System => self.system,
            InitSubsystem::Display => self.display,
            InitSubsystem::SdCard => self.sd_card,
            InitSubsystem::Gps => self.gps,
            InitSubsystem::Lora => self.lora,
        }
    }
}

/// The upper edge of the row of a part.
pub open spec fn row_top(subsystem: InitSubsystem) -> int {
    match subsystem {
        InitSubsystem::System => 72,
        InitSubsystem::Display => 94,
        InitSubsystem::SdCard => 116,
        InitSubsystem::Gps => 138,
        InitSubsystem::Lora => 160,
    }
}

/// Where the row of a part begins.
pub fn row_y(subsystem: InitSubsystem) -> (y: i32)
    ensures
        y == row_top(subsystem),
{
    match subsystem {
        InitSubsystem::System => 72,
        InitSubsystem::Display => 94,
        InitSubsystem::SdCard => 116,
        InitSubsystem::Gps => 138,
        InitSubsystem::Lora => 160,
    }
}

/// The name of a part.
pub open spec fn row_label(subsystem: InitSubsystem) -> Seq<char> {
    match subsystem {
        InitSubsystem::System => "SYSTEM"@,
        InitSubsystem::Display => "DISPLAY"@,
        InitSubsystem::SdCard => "SD CARD"@,
        InitSubsystem::Gps => "GPS"@,
        InitSubsystem::Lora => "LORA"@,
    }
}

pub fn label(subsystem: InitSubsystem) -> (text: &'static str)
    ensures
        text@ == row_label(subsystem),
{
    match subsystem {
        InitSubsystem::System => "SYSTEM",
        InitSubsystem::Display => "DISPLAY",
        InitSubsystem::SdCard => "SD CARD",
        InitSubsystem::Gps => "GPS",
        InitSubsystem::Lora => "LORA",
    }
}

/// The word for how far a part has come.
pub open spec fn status_word(status: InitStatus) -> Seq<char> {
    match status {
        InitStatus::Initializing => "initializing..."@,
        InitStatus::Okay => "OK"@,
        InitStatus::Nok => "NOK"@,
    }
}

pub fn status_text(status: InitStatus) -> (text: &'static str)
    ensures
        text@ == status_word(status),
{
    match status {
        InitStatus::Initializing => "initializing...",
        InitStatus::Okay => "OK",
        InitStatus::Nok => "NOK",
    }
}

/// The colour of how far a part has come.
pub open spec fn status_shade(status: InitStatus) -> Color {
    match status {
        InitStatus::Initializing => Color::Yellow,
        InitStatus::Okay => Color::Green,
        InitStatus::Nok => Color::Blue,
    }
}

pub fn status_color(status: InitStatus) -> (color: Color)
    ensures
        color == status_shade(status),
{
    match status {
        InitStatus::Initializing => Color::Yellow,
        InitStatus::Okay => Color::Green,
        InitStatus::Nok => Color::Blue,
    }
}

#[derive(Clone, Copy, Debug, PartialEq, Eq, Structural)]
pub enum RadioLinkState {
    Waiting,
    Connected,
    Lost,
}

/// What the screen shows of the link.
#[derive(Clone, Copy, Debug, PartialEq, Eq, Structural)]
pub struct RadioDisplayState {
    pub link: RadioLinkState,
    pub sequence: Option<u32>,
    pub rssi: Option<i16>,
    pub snr: Option<i16>,
    pub received: u32,
    pub missed: u32,
}

/// What is shown before the first packet.
pub open spec fn waiting_link() -> RadioDisplayState {
    RadioDisplayState {
        link: RadioLinkState::Waiting,
        sequence: None,
        rssi: None,
        snr: None,
        received: 0,
        missed: 0,
    }
}

/// What is shown of a packet.
pub open spec fn connected_link(
    sequence: u32,
    rssi: i16,
    snr: i16,
    received: u32,
    missed: u32,
) -> RadioDisplayState {
    RadioDisplayState {
        link: RadioLinkState::Connected,
        sequence: Some(sequence),
        rssi: Some(rssi),
        snr: Some(snr),
        received,
        missed,
    }
}

/// What is shown while the link is lost.
pub open spec fn lost_link(
    sequence: Option<u32>,
    rssi: Option<i16>,
    snr: Option<i16>,
    received: u32,
    missed: u32,
) -> RadioDisplayState {
    RadioDisplayState { link: RadioLinkState::Lost, sequence, rssi, snr, received, missed }
}

impl RadioDisplayState {
    pub fn waiting() -> (state: Self)
        ensures
            state == waiting_link(),
    {
        RadioDisplayState {
            link: RadioLinkState::Waiting,
            sequence: None,
            rssi: None,
            snr: None,
            received: 0,
            missed: 0,
        }
    }

    pub fn connected(sequence: u32, rssi: i16, snr: i16, received: u32, missed: u32) -> (state:
        Self)
        ensures
            state == connected_link(sequence, rssi, snr, received, missed),
    {
        RadioDisplayState {
            link: RadioLinkState::Connected,
            sequence: Some(sequence),
            rssi: Some(rssi),
            snr: Some(snr),
            received,
            missed,
        }
    }

    pub fn lost(
        sequence: Option<u32>,
        rssi: Option<i16>,
        snr: Option<i16>,
        received: u32,
        missed: u32,
    ) -> (state: Self)
        ensures
            state == lost_link(sequence, rssi, snr, received, missed),
    {
        RadioDisplayState { link: RadioLinkState::Lost, sequence, rssi, snr, received, missed }
    }
}

/// What the screen shows of the position.
#[derive(Clone, Copy, Debug, PartialEq, Eq, Structural)]
pub struct GpsDisplayState {
    pub online: bool,
    pub fix: bool,
    pub latitude_e7: Option<i32>,
    pub longitude_e7: Option<i32>,
    pub satellites: Option<u8>,
}

/// What is shown before a position receiver is heard.
pub open spec fn unheard_position() -> GpsDisplayState {
    GpsDisplayState {
        online: false,
        fix: false,
        latitude_e7: None,
        longitude_e7: None,
        satellites: None,
    }
}

/// What is shown of the position receiver's state.
pub open spec fn shown_position(gps: GpsState) -> GpsDisplayState {
    GpsDisplayState {
        online: gps.online,
        fix: gps.fix,
        latitude_e7: gps.latitude_e7,
        longitude_e7: gps.longitude_e7,
        satellites: gps.satellites,
    }
}

impl GpsDisplayState {
    pub fn offline() -> (state: Self)
        ensures
            state == unheard_position(),
    {
        GpsDisplayState {
            online: false,
            fix: false,
            latitude_e7: None,
            longitude_e7: None,
            satellites: None,
        }
    }

    /// The part of the position receiver's state that is shown.
    pub fn of(gps: GpsState) -> (state: Self)
        ensures
            state == shown_position(gps),
    {
        GpsDisplayState {
            online: gps.online,
            fix: gps.fix,
            latitude_e7: gps.latitude_e7,
            longitude_e7: gps.longitude_e7,
            satellites: gps.satellites,
        }
    }
}

/// The values of the general page, from top to bottom.
#[derive(Clone, Copy, Debug, PartialEq, Eq, Structural)]
pub enum Field {
    Link,
    Sequence,
    Rssi,
    Snr,
    Received,
    Missed,
    GpsStatus,
    Satellites,
    Latitude,
    Longitude,
}

/// The upper edge of a value's region.
pub open spec fn field_top(field: Field) -> int {
    match field {
        Field::Link => 42,
        Field::Sequence => 58,
        Field::Rssi => 74,
        Field::Snr => 90,
        Field::Received => 106,
        Field::Missed => 122,
        Field::GpsStatus => 166,
        Field::Satellites => 182,
        Field::Latitude => 198,
        Field::Longitude => 214,
    }
}

/// The place of a value among all.
pub open spec fn field_place(field: Field) -> int {
    match field {
        Field::Link => 0,
        Field::Sequence => 1,
        Field::Rssi => 2,
        Field::Snr => 3,
        Field::Received => 4,
        Field::Missed => 5,
        Field::GpsStatus => 6,
        Field::Satellites => 7,
        Field::Latitude => 8,
        Field::Longitude => 9,
    }
}

impl Field {
    pub fn y(self) -> (y: i32)
        ensures
            y == field_top(self),
    {
        match self {
            Field::Link => 42,
            Field::Sequence => 58,
            Field::Rssi => 74,
            Field::Snr => 90,
            Field::Received => 106,
            Field::Missed => 122,
            Field::GpsStatus => 166,
            Field::Satellites => 182,
            Field::Latitude => 198,
            Field::Longitude => 214,
        }
    }

    /// The value at a place, counted from 0.
    pub fn at(index: usize) -> (field: Option<Field>)
        ensures
            field is Some <==> index < 10,
            field matches Some(value) ==> field_place(value) == index,
    {
        match index {
            0 => Some(Field::Link),
            1 => Some(Field::Sequence),
            2 => Some(Field::Rssi),
            3 => Some(Field::Snr),
            4 => Some(Field::Received),
            5 => Some(Field::Missed),
            6 => Some(Field::GpsStatus),
            7 => Some(Field::Satellites),
            8 => Some(Field::Latitude),
            9 => Some(Field::Longitude),
            _ => None,
        }
    }
}

/// The regions of two values do not overlap, and all lie on the screen: to draw one of them leaves
/// the others.
pub proof fn law_values_do_not_overlap(a: Field, b: Field)
    ensures
        a != b ==> field_top(a) + VALUE_H <= field_top(b) || field_top(b) + VALUE_H <= field_top(a),
        0 <= VALUE_X && VALUE_X + VALUE_W <= SCREEN_WIDTH,
        0 <= field_top(a) && field_top(a) + VALUE_H <= SCREEN_HEIGHT,
{
}

/// A part of a degree in ten-millionths as a decimal number of degrees.
pub open spec fn coordinate_text(value_e7: int) -> Seq<char> {
    if value_e7 < 0 {
        "-"@ + decimal((-value_e7 / 10_000_000) as nat) + "."@ + decimal_fixed(
            (-value_e7 % 10_000_000) as nat,
            7,
        )
    } else {
        decimal((value_e7 / 10_000_000) as nat) + "."@ + decimal_fixed(
            (value_e7 % 10_000_000) as nat,
            7,
        )
    }
}

/// The text of a value.
pub open spec fn field_text(
    field: Field,
    radio: RadioDisplayState,
    gps: GpsDisplayState,
) -> Seq<char> {
    match field {
        Field::Link => match radio.link {
            RadioLinkState::Waiting => "WAITING FOR RX"@,
            RadioLinkState::Connected => "CONNECTED"@,
            RadioLinkState::Lost => "*** LOST ***"@,
        },
        Field::Sequence => match radio.sequence {
            Some(sequence) => decimal(sequence as nat),
            None => "---"@,
        },
        Field::Rssi => match radio.rssi {
            Some(rssi) => decimal_signed(rssi as int) + " dBm"@,
            None => "--- dBm"@,
        },
        Field::Snr => match radio.snr {
            Some(snr) => decimal_signed(snr as int) + " dB"@,
            None => "--- dB"@,
        },
        Field::Received => decimal(radio.received as nat),
        Field::Missed => decimal(radio.missed as nat),
        Field::GpsStatus => if !gps.online {
            "OFFLINE"@
        } else if gps.fix {
            "FIX"@
        } else {
            "NO FIX"@
        },
        Field::Satellites => match gps.satellites {
            Some(satellites) => decimal(satellites as nat),
            None => "---"@,
        },
        Field::Latitude => match gps.latitude_e7 {
            Some(latitude) => coordinate_text(latitude as int),
            None => "---"@,
        },
        Field::Longitude => match gps.longitude_e7 {
            Some(longitude) => coordinate_text(longitude as int),
            None => "---"@,
        },
    }
}

/// Adds a coordinate to an empty line.
fn write_coordinate_value(value_e7: i32) -> (line: Line<VALUE_CAPACITY>)
    ensures
        line.inv(),
        line@ == coordinate_text(value_e7 as int),
        ascii_within(line@, 32),
{
    let wide: i64 = value_e7 as i64;
    let mut line: Line<VALUE_CAPACITY>;
    let absolute: u64 = if wide < 0 {
        (-wide) as u64
    } else {
        wide as u64
    };
    let whole: u64 = absolute / 10_000_000;
    let fraction: u64 = absolute % 10_000_000;
    proof {
        reveal_strlit("-");
        reveal_strlit(".");
        reveal_strlit("");
        assert(pow10(3) == 1_000) by {
            reveal_with_fuel(pow10, 4);
        }
        lemma_decimal_within(whole as nat, 3);
        lemma_fixed_within(fraction as nat, 7);
        lemma_ascii_sum("-"@, 1, decimal(whole as nat), 3);
        lemma_ascii_sum(decimal(whole as nat), 3, "."@, 1);
        lemma_ascii_sum(decimal(whole as nat) + "."@, 4, decimal_fixed(fraction as nat, 7), 7);
        lemma_ascii_sum("-"@ + decimal(whole as nat), 4, "."@, 1);
        lemma_ascii_sum(
            "-"@ + decimal(whole as nat) + "."@,
            5,
            decimal_fixed(fraction as nat, 7),
            7,
        );
    }
    if wide < 0 {
        line = Line::start("-");
        line.add_u64(whole);
    } else {
        line = Line::start("");
        line.add_u64(whole);
        assert(line@ =~= decimal(whole as nat));
    }
    line.add_str(".");
    line.add_fixed(fraction, 7);
    line
}

/// The text of a value.
pub fn value_text(field: Field, radio: &RadioDisplayState, gps: &GpsDisplayState) -> (text: Text<
    VALUE_CAPACITY,
>)
    ensures
        text@ == field_text(field, *radio, *gps),
{
    proof {
        lemma_number_sizes();
        reveal_strlit("");
        reveal_strlit("WAITING FOR RX");
        reveal_strlit("CONNECTED");
        reveal_strlit("*** LOST ***");
        reveal_strlit("---");
        reveal_strlit(" dBm");
        reveal_strlit("--- dBm");
        reveal_strlit(" dB");
        reveal_strlit("--- dB");
        reveal_strlit("OFFLINE");
        reveal_strlit("FIX");
        reveal_strlit("NO FIX");
    }
    let line: Line<VALUE_CAPACITY> = match field {
        Field::Link => match radio.link {
            RadioLinkState::Waiting => Line::start("WAITING FOR RX"),
            RadioLinkState::Connected => Line::start("CONNECTED"),
            RadioLinkState::Lost => Line::start("*** LOST ***"),
        },
        Field::Sequence => match radio.sequence {
            Some(sequence) => number_line(sequence),
            None => Line::start("---"),
        },
        Field::Rssi => match radio.rssi {
            Some(rssi) => signed_line(rssi, " dBm"),
            None => Line::start("--- dBm"),
        },
        Field::Snr => match radio.snr {
            Some(snr) => signed_line(snr, " dB"),
            None => Line::start("--- dB"),
        },
        Field::Received => number_line(radio.received),
        Field::Missed => number_line(radio.missed),
        Field::GpsStatus => if !gps.online {
            Line::start("OFFLINE")
        } else if gps.fix {
            Line::start("FIX")
        } else {
            Line::start("NO FIX")
        },
        Field::Satellites => match gps.satellites {
            Some(satellites) => number_line(satellites as u32),
            None => Line::start("---"),
        },
        Field::Latitude => match gps.latitude_e7 {
            Some(latitude) => write_coordinate_value(latitude),
            None => Line::start("---"),
        },
        Field::Longitude => match gps.longitude_e7 {
            Some(longitude) => write_coordinate_value(longitude),
            None => Line::start("---"),
        },
    };
    proof {
        assert(ascii_within(line@, 32));
        lemma_ascii_bytes(line@, 32);
    }
    line.finish().unwrap()
}

fn number_line(value: u32) -> (line: Line<VALUE_CAPACITY>)
    ensures
        line.inv(),
        line@ == decimal(value as nat),
        ascii_within(line@, 10),
{
    let mut line: Line<VALUE_CAPACITY> = Line::start("");
    line.add_u64(value as u64);
    proof {
        reveal_strlit("");
        assert(line@ =~= decimal(value as nat));
        lemma_number_sizes();
        lemma_decimal_within(value as nat, 10);
    }
    line
}

fn signed_line(value: i16, unit: &str) -> (line: Line<VALUE_CAPACITY>)
    requires
        ascii_within(unit@, 10),
    ensures
        line.inv(),
        line@ == decimal_signed(value as int) + unit@,
        ascii_within(line@, 16),
{
    let mut line: Line<VALUE_CAPACITY> = Line::start("");
    line.add_i64(value as i64);
    proof {
        reveal_strlit("");
        assert(line@ =~= decimal_signed(value as int));
        lemma_number_sizes();
        lemma_signed_within(value as int, 5);
        lemma_ascii_sum(decimal_signed(value as int), 6, unit@, 10);
    }
    line.add_str(unit);
    line
}

/// A text at a place of the screen.
#[derive(Clone, Copy)]
pub struct Label {
    pub text: &'static str,
    pub x: i32,
    pub y: i32,
}

/// What the general page shows besides its values.
pub open spec fn general_labels() -> Seq<Label> {
    seq![
        Label { text: "GOLFER GENERAL", x: 4, y: 4 },
        Label { text: "MODE: RECEIVER", x: 4, y: 18 },
        Label { text: "LINK", x: 4, y: 42 },
        Label { text: "SEQ", x: 4, y: 58 },
        Label { text: "RSSI", x: 4, y: 74 },
        Label { text: "SNR", x: 4, y: 90 },
        Label { text: "RX", x: 4, y: 106 },
        Label { text: "MISSED", x: 4, y: 122 },
        Label { text: "GPS", x: 4, y: 166 },
        Label { text: "SAT", x: 4, y: 182 },
        Label { text: "LAT", x: 4, y: 198 },
        Label { text: "LON", x: 4, y: 214 },
        Label { text: "TIME  --:--:--", x: 4, y: 270 },
        Label { text: "BAT   ---- V", x: 4, y: 284 },
        Label { text: "ENV/HDG: future", x: 4, y: 298 },
    ]
}

/// The text at a place among those; `None` behind the last.
pub fn general_label(index: usize) -> (text: Option<Label>)
    ensures
        text == (if index < general_labels().len() {
            Some(general_labels()[index as int])
        } else {
            None
        }),
{
    match index {
        0 => Some(Label { text: "GOLFER GENERAL", x: 4, y: 4 }),
        1 => Some(Label { text: "MODE: RECEIVER", x: 4, y: 18 }),
        2 => Some(Label { text: "LINK", x: 4, y: 42 }),
        3 => Some(Label { text: "SEQ", x: 4, y: 58 }),
        4 => Some(Label { text: "RSSI", x: 4, y: 74 }),
        5 => Some(Label { text: "SNR", x: 4, y: 90 }),
        6 => Some(Label { text: "RX", x: 4, y: 106 }),
        7 => Some(Label { text: "MISSED", x: 4, y: 122 }),
        8 => Some(Label { text: "GPS", x: 4, y: 166 }),
        9 => Some(Label { text: "SAT", x: 4, y: 182 }),
        10 => Some(Label { text: "LAT", x: 4, y: 198 }),
        11 => Some(Label { text: "LON", x: 4, y: 214 }),
        12 => Some(Label { text: "TIME  --:--:--", x: 4, y: 270 }),
        13 => Some(Label { text: "BAT   ---- V", x: 4, y: 284 }),
        14 => Some(Label { text: "ENV/HDG: future", x: 4, y: 298 }),
        _ => None,
    }
}

/// What the start page shows besides its rows.
pub open spec fn boot_labels() -> Seq<Label> {
    seq![
        Label { text: "GOLFER", x: 12, y: 16 },
        Label { text: "SYSTEM INITIALIZATION", x: 12, y: 34 },
    ]
}

/// The text at a place among those; `None` behind the last.
pub fn boot_label(index: usize) -> (text: Option<Label>)
    ensures
        text == (if index < boot_labels().len() {
            Some(boot_labels()[index as int])
        } else {
            None
        }),
{
    match index {
        0 => Some(Label { text: "GOLFER", x: 12, y: 16 }),
        1 => Some(Label { text: "SYSTEM INITIALIZATION", x: 12, y: 34 }),
        _ => None,
    }
}

/// Which values of the general page are drawn anew.
#[derive(Clone, Copy, Debug, PartialEq, Eq, Structural)]
pub struct FieldSet {
    pub link: bool,
    pub sequence: bool,
    pub rssi: bool,
    pub snr: bool,
    pub received: bool,
    pub missed: bool,
    pub gps_status: bool,
    pub satellites: bool,
    pub latitude: bool,
    pub longitude: bool,
}

/// Whether a value is among them.
pub open spec fn has_field(set: FieldSet, field: Field) -> bool {
    match field {
        Field::Link => set.link,
        Field::Sequence => set.sequence,
        Field::Rssi => set.rssi,
        Field::Snr => set.snr,
        Field::Received => set.received,
        Field::Missed => set.missed,
        Field::GpsStatus => set.gps_status,
        Field::Satellites => set.satellites,
        Field::Latitude => set.latitude,
        Field::Longitude => set.longitude,
    }
}

impl FieldSet {
    pub fn has(&self, field: Field) -> (has: bool)
        ensures
            has == has_field(*self, field),
    {
        match field {
            Field::Link => self.link,
            Field::Sequence => self.sequence,
            Field::Rssi => self.rssi,
            Field::Snr => self.snr,
            Field::Received => self.received,
            Field::Missed => self.missed,
            Field::GpsStatus => self.gps_status,
            Field::Satellites => self.satellites,
            Field::Latitude => self.latitude,
            Field::Longitude => self.longitude,
        }
    }
}

/// What is drawn anew.
#[derive(Clone, Copy, Debug, PartialEq, Eq, Structural)]
pub enum Redraw {
    Nothing,
    /// The screen is cleared, and the page is drawn with all that it shows.
    Page(DisplayPage),
    /// One row of the start page.
    Row(InitSubsystem, InitStatus),
    /// Some values of the general page.
    Fields(FieldSet),
}

/// Whether a value of the general page is drawn anew.
pub open spec fn redraws(redraw: Redraw, field: Field) -> bool {
    match redraw {
        Redraw::Nothing => false,
        Redraw::Page(page) => page == DisplayPage::General,
        Redraw::Row(_, _) => false,
        Redraw::Fields(set) => has_field(set, field),
    }
}

/// The screen: its page, and what is known of what it shows.
#[derive(Clone, Copy, Debug, PartialEq, Eq, Structural)]
pub struct Display {
    pub page: DisplayPage,
    pub radio: RadioDisplayState,
    pub gps: GpsDisplayState,
    pub boot_status: BootStatus,
}

/// How far the parts have come when the screen can be drawn.
pub open spec fn starting_status() -> BootStatus {
    BootStatus {
        system: InitStatus::Okay,
        display: InitStatus::Okay,
        sd_card: InitStatus::Initializing,
        gps: InitStatus::Initializing,
        lora: InitStatus::Initializing,
    }
}

/// The screen at the start.
pub open spec fn starting_display() -> Display {
    Display {
        page: DisplayPage::Boot,
        radio: waiting_link(),
        gps: unheard_position(),
        boot_status: starting_status(),
    }
}

impl Display {
    /// The screen at the start. All of its page is drawn.
    pub fn new() -> (result: (Self, Redraw))
        ensures
            result.0 == starting_display(),
            result.1 == Redraw::Page(DisplayPage::Boot),
    {
        let display = Display {
            page: DisplayPage::Boot,
            radio: RadioDisplayState::waiting(),
            gps: GpsDisplayState::offline(),
            boot_status: BootStatus::starting(),
        };
        (display, Redraw::Page(DisplayPage::Boot))
    }

    pub fn page(&self) -> (page: DisplayPage)
        ensures
            page == self.page,
    {
        self.page
    }

    /// Turns to a page. All of it is drawn, unless it was there already.
    pub fn set_page(&mut self, page: DisplayPage) -> (redraw: Redraw)
        ensures
            *final(self) == (Display { page, ..*old(self) }),
            redraw == page_redraw(*old(self), page),
    {
        if self.page == page {
            return Redraw::Nothing;
        }
        self.page = page;
        Redraw::Page(page)
    }

    /// Takes how far a part of the device has come.
    pub fn set_init_status(&mut self, subsystem: InitSubsystem, status: InitStatus) -> (redraw:
        Redraw)
        ensures
            final(self).page == old(self).page,
            final(self).radio == old(self).radio,
            final(self).gps == old(self).gps,
            forall|other: InitSubsystem|
                #[trigger] status_of(final(self).boot_status, other) == (if other == subsystem {
                    status
                } else {
                    status_of(old(self).boot_status, other)
                }),
            redraw == row_redraw(*old(self), subsystem, status),
    {
        self.boot_status.set(subsystem, status);
        if self.page != DisplayPage::Boot {
            return Redraw::Nothing;
        }
        Redraw::Row(subsystem, status)
    }

    /// Takes what is known of the link. Those values are drawn whose content changed.
    pub fn update_radio(&mut self, state: RadioDisplayState) -> (redraw: Redraw)
        ensures
            *final(self) == (Display { radio: state, ..*old(self) }),
            redraw == radio_redraw(*old(self), state),
    {
        let before = self.radio;
        self.radio = state;
        if self.page != DisplayPage::General {
            return Redraw::Nothing;
        }
        Redraw::Fields(
            FieldSet {
                link: before.link != state.link,
                sequence: differ_u32(before.sequence, state.sequence),
                rssi: differ_i16(before.rssi, state.rssi),
                snr: differ_i16(before.snr, state.snr),
                received: before.received != state.received,
                missed: before.missed != state.missed,
                gps_status: false,
                satellites: false,
                latitude: false,
                longitude: false,
            },
        )
    }

    /// Takes what is known of the position. Those values are drawn whose content changed.
    pub fn update_gps(&mut self, state: GpsDisplayState) -> (redraw: Redraw)
        ensures
            *final(self) == (Display { gps: state, ..*old(self) }),
            redraw == gps_redraw(*old(self), state),
    {
        let before = self.gps;
        self.gps = state;
        if self.page != DisplayPage::General {
            return Redraw::Nothing;
        }
        Redraw::Fields(
            FieldSet {
                link: false,
                sequence: false,
                rssi: false,
                snr: false,
                received: false,
                missed: false,
                gps_status: before.online != state.online || before.fix != state.fix,
                satellites: differ_u8(before.satellites, state.satellites),
                latitude: differ_i32(before.latitude_e7, state.latitude_e7),
                longitude: differ_i32(before.longitude_e7, state.longitude_e7),
            },
        )
    }
}

/// What is drawn when a page is turned to.
pub open spec fn page_redraw(before: Display, page: DisplayPage) -> Redraw {
    if page == before.page {
        Redraw::Nothing
    } else {
        Redraw::Page(page)
    }
}

/// What is drawn when it is known how far a part of the device has come.
pub open spec fn row_redraw(
    before: Display,
    subsystem: InitSubsystem,
    status: InitStatus,
) -> Redraw {
    if before.page == DisplayPage::Boot {
        Redraw::Row(subsystem, status)
    } else {
        Redraw::Nothing
    }
}

/// What is drawn when something new is known of the link.
pub open spec fn radio_redraw(before: Display, state: RadioDisplayState) -> Redraw {
    if before.page == DisplayPage::General {
        Redraw::Fields(
            FieldSet {
                link: before.radio.link != state.link,
                sequence: before.radio.sequence != state.sequence,
                rssi: before.radio.rssi != state.rssi,
                snr: before.radio.snr != state.snr,
                received: before.radio.received != state.received,
                missed: before.radio.missed != state.missed,
                gps_status: false,
                satellites: false,
                latitude: false,
                longitude: false,
            },
        )
    } else {
        Redraw::Nothing
    }
}

/// What is drawn when something new is known of the position.
pub open spec fn gps_redraw(before: Display, state: GpsDisplayState) -> Redraw {
    if before.page == DisplayPage::General {
        Redraw::Fields(
            FieldSet {
                link: false,
                sequence: false,
                rssi: false,
                snr: false,
                received: false,
                missed: false,
                gps_status: before.gps.online != state.online || before.gps.fix != state.fix,
                satellites: before.gps.satellites != state.satellites,
                latitude: before.gps.latitude_e7 != state.latitude_e7,
                longitude: before.gps.longitude_e7 != state.longitude_e7,
            },
        )
    } else {
        Redraw::Nothing
    }
}

fn differ_u32(a: Option<u32>, b: Option<u32>) -> (differ: bool)
    ensures
        differ == (a != b),
{
    match (a, b) {
        (Some(x), Some(y)) => x != y,
        (None, None) => false,
        _ => true,
    }
}

fn differ_i16(a: Option<i16>, b: Option<i16>) -> (differ: bool)
    ensures
        differ == (a != b),
{
    match (a, b) {
        (Some(x), Some(y)) => x != y,
        (None, None) => false,
        _ => true,
    }
}

fn differ_u8(a: Option<u8>, b: Option<u8>) -> (differ: bool)
    ensures
        differ == (a != b),
{
    match (a, b) {
        (Some(x), Some(y)) => x != y,
        (None, None) => false,
        _ => true,
    }
}

fn differ_i32(a: Option<i32>, b: Option<i32>) -> (differ: bool)
    ensures
        differ == (a != b),
{
    match (a, b) {
        (Some(x), Some(y)) => x != y,
        (None, None) => false,
        _ => true,
    }
}

/// What a value of the general page shows after something was drawn: its text where it was drawn,
/// what it showed before where it was not.
pub open spec fn shown_after(
    shown: Seq<char>,
    redraw: Redraw,
    field: Field,
    radio: RadioDisplayState,
    gps: GpsDisplayState,
) -> Seq<char> {
    if redraws(redraw, field) {
        field_text(field, radio, gps)
    } else {
        shown
    }
}

/// The general page is never out of date: whatever becomes known of the link, each of its values
/// shows its text, though only those are drawn that changed.
pub proof fn law_page_follows_the_link(display: Display, state: RadioDisplayState, field: Field)
    requires
        display.page == DisplayPage::General,
    ensures
        shown_after(
            field_text(field, display.radio, display.gps),
            radio_redraw(display, state),
            field,
            state,
            display.gps,
        ) == field_text(field, state, display.gps),
{
}

/// The general page is never out of date: whatever becomes known of the position, each of its
/// values shows its text, though only those are drawn that changed.
pub proof fn law_page_follows_the_position(display: Display, state: GpsDisplayState, field: Field)
    requires
        display.page == DisplayPage::General,
    ensures
        shown_after(
            field_text(field, display.radio, display.gps),
            gps_redraw(display, state),
            field,
            display.radio,
            state,
        ) == field_text(field, display.radio, state),
{
}

/// The text of the link tells its state: three states show three different texts, and a lost link
/// alone shows `*** LOST ***`.
pub proof fn law_link_text_tells_the_link(
    radio: RadioDisplayState,
    other: RadioDisplayState,
    gps: GpsDisplayState,
    other_gps: GpsDisplayState,
)
    ensures
        field_text(Field::Link, radio, gps) == "*** LOST ***"@ <==> radio.link is Lost,
        field_text(Field::Link, radio, gps) == "CONNECTED"@ <==> radio.link is Connected,
        field_text(Field::Link, radio, gps) == "WAITING FOR RX"@ <==> radio.link is Waiting,
        field_text(Field::Link, radio, gps) == field_text(Field::Link, other, other_gps)
            <==> radio.link == other.link,
{
    reveal_strlit("WAITING FOR RX");
    reveal_strlit("CONNECTED");
    reveal_strlit("*** LOST ***");
    assert("WAITING FOR RX"@.len() == 14 && "CONNECTED"@.len() == 9 && "*** LOST ***"@.len() == 12);
}

/// The text of the position receiver tells whether it is heard and has a fix.
pub proof fn law_position_text_tells_the_fix(radio: RadioDisplayState, gps: GpsDisplayState)
    ensures
        field_text(Field::GpsStatus, radio, gps) == "OFFLINE"@ <==> !gps.online,
        field_text(Field::GpsStatus, radio, gps) == "FIX"@ <==> gps.online && gps.fix,
        field_text(Field::GpsStatus, radio, gps) == "NO FIX"@ <==> gps.online && !gps.fix,
{
    reveal_strlit("OFFLINE");
    reveal_strlit("FIX");
    reveal_strlit("NO FIX");
    assert("OFFLINE"@.len() == 7 && "FIX"@.len() == 3 && "NO FIX"@.len() == 6);
}

proof fn lemma_no_number(text: Seq<char>)
    requires
        text == "---"@ || text == "--- dBm"@ || text == "--- dB"@,
    ensures
        read_int(text) is None,
        read_nat(text) is None,
{
    reveal_strlit("---");
    reveal_strlit("--- dBm");
    reveal_strlit("--- dB");
    assert(!is_digit_char(text[0]));
    assert(text.skip(1)[0] == text[1]);
    assert(!is_digit_char(text.skip(1)[0]));
}

/// Each number of the general page reads back as the one that it shows, and dashes stand exactly
/// where there is none.
pub proof fn law_numbers_on_the_page_read_back(radio: RadioDisplayState, gps: GpsDisplayState)
    ensures
        radio.sequence is None <==> field_text(Field::Sequence, radio, gps) == "---"@,
        radio.sequence is Some ==> read_nat(field_text(Field::Sequence, radio, gps)) == Some(
            radio.sequence->0 as int,
        ),
        read_nat(field_text(Field::Received, radio, gps)) == Some(radio.received as int),
        read_nat(field_text(Field::Missed, radio, gps)) == Some(radio.missed as int),
        gps.satellites is None <==> field_text(Field::Satellites, radio, gps) == "---"@,
        gps.satellites is Some ==> read_nat(field_text(Field::Satellites, radio, gps)) == Some(
            gps.satellites->0 as int,
        ),
{
    lemma_no_number("---"@);
    law_decimal_reads_back(radio.received as nat);
    law_decimal_reads_back(radio.missed as nat);
    if let Some(sequence) = radio.sequence {
        law_decimal_reads_back(sequence as nat);
    }
    if let Some(satellites) = gps.satellites {
        law_decimal_reads_back(satellites as nat);
    }
}

/// The strength of a packet reads back, before `dBm`, and its distance from the noise, before `dB`.
/// Dashes stand exactly where there is none.
pub proof fn law_strength_on_the_page_reads_back(radio: RadioDisplayState, gps: GpsDisplayState)
    ensures
        ({
            let rssi = field_text(Field::Rssi, radio, gps);
            let snr = field_text(Field::Snr, radio, gps);
            let rssi_end = rssi.len() - 4;
            let snr_end = snr.len() - 3;
            &&& rssi_end > 0 && rssi.skip(rssi_end) == " dBm"@
            &&& snr_end > 0 && snr.skip(snr_end) == " dB"@
            &&& radio.rssi is None <==> rssi.take(rssi_end) == "---"@
            &&& radio.rssi is Some ==> read_int(rssi.take(rssi_end)) == Some(radio.rssi->0 as int)
            &&& radio.snr is None <==> snr.take(snr_end) == "---"@
            &&& radio.snr is Some ==> read_int(snr.take(snr_end)) == Some(radio.snr->0 as int)
        }),
{
    lemma_no_number("---"@);
    reveal_strlit("---");
    reveal_strlit(" dBm");
    reveal_strlit(" dB");
    reveal_strlit("--- dBm");
    reveal_strlit("--- dB");
    let rssi = field_text(Field::Rssi, radio, gps);
    let snr = field_text(Field::Snr, radio, gps);
    if let Some(value) = radio.rssi {
        law_signed_reads_back(value as int);
        let number = decimal_signed(value as int);
        assert(rssi.take(rssi.len() - 4) =~= number);
        assert(rssi.skip(rssi.len() - 4) =~= " dBm"@);
    } else {
        assert(rssi.take(rssi.len() - 4) =~= "---"@);
        assert(rssi.skip(rssi.len() - 4) =~= " dBm"@);
    }
    if let Some(value) = radio.snr {
        law_signed_reads_back(value as int);
        let number = decimal_signed(value as int);
        assert(snr.take(snr.len() - 3) =~= number);
        assert(snr.skip(snr.len() - 3) =~= " dB"@);
    } else {
        assert(snr.take(snr.len() - 3) =~= "---"@);
        assert(snr.skip(snr.len() - 3) =~= " dB"@);
    }
}

proof fn lemma_digits_joined(a: Seq<char>, b: Seq<char>)
    ensures
        digits_read(a + b) == digits_read(a) * pow10(b.len()) + digits_read(b),
    decreases b.len(),
{
    if b.len() == 0 {
        assert(a + b =~= a);
        assert(digits_read(a) * 1 == digits_read(a));
    } else {
        lemma_digits_joined(a, b.drop_last());
        assert((a + b).drop_last() =~= a + b.drop_last());
        let x = digits_read(a);
        let y = pow10(b.drop_last().len()) as int;
        assert(x * y * 10 == x * (10 * y)) by (nonlinear_arith);
    }
}

/// A coordinate has a point before its last seven digits, and is, without it, the number of
/// ten-millionths of a degree that it shows, with a minus before a negative one.
pub proof fn law_coordinate_text_reads_back(value_e7: int)
    ensures
        ({
            let text = coordinate_text(value_e7);
            let point = text.len() - 8;
            &&& point >= 1
            &&& text[point] == '.'
            &&& read_int(text.take(point) + text.skip(point + 1)) == Some(value_e7)
            &&& text[0] == '-' <==> value_e7 < 0
        }),
{
    reveal_strlit("-");
    reveal_strlit(".");
    let size = if value_e7 < 0 {
        -value_e7
    } else {
        value_e7
    };
    let whole = decimal((size / 10_000_000) as nat);
    let fraction = decimal_fixed((size % 10_000_000) as nat, 7);
    assert(pow10(7) == 10_000_000) by {
        reveal_with_fuel(pow10, 8);
    }
    law_decimal_reads_back((size / 10_000_000) as nat);
    law_fixed_reads_back((size % 10_000_000) as nat, 7);
    let text = coordinate_text(value_e7);
    let point = text.len() - 8;
    let digits = whole + fraction;
    lemma_digits_joined(whole, fraction);
    assert(digits_read(whole) == size / 10_000_000);
    assert(digits_read(fraction) == size % 10_000_000);
    assert(pow10(fraction.len()) == 10_000_000);
    assert(digits_read(whole) * pow10(fraction.len()) == digits_read(whole) * 10_000_000);
    assert(digits_read(digits) == size);
    assert forall|i: int| 0 <= i < digits.len() implies is_digit_char(#[trigger] digits[i]) by {
        if i < whole.len() {
            assert(is_digit_char(whole[i]));
        } else {
            assert(is_digit_char(fraction[i - whole.len()]));
        }
    }
    let joined = text.take(point) + text.skip(point + 1);
    assert(is_digit_char(whole[0]));
    if value_e7 < 0 {
        assert(joined.skip(1) =~= digits);
        assert(joined[0] == '-');
    } else {
        assert(joined =~= digits);
        assert(digits[0] == whole[0]);
    }
}

/// The coordinates on the general page are those of the position, dashes stand exactly where there
/// is none, and different coordinates show different texts.
pub proof fn law_position_on_the_page_reads_back(radio: RadioDisplayState, gps: GpsDisplayState)
    ensures
        ({
            let latitude = field_text(Field::Latitude, radio, gps);
            let longitude = field_text(Field::Longitude, radio, gps);
            let p = latitude.len() - 8;
            let q = longitude.len() - 8;
            &&& gps.latitude_e7 is None <==> latitude == "---"@
            &&& gps.longitude_e7 is None <==> longitude == "---"@
            &&& gps.latitude_e7 is Some ==> read_int(latitude.take(p) + latitude.skip(p + 1))
                == Some(gps.latitude_e7->0 as int)
            &&& gps.longitude_e7 is Some ==> read_int(longitude.take(q) + longitude.skip(q + 1))
                == Some(gps.longitude_e7->0 as int)
        }),
{
    reveal_strlit("---");
    if let Some(value) = gps.latitude_e7 {
        law_coordinate_text_reads_back(value as int);
    }
    if let Some(value) = gps.longitude_e7 {
        law_coordinate_text_reads_back(value as int);
    }
}

/// Exactly those values are drawn anew whose text changed with what is known of the link.
pub proof fn law_changed_values_are_drawn(display: Display, state: RadioDisplayState, field: Field)
    requires
        display.page == DisplayPage::General,
    ensures
        redraws(radio_redraw(display, state), field) <==> field_text(field, state, display.gps)
            != field_text(field, display.radio, display.gps),
{
    law_link_text_tells_the_link(display.radio, state, display.gps, display.gps);
    law_numbers_on_the_page_read_back(display.radio, display.gps);
    law_numbers_on_the_page_read_back(state, display.gps);
    law_strength_on_the_page_reads_back(display.radio, display.gps);
    law_strength_on_the_page_reads_back(state, display.gps);
}

/// On another page nothing of it is drawn.
pub proof fn law_hidden_values_are_not_drawn(
    display: Display,
    radio: RadioDisplayState,
    gps: GpsDisplayState,
    field: Field,
)
    requires
        display.page == DisplayPage::Boot,
    ensures
        !redraws(radio_redraw(display, radio), field),
        !redraws(gps_redraw(display, gps), field),
{
}

/// A value of the position that did not change is not drawn.
pub proof fn law_unchanged_position_is_not_drawn(
    display: Display,
    state: GpsDisplayState,
    field: Field,
)
    ensures
        state == display.gps ==> !redraws(gps_redraw(display, state), field),
        redraws(gps_redraw(display, state), field) ==> field is GpsStatus || field_text(
            field,
            display.radio,
            state,
        ) != field_text(field, display.radio, display.gps),
{
    law_numbers_on_the_page_read_back(display.radio, display.gps);
    law_numbers_on_the_page_read_back(display.radio, state);
    law_position_on_the_page_reads_back(display.radio, display.gps);
    law_position_on_the_page_reads_back(display.radio, state);
}

/// What the general page shows of a packet is the packet's number, its strength and distance from
/// the noise, and the counts: each reads back.
pub proof fn law_packet_on_the_page(
    sequence: u32,
    rssi: i16,
    snr: i16,
    received: u32,
    missed: u32,
    gps: GpsDisplayState,
)
    ensures
        ({
            let radio = connected_link(sequence, rssi, snr, received, missed);
            let strength = field_text(Field::Rssi, radio, gps);
            let distance = field_text(Field::Snr, radio, gps);
            &&& field_text(Field::Link, radio, gps) == "CONNECTED"@
            &&& read_nat(field_text(Field::Sequence, radio, gps)) == Some(sequence as int)
            &&& read_int(strength.take(strength.len() - 4)) == Some(rssi as int)
            &&& read_int(distance.take(distance.len() - 3)) == Some(snr as int)
            &&& read_nat(field_text(Field::Received, radio, gps)) == Some(received as int)
            &&& read_nat(field_text(Field::Missed, radio, gps)) == Some(missed as int)
        }),
{
    let radio = connected_link(sequence, rssi, snr, received, missed);
    law_numbers_on_the_page_read_back(radio, gps);
    law_strength_on_the_page_reads_back(radio, gps);
}

/// A lost link shows what was known of it last, and the link before the first packet shows nothing
/// but the two counts at 0.
pub proof fn law_lost_and_waiting_on_the_page(
    sequence: u32,
    rssi: i16,
    snr: i16,
    received: u32,
    missed: u32,
    gps: GpsDisplayState,
    field: Field,
)
    requires
        !(field is Link),
    ensures
        field_text(
            field,
            lost_link(Some(sequence), Some(rssi), Some(snr), received, missed),
            gps,
        ) == field_text(field, connected_link(sequence, rssi, snr, received, missed), gps),
        field_text(field, lost_link(None, None, None, 0, 0), gps) == field_text(
            field,
            waiting_link(),
            gps,
        ),
        field_text(Field::Link, lost_link(None, None, None, received, missed), gps)
            == "*** LOST ***"@,
        field_text(Field::Link, waiting_link(), gps) == "WAITING FOR RX"@,
        field_text(Field::Sequence, waiting_link(), gps) == "---"@,
        field_text(Field::Rssi, waiting_link(), gps) == "--- dBm"@,
        field_text(Field::Snr, waiting_link(), gps) == "--- dB"@,
        read_nat(field_text(Field::Received, waiting_link(), gps)) == Some(0int),
        read_nat(field_text(Field::Missed, waiting_link(), gps)) == Some(0int),
{
    law_numbers_on_the_page_read_back(waiting_link(), gps);
}

/// What the general page shows of the position receiver is what the receiver knows.
pub proof fn law_receiver_on_the_page(gps: GpsState, radio: RadioDisplayState)
    ensures
        ({
            let shown = shown_position(gps);
            let latitude = field_text(Field::Latitude, radio, shown);
            let longitude = field_text(Field::Longitude, radio, shown);
            let p = latitude.len() - 8;
            let q = longitude.len() - 8;
            &&& !gps.online <==> field_text(Field::GpsStatus, radio, shown) == "OFFLINE"@
            &&& gps.online && gps.fix <==> field_text(Field::GpsStatus, radio, shown) == "FIX"@
            &&& gps.latitude_e7 is None <==> latitude == "---"@
            &&& gps.longitude_e7 is None <==> longitude == "---"@
            &&& gps.latitude_e7 is Some ==> read_int(latitude.take(p) + latitude.skip(p + 1))
                == Some(gps.latitude_e7->0 as int)
            &&& gps.longitude_e7 is Some ==> read_int(longitude.take(q) + longitude.skip(q + 1))
                == Some(gps.longitude_e7->0 as int)
            &&& gps.satellites is None <==> field_text(Field::Satellites, radio, shown) == "---"@
            &&& gps.satellites is Some ==> read_nat(field_text(Field::Satellites, radio, shown))
                == Some(gps.satellites->0 as int)
        }),
        forall|field: Field|
            field is GpsStatus || field is Satellites || field is Latitude || field is Longitude
                ==> #[trigger] field_text(field, radio, unheard_position()) == (
            if field is GpsStatus {
                "OFFLINE"@
            } else {
                "---"@
            }),
{
    law_position_text_tells_the_fix(radio, shown_position(gps));
    law_numbers_on_the_page_read_back(radio, shown_position(gps));
    law_position_on_the_page_reads_back(radio, shown_position(gps));
}

/// Each value of the general page stands to the right of its own label: a text at the left edge, on
/// the same height, that names it.
pub proof fn law_values_stand_beside_their_labels(field: Field)
    ensures
        ({
            let beside = general_labels()[field_place(field) + 2];
            &&& beside.x == 4
            &&& beside.y == field_top(field)
            &&& beside.text@ == (match field {
                Field::Link => "LINK"@,
                Field::Sequence => "SEQ"@,
                Field::Rssi => "RSSI"@,
                Field::Snr => "SNR"@,
                Field::Received => "RX"@,
                Field::Missed => "MISSED"@,
                Field::GpsStatus => "GPS"@,
                Field::Satellites => "SAT"@,
                Field::Latitude => "LAT"@,
                Field::Longitude => "LON"@,
            })
        }),
        general_labels().len() == 15,
        0 <= field_place(field) < 10,
{
}

/// The values stand from top to bottom in the order in which they are counted, at least sixteen
/// lines apart.
pub proof fn law_values_stand_in_order(a: Field, b: Field)
    ensures
        field_place(a) < field_place(b) <==> field_top(a) + 16 <= field_top(b),
        field_place(a) == field_place(b) <==> a == b,
        field_top(a) >= 42,
        field_top(a) + 12 <= 226,
{
}

/// The labels of a page stand from top to bottom, no two on one height, and on the screen of 240 by
/// 320.
pub proof fn law_labels_stand_in_order(i: int, j: int)
    ensures
        0 <= i < j < general_labels().len() ==> general_labels()[i].y + 14 <= general_labels()[j].y,
        0 <= i < j < boot_labels().len() ==> boot_labels()[i].y + 14 <= boot_labels()[j].y,
        0 <= i < general_labels().len() ==> 4 <= general_labels()[i].y <= 298,
        0 <= i < boot_labels().len() ==> boot_labels()[i].x == 12 && boot_labels()[i].y < 72,
        boot_labels().len() == 2,
{
}

/// The rows of the start page do not overlap, stand in the order of the parts, one every 22 lines
/// from 72 on, and each has the name of its part.
pub proof fn law_rows_of_the_start_page(a: InitSubsystem, b: InitSubsystem)
    ensures
        a != b ==> row_top(a) + 22 <= row_top(b) || row_top(b) + 22 <= row_top(a),
        (row_top(a) - 72) % 22 == 0,
        72 <= row_top(a) <= 160,
        row_top(InitSubsystem::System) < row_top(InitSubsystem::Display) < row_top(
            InitSubsystem::SdCard,
        ) < row_top(InitSubsystem::Gps) < row_top(InitSubsystem::Lora),
        a is System <==> row_label(a) == "SYSTEM"@,
        a is Display <==> row_label(a) == "DISPLAY"@,
        a is SdCard <==> row_label(a) == "SD CARD"@,
        a is Gps <==> row_label(a) == "GPS"@,
        a is Lora <==> row_label(a) == "LORA"@,
        row_label(a) == row_label(b) <==> a == b,
{
    reveal_strlit("SYSTEM");
    reveal_strlit("DISPLAY");
    reveal_strlit("SD CARD");
    reveal_strlit("GPS");
    reveal_strlit("LORA");
    assert("SYSTEM"@.len() == 6 && "DISPLAY"@.len() == 7 && "SD CARD"@.len() == 7);
    assert("GPS"@.len() == 3 && "LORA"@.len() == 4);
    assert("DISPLAY"@[0] == 'D' && "SD CARD"@[0] == 'S');
}

/// How far a part has come is told by its word and by its colour: what works is green and `OK`,
/// what does not is `NOK` in the colour that the screen shows red, and what is not known yet is
/// yellow.
pub proof fn law_states_of_the_start_page(status: InitStatus)
    ensures
        status is Okay <==> status_word(status) == "OK"@,
        status is Nok <==> status_word(status) == "NOK"@,
        status is Initializing <==> status_word(status) == "initializing..."@,
        status is Okay <==> status_shade(status) is Green,
        status is Nok <==> status_shade(status) is Blue,
        status is Initializing <==> status_shade(status) is Yellow,
{
    reveal_strlit("OK");
    reveal_strlit("NOK");
    reveal_strlit("initializing...");
    assert("OK"@.len() == 2 && "NOK"@.len() == 3 && "initializing..."@.len() == 15);
}

/// The state of each part of the device is its own.
pub proof fn law_each_part_has_its_state(boot: BootStatus)
    ensures
        status_of(boot, InitSubsystem::System) == boot.system,
        status_of(boot, InitSubsystem::Display) == boot.display,
        status_of(boot, InitSubsystem::SdCard) == boot.sd_card,
        status_of(boot, InitSubsystem::Gps) == boot.gps,
        status_of(boot, InitSubsystem::Lora) == boot.lora,
{
}

/// A page that is turned to is drawn whole, and one that is there already is not drawn again. A row
/// of the start page is drawn whenever its part reports, and only there.
pub proof fn law_pages_and_rows_are_drawn(
    display: Display,
    page: DisplayPage,
    subsystem: InitSubsystem,
    status: InitStatus,
)
    ensures
        page_redraw(display, page) is Nothing <==> page == display.page,
        page != display.page ==> page_redraw(display, page) == Redraw::Page(page),
        display.page is Boot ==> row_redraw(display, subsystem, status) == Redraw::Row(
            subsystem,
            status,
        ),
        display.page is General ==> row_redraw(display, subsystem, status) is Nothing,
{
}

/// At the start the screen shows the start page: system and screen are up, the other parts are not
/// known yet, nothing has been received and no position is known.
pub proof fn law_screen_at_the_start(subsystem: InitSubsystem, field: Field)
    ensures
        starting_display().page is Boot,
        subsystem is System || subsystem is Display ==> status_of(
            starting_display().boot_status,
            subsystem,
        ) is Okay,
        !(subsystem is System || subsystem is Display) ==> status_of(
            starting_display().boot_status,
            subsystem,
        ) is Initializing,
        starting_display().radio.link is Waiting,
        starting_display().radio.received == 0,
        starting_display().radio.missed == 0,
        starting_display().radio.sequence is None,
        !starting_display().gps.online,
        !starting_display().gps.fix,
        starting_display().gps.latitude_e7 is None,
        starting_display().gps.longitude_e7 is None,
{
}

/// The pages are headed by the name of the device and of the page, and what the device cannot show
/// yet stands at the foot of the general page. The values stand at 74 from the left, 162 wide and
/// 12 high, and the rows of the start page are 18 high.
pub proof fn law_headings_of_the_pages()
    ensures
        general_labels()[0].text@ == "GOLFER GENERAL"@,
        general_labels()[1].text@ == "MODE: RECEIVER"@,
        general_labels()[12].text@ == "TIME  --:--:--"@,
        general_labels()[13].text@ == "BAT   ---- V"@,
        general_labels()[14].text@ == "ENV/HDG: future"@,
        boot_labels()[0].text@ == "GOLFER"@,
        boot_labels()[1].text@ == "SYSTEM INITIALIZATION"@,
        VALUE_X == 74 && VALUE_W == 162 && VALUE_H == 12,
        LABEL_X == 12 && STATUS_X == 104 && STATUS_W == 124 && ROW_H == 18,
        SCREEN_WIDTH == 240 && SCREEN_HEIGHT == 320,
{
}

} // verus!
