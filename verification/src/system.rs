//! Who the device is, and what its user has named it.
//!
//! The name is kept in two records of flash memory. A new name is written to the record that is
//! not in use, and the one in use stays until the new one has been read back.
use vstd::prelude::*;
use vstd::slice::slice_subrange;
use vstd::string::StrSliceExecFns;
use vstd::utf8::{encode_utf8, valid_utf8};

use crate::chars::{char_is_control, char_is_whitespace, is_control, is_whitespace, text_of_utf8};
use crate::crc::{crc32, crc32_ieee};
use crate::format::{hex_char, hex_fixed, lemma_ascii_bytes, lemma_hex_within, Line};
use crate::le::{
    law_le_value_of_bytes, le_bytes, le_limit, le_value, lemma_le_bytes_len, put_u16_le, put_u32_le,
    read_u16_le, read_u32_le,
};
use crate::reader::{law_low_hex_digits, pow16, read_hex};
use crate::text::{byte_len, same_text, Text};

verus! {

pub const PROTOCOL_VERSION: u16 = 1;

pub const CONFIG_VERSION: u16 = 1;

/// The longest name, in bytes.
pub const MAX_NAME_BYTES: usize = 32;

/// The size of what flash memory erases at once.
pub const ERASE_SIZE: u32 = 4096;

pub const FLASH_SIZE_BYTES: u32 = 0x40_0000;

/// Where the part of flash memory begins that the program does not take.
pub const PERSISTENT_REGION_OFFSET: u32 = 0x3F_0000;

pub const CONFIG_RECORD_SIZE: usize = 256;

pub const CONFIG_RECORD_FORMAT: u8 = 1;

pub const NAME_OFFSET: usize = 12;

#[derive(Clone, Copy, Debug, PartialEq, Eq, Structural)]
pub enum FieldAccess {
    ReadOnly,
    ReadWrite,
}

/// The tag of what a user may do with a value.
pub open spec fn access_tag(access: FieldAccess) -> Seq<char> {
    match access {
        FieldAccess::ReadOnly => "RO"@,
        FieldAccess::ReadWrite => "RW"@,
    }
}

impl FieldAccess {
    pub fn tag(self) -> (tag: &'static str)
        ensures
            tag@ == access_tag(self),
    {
        match self {
            FieldAccess::ReadOnly => "RO",
            FieldAccess::ReadWrite => "RW",
        }
    }
}

/// A value, and whether its user may change it.
#[derive(Clone, Copy)]
pub struct SystemField<T> {
    pub value: T,
    pub access: FieldAccess,
}

impl<T> SystemField<T> {
    pub fn read_only(value: T) -> (field: Self)
        ensures
            field == (SystemField { value, access: FieldAccess::ReadOnly }),
    {
        SystemField { value, access: FieldAccess::ReadOnly }
    }

    pub fn read_write(value: T) -> (field: Self)
        ensures
            field == (SystemField { value, access: FieldAccess::ReadWrite }),
    {
        SystemField { value, access: FieldAccess::ReadWrite }
    }
}

/// What cannot be changed of a device. Its number comes from the chip and stays when the device is
/// given another name.
#[derive(Clone, Copy)]
pub struct SystemInfo {
    pub system_id: SystemField<u64>,
    pub firmware_version: SystemField<&'static str>,
    pub protocol_version: SystemField<u16>,
    pub config_version: SystemField<u16>,
}

/// What cannot be changed of a device with a number and a firmware.
pub open spec fn info_of(system_id: u64, firmware_version: &'static str) -> SystemInfo {
    SystemInfo {
        system_id: SystemField { value: system_id, access: FieldAccess::ReadOnly },
        firmware_version: SystemField { value: firmware_version, access: FieldAccess::ReadOnly },
        protocol_version: SystemField { value: PROTOCOL_VERSION, access: FieldAccess::ReadOnly },
        config_version: SystemField { value: CONFIG_VERSION, access: FieldAccess::ReadOnly },
    }
}

impl SystemInfo {
    pub fn new(system_id: u64, firmware_version: &'static str) -> (info: Self)
        ensures
            info == info_of(system_id, firmware_version),
    {
        SystemInfo {
            system_id: SystemField::read_only(system_id),
            firmware_version: SystemField::read_only(firmware_version),
            protocol_version: SystemField::read_only(PROTOCOL_VERSION),
            config_version: SystemField::read_only(CONFIG_VERSION),
        }
    }
}

/// What a user can change of a device.
pub struct SystemConfig {
    pub name: SystemField<Text<MAX_NAME_BYTES>>,
}

/// The two places of the record.
#[derive(Clone, Copy, Debug, PartialEq, Eq, Structural)]
pub enum ConfigSlot {
    A,
    B,
}

/// Where a slot begins in flash memory.
pub open spec fn slot_offset(slot: ConfigSlot) -> int {
    match slot {
        ConfigSlot::A => PERSISTENT_REGION_OFFSET as int,
        ConfigSlot::B => PERSISTENT_REGION_OFFSET + ERASE_SIZE,
    }
}

/// The letter of a slot.
pub open spec fn slot_label(slot: ConfigSlot) -> Seq<char> {
    match slot {
        ConfigSlot::A => "A"@,
        ConfigSlot::B => "B"@,
    }
}

impl ConfigSlot {
    pub open spec fn spec_other(self) -> ConfigSlot {
        match self {
            ConfigSlot::A => ConfigSlot::B,
            ConfigSlot::B => ConfigSlot::A,
        }
    }

    /// Where a slot begins in flash memory.
    pub fn offset(self) -> (offset: u32)
        ensures
            offset == slot_offset(self),
            offset % ERASE_SIZE == 0,
            offset + ERASE_SIZE <= FLASH_SIZE_BYTES,
    {
        match self {
            ConfigSlot::A => PERSISTENT_REGION_OFFSET,
            ConfigSlot::B => PERSISTENT_REGION_OFFSET + ERASE_SIZE,
        }
    }

    pub fn other(self) -> (slot: Self)
        ensures
            slot == self.spec_other(),
    {
        match self {
            ConfigSlot::A => ConfigSlot::B,
            ConfigSlot::B => ConfigSlot::A,
        }
    }

    pub fn label(self) -> (label: &'static str)
        ensures
            label@ == slot_label(self),
    {
        match self {
            ConfigSlot::A => "A",
            ConfigSlot::B => "B",
        }
    }
}

#[derive(Clone, Copy, Debug, PartialEq, Eq, Structural)]
pub enum SystemError {
    NameEmpty,
    NameTooLong,
    NameContainsControl,
    /// The record in use has the last generation, and none could be newer.
    GenerationsUsedUp,
    FlashErase,
    FlashWrite,
    FlashVerify,
}

/// What is wrong with a name: the first of the rules that it breaks, if any. A name has a character
/// that is no space, is not too long, and has no control character.
pub open spec fn name_fault(name: Seq<char>) -> Option<SystemError> {
    if forall|i: int| 0 <= i < name.len() ==> char_is_whitespace(#[trigger] name[i]) {
        Some(SystemError::NameEmpty)
    } else if byte_len(name) > MAX_NAME_BYTES {
        Some(SystemError::NameTooLong)
    } else if exists|i: int| 0 <= i < name.len() && char_is_control(#[trigger] name[i]) {
        Some(SystemError::NameContainsControl)
    } else {
        None
    }
}

/// A name, or why the text is none.
pub fn make_name(name: &str) -> (result: Result<Text<MAX_NAME_BYTES>, SystemError>)
    ensures
        match name_fault(name@) {
            Some(fault) => result == Err::<Text<MAX_NAME_BYTES>, SystemError>(fault),
            None => result is Ok && result->Ok_0@ == name@,
        },
{
    let count: usize = name.unicode_len();
    let mut blank: bool = true;
    let mut control: bool = false;
    let mut i: usize = 0;
    while i < count
        invariant
            i <= count,
            count == name@.len(),
            blank <==> forall|j: int| 0 <= j < i ==> char_is_whitespace(#[trigger] name@[j]),
            control <==> exists|j: int| 0 <= j < i && char_is_control(#[trigger] name@[j]),
        decreases count - i,
    {
        let c: char = name.get_char(i);
        assert(name@[i as int] == c);
        if !is_whitespace(c) {
            blank = false;
        }
        if is_control(c) {
            control = true;
        }
        i = i + 1;
    }
    if blank {
        return Err(SystemError::NameEmpty);
    }
    if name.as_bytes().len() > MAX_NAME_BYTES {
        return Err(SystemError::NameTooLong);
    }
    if control {
        return Err(SystemError::NameContainsControl);
    }
    let mut value: Text<MAX_NAME_BYTES> = Text::new();
    proof {
        assert(encode_utf8(Seq::<char>::empty()) =~= Seq::<u8>::empty());
        assert(Seq::<char>::empty() + name@ =~= name@);
    }
    let _fits: bool = value.push_str(name);
    Ok(value)
}

/// The name of a device that nobody has named: the low half of its number in eight hexadecimal
/// digits.
pub fn default_name(system_id: u64) -> (name: Text<MAX_NAME_BYTES>)
    ensures
        name@ == hex_fixed(system_id as nat, 8),
{
    let mut line: Line<MAX_NAME_BYTES> = Line::start("");
    line.add_hex(system_id, 8);
    proof {
        reveal_strlit("");
        assert(line@ =~= hex_fixed(system_id as nat, 8));
        lemma_hex_within(system_id as nat, 8);
        lemma_ascii_bytes(line@, 8);
    }
    line.finish().unwrap()
}

/// What erased flash memory holds.
pub open spec fn erased(count: nat) -> Seq<u8> {
    Seq::new(count, |i: int| 0xFFu8)
}

/// The bytes of a record that its checksum covers: the letters `GLFC`, the version, the length of
/// the name, the format, the generation, and the name with erased bytes behind it.
pub open spec fn config_front(name: Seq<u8>, generation: nat) -> Seq<u8> {
    seq![0x47u8, 0x4C, 0x46, 0x43] + le_bytes(CONFIG_VERSION as nat, 2) + seq![
        name.len() as u8,
        CONFIG_RECORD_FORMAT,
    ] + le_bytes(generation, 4) + name + erased((MAX_NAME_BYTES - name.len()) as nat)
}

/// A record.
pub open spec fn config_record(name: Seq<u8>, generation: nat) -> Seq<u8> {
    config_front(name, generation) + le_bytes(crc32(config_front(name, generation)) as nat, 4)
        + erased(208)
}

/// What a record holds, the generation and the name; `None` where it is none.
pub open spec fn config_of(record: Seq<u8>) -> Option<(u32, Seq<char>)> {
    let len = record[6] as int;
    let bytes = record.subrange(NAME_OFFSET as int, NAME_OFFSET + len);
    let name = vstd::utf8::decode_utf8(bytes);
    if record.take(4) == seq![0x47u8, 0x4C, 0x46, 0x43] && le_value(record.subrange(4, 6))
        == CONFIG_VERSION && record[7] == CONFIG_RECORD_FORMAT && le_value(record.subrange(44, 48))
        == crc32(record.take(44)) && 1 <= len <= MAX_NAME_BYTES && valid_utf8(bytes) && name_fault(
        name,
    ) is None {
        Some((le_value(record.subrange(8, 12)) as u32, name))
    } else {
        None
    }
}

/// The record of a name.
pub fn encode_config_record(name: &Text<MAX_NAME_BYTES>, generation: u32) -> (record: [u8;
    CONFIG_RECORD_SIZE])
    ensures
        record@ == config_record(encode_utf8(name@), generation as nat),
{
    let bytes = name.as_str().as_bytes();
    let ghost text = bytes@;
    let mut record: [u8; CONFIG_RECORD_SIZE] = [0xFFu8;CONFIG_RECORD_SIZE];
    record[0] = 0x47;
    record[1] = 0x4C;
    record[2] = 0x46;
    record[3] = 0x43;
    put_u16_le(&mut record, 4, CONFIG_VERSION);
    record[6] = bytes.len() as u8;
    record[7] = CONFIG_RECORD_FORMAT;
    put_u32_le(&mut record, 8, generation);
    proof {
        lemma_le_bytes_len(CONFIG_VERSION as nat, 2);
        lemma_le_bytes_len(generation as nat, 4);
    }
    let ghost head = record@;
    let mut i: usize = 0;
    while i < bytes.len()
        invariant
            i <= bytes@.len() <= MAX_NAME_BYTES,
            forall|j: int| 0 <= j < i ==> record@[12 + j] == bytes@[j],
            forall|j: int| 0 <= j < 12 ==> record@[j] == head[j],
            forall|j: int| 12 + i <= j < 256 ==> record@[j] == 0xFF,
        decreases bytes@.len() - i,
    {
        record[12 + i] = bytes[i];
        i = i + 1;
    }
    let ghost front = config_front(text, generation as nat);
    proof {
        let version = le_bytes(CONFIG_VERSION as nat, 2);
        let counter = le_bytes(generation as nat, 4);
        assert(front.len() == 44);
        assert forall|j: int| 0 <= j < 44 implies record@[j] == front[j] by {
            if j < 12 {
                assert(head[j] == front[j]);
            }
        }
        assert(record@.subrange(0, 44) =~= front);
    }
    let crc: u32 = crc32_ieee(slice_subrange(record.as_slice(), 0, 44));
    put_u32_le(&mut record, 44, crc);
    proof {
        lemma_le_bytes_len(crc as nat, 4);
        assert(record@ =~= config_record(text, generation as nat));
    }
    record
}

/// Reads a record.
pub fn decode_config_record(record: &[u8; CONFIG_RECORD_SIZE]) -> (config: Option<
    (u32, Text<MAX_NAME_BYTES>),
>)
    ensures
        config is Some <==> config_of(record@) is Some,
        config matches Some((generation, name)) ==> config_of(record@) == Some(
            (generation, name@),
        ),
{
    let bytes = record.as_slice();
    if bytes[0] != 0x47 || bytes[1] != 0x4C || bytes[2] != 0x46 || bytes[3] != 0x43 {
        proof {
            let magic = seq![0x47u8, 0x4C, 0x46, 0x43];
            assert(record@.take(4)[0] == record@[0]);
            assert(record@.take(4)[1] == record@[1]);
            assert(record@.take(4)[2] == record@[2]);
            assert(record@.take(4)[3] == record@[3]);
            assert(magic[0] == 0x47 && magic[1] == 0x4C && magic[2] == 0x46 && magic[3] == 0x43);
        }
        return None;
    }
    assert(record@.take(4) =~= seq![0x47u8, 0x4C, 0x46, 0x43]);
    let schema: u16 = read_u16_le(slice_subrange(bytes, 4, 6));
    assert(record@.subrange(4, 6).take(2) =~= record@.subrange(4, 6));
    if schema != CONFIG_VERSION || bytes[7] != CONFIG_RECORD_FORMAT {
        return None;
    }
    let stored_crc: u32 = read_u32_le(slice_subrange(bytes, 44, 48));
    assert(record@.subrange(44, 48).take(4) =~= record@.subrange(44, 48));
    let computed_crc: u32 = crc32_ieee(slice_subrange(bytes, 0, 44));
    assert(record@.subrange(0, 44) =~= record@.take(44));
    if stored_crc != computed_crc {
        return None;
    }
    let name_len: usize = bytes[6] as usize;
    if name_len == 0 || name_len > MAX_NAME_BYTES {
        return None;
    }
    let name_bytes = slice_subrange(bytes, NAME_OFFSET, NAME_OFFSET + name_len);
    let text = match text_of_utf8(name_bytes) {
        Some(text) => text,
        None => return None,
    };
    proof {
        vstd::utf8::encode_utf8_decode_utf8(text@);
    }
    let name = match make_name(text) {
        Ok(name) => name,
        Err(_) => return None,
    };
    let generation: u32 = read_u32_le(slice_subrange(bytes, 8, 12));
    assert(record@.subrange(8, 12).take(4) =~= record@.subrange(8, 12));
    Some((generation, name))
}

/// A record gives back the name and the generation that were written to it.
pub proof fn law_record_gives_back_its_name(name: Seq<char>, generation: u32)
    requires
        name_fault(name) is None,
    ensures
        config_of(config_record(encode_utf8(name), generation as nat)) == Some((generation, name)),
{
    let bytes = encode_utf8(name);
    let record = config_record(bytes, generation as nat);
    let front = config_front(bytes, generation as nat);
    let version = le_bytes(CONFIG_VERSION as nat, 2);
    let counter = le_bytes(generation as nat, 4);
    let sum = le_bytes(crc32(front) as nat, 4);
    lemma_le_bytes_len(CONFIG_VERSION as nat, 2);
    lemma_le_bytes_len(generation as nat, 4);
    lemma_le_bytes_len(crc32(front) as nat, 4);
    reveal_with_fuel(le_limit, 5);
    law_le_value_of_bytes(CONFIG_VERSION as nat, 2);
    law_le_value_of_bytes(generation as nat, 4);
    law_le_value_of_bytes(crc32(front) as nat, 4);
    vstd::utf8::encode_utf8_valid_utf8(name);
    vstd::utf8::encode_utf8_decode_utf8(name);
    assert(name.len() > 0);
    assert(bytes.len() > 0) by {
        vstd::utf8::encode_utf8_first_scalar(name);
        if bytes.len() == 0 {
            assert(bytes =~= encode_utf8(Seq::<char>::empty()));
            vstd::utf8::encode_utf8_decode_utf8(Seq::<char>::empty());
        }
    }
    assert(front.len() == 44);
    assert(record.take(4) =~= seq![0x47u8, 0x4C, 0x46, 0x43]);
    assert(record.subrange(4, 6) =~= version);
    assert(record[6] == bytes.len());
    assert(record[7] == CONFIG_RECORD_FORMAT);
    assert(record.subrange(8, 12) =~= counter);
    assert(record.subrange(12, 12 + bytes.len() as int) =~= bytes);
    assert(record.take(44) =~= front);
    assert(record.subrange(44, 48) =~= sum);
}

/// What is stored in one of the slots.
pub struct StoredConfig {
    pub slot: ConfigSlot,
    pub generation: u32,
    pub name: Text<MAX_NAME_BYTES>,
}

/// The newer of what two slots hold; that of the first where neither is newer.
pub open spec fn newest_of(a: Option<(u32, Seq<char>)>, b: Option<(u32, Seq<char>)>) -> Option<
    (ConfigSlot, u32, Seq<char>),
> {
    match (a, b) {
        (Some((generation_a, name_a)), Some((generation_b, name_b))) => if generation_b
            > generation_a {
            Some((ConfigSlot::B, generation_b, name_b))
        } else {
            Some((ConfigSlot::A, generation_a, name_a))
        },
        (Some((generation, name)), None) => Some((ConfigSlot::A, generation, name)),
        (None, Some((generation, name))) => Some((ConfigSlot::B, generation, name)),
        (None, None) => None,
    }
}

/// What a slot holds, none where it could not be read.
pub open spec fn slot_config(record: Option<[u8; CONFIG_RECORD_SIZE]>) -> Option<
    (u32, Seq<char>),
> {
    match record {
        Some(bytes) => config_of(bytes@),
        None => None,
    }
}

fn read_slot(slot: ConfigSlot, record: &Option<[u8; CONFIG_RECORD_SIZE]>) -> (stored: Option<
    StoredConfig,
>)
    ensures
        stored is Some <==> slot_config(*record) is Some,
        stored matches Some(config) ==> config.slot == slot && slot_config(*record) == Some(
            (config.generation, config.name@),
        ),
{
    match record {
        Some(bytes) => match decode_config_record(bytes) {
            Some((generation, name)) => Some(StoredConfig { slot, generation, name }),
            None => None,
        },
        None => None,
    }
}

/// The newer of what two slots hold.
pub fn newest_slot(a: Option<StoredConfig>, b: Option<StoredConfig>) -> (newest: Option<
    StoredConfig,
>)
    ensures
        newest == (match (a, b) {
            (Some(first), Some(second)) => if second.generation > first.generation {
                b
            } else {
                a
            },
            (Some(_), None) => a,
            (None, _) => b,
        }),
{
    match (a, b) {
        (Some(first), Some(second)) => if second.generation > first.generation {
            Some(second)
        } else {
            Some(first)
        },
        (Some(first), None) => Some(first),
        (None, Some(second)) => Some(second),
        (None, None) => None,
    }
}

/// The slot that the next record goes to.
pub open spec fn target_slot(active: Option<ConfigSlot>) -> ConfigSlot {
    match active {
        Some(slot) => slot.spec_other(),
        None => ConfigSlot::A,
    }
}

/// What a device knows at its start of the newer record: its slot, its generation and the name.
/// Without a record it has its default name, and no generation yet.
pub open spec fn started(
    newest: Option<(ConfigSlot, u32, Seq<char>)>,
    default: Seq<char>,
) -> (Option<ConfigSlot>, u32, Seq<char>) {
    match newest {
        Some((slot, generation, name)) => (Some(slot), generation, name),
        None => (None, 0, default),
    }
}

/// What it takes to give a device another name: nothing where it has that name, else a record of
/// the next generation in the slot that is not in use. It is refused where the text is no name, or
/// where there is no next generation.
pub open spec fn rename(
    active: Option<ConfigSlot>,
    generation: u32,
    current: Seq<char>,
    name: Seq<char>,
) -> Result<Option<(ConfigSlot, u32)>, SystemError> {
    match name_fault(name) {
        Some(fault) => Err(fault),
        None => if name == current {
            Ok(None)
        } else if generation == u32::MAX {
            Err(SystemError::GenerationsUsedUp)
        } else {
            Ok(Some((target_slot(active), (generation + 1) as u32)))
        },
    }
}

/// A record that is to be written: the slot is erased, the record written to its start and read
/// back.
pub struct PersistPlan {
    pub slot: ConfigSlot,
    pub generation: u32,
    pub name: Text<MAX_NAME_BYTES>,
    pub record: [u8; CONFIG_RECORD_SIZE],
}

/// How writing a record went.
pub enum FlashOutcome {
    EraseFailed,
    WriteFailed,
    ReadFailed,
    /// What was read back.
    ReadBack([u8; CONFIG_RECORD_SIZE]),
}

/// What writing a record comes to.
pub open spec fn persist_result(
    generation: u32,
    name: Seq<char>,
    outcome: FlashOutcome,
) -> Result<(), SystemError> {
    match outcome {
        FlashOutcome::EraseFailed => Err(SystemError::FlashErase),
        FlashOutcome::WriteFailed => Err(SystemError::FlashWrite),
        FlashOutcome::ReadFailed => Err(SystemError::FlashVerify),
        FlashOutcome::ReadBack(bytes) => if config_of(bytes@) == Some((generation, name)) {
            Ok(())
        } else {
            Err(SystemError::FlashVerify)
        },
    }
}

/// What a device knows when a record has been written: its slot, its generation and the name.
pub open spec fn persisted(slot: ConfigSlot, generation: u32, name: Seq<char>) -> (
    Option<ConfigSlot>,
    u32,
    Seq<char>,
) {
    (Some(slot), generation, name)
}

/// The device: who it is, its name, and where that is stored.
pub struct System {
    info: SystemInfo,
    config: SystemConfig,
    active_slot: Option<ConfigSlot>,
    generation: u32,
}

impl System {
    /// A device without a record has no generation yet.
    #[verifier::type_invariant]
    spec fn counts_records(self) -> bool {
        self.active_slot is None ==> self.generation == 0
    }

    pub closed spec fn spec_info(&self) -> SystemInfo {
        self.info
    }

    pub closed spec fn name(&self) -> Seq<char> {
        self.config.name.value@
    }

    /// Whether users may change the name.
    pub closed spec fn name_access(&self) -> FieldAccess {
        self.config.name.access
    }

    /// The slot that holds the name, where one does.
    pub closed spec fn slot(&self) -> Option<ConfigSlot> {
        self.active_slot
    }

    pub closed spec fn spec_generation(&self) -> u32 {
        self.generation
    }

    /// The device at its start, with what its slots hold. Without a record it has its default
    /// name.
    pub fn load(
        info: SystemInfo,
        record_a: Option<[u8; CONFIG_RECORD_SIZE]>,
        record_b: Option<[u8; CONFIG_RECORD_SIZE]>,
    ) -> (system: Self)
        ensures
            system.spec_info() == info,
            system.name_access() == FieldAccess::ReadWrite,
            (system.slot(), system.spec_generation(), system.name()) == started(
                newest_of(slot_config(record_a), slot_config(record_b)),
                hex_fixed(info.system_id.value as nat, 8),
            ),
    {
        let a = read_slot(ConfigSlot::A, &record_a);
        let b = read_slot(ConfigSlot::B, &record_b);
        match newest_slot(a, b) {
            Some(stored) => System {
                info,
                config: SystemConfig { name: SystemField::read_write(stored.name) },
                active_slot: Some(stored.slot),
                generation: stored.generation,
            },
            None => System {
                info,
                config: SystemConfig {
                    name: SystemField::read_write(default_name(info.system_id.value)),
                },
                active_slot: None,
                generation: 0,
            },
        }
    }

    pub fn info(&self) -> (info: SystemInfo)
        ensures
            info == self.spec_info(),
    {
        self.info
    }

    pub fn config(&self) -> (config: &SystemConfig)
        ensures
            config.name.value@ == self.name(),
            config.name.access == self.name_access(),
    {
        &self.config
    }

    fn plan(&self, name: Text<MAX_NAME_BYTES>) -> (plan: PersistPlan)
        requires
            self.spec_generation() < u32::MAX,
        ensures
            plan.slot == target_slot(self.slot()),
            plan.generation == self.spec_generation() + 1,
            plan.name@ == name@,
            plan.record@ == config_record(encode_utf8(name@), plan.generation as nat),
    {
        let slot = match self.active_slot {
            Some(active) => active.other(),
            None => ConfigSlot::A,
        };
        let generation: u32 = self.generation + 1;
        let record = encode_config_record(&name, generation);
        PersistPlan { slot, generation, name, record }
    }

    /// The record that a device which nobody has named writes at its start.
    pub fn initial_plan(&self) -> (plan: Option<PersistPlan>)
        ensures
            plan is Some <==> self.slot() is None,
            plan matches Some(write) ==> {
                &&& write.slot == ConfigSlot::A
                &&& write.generation == 1
                &&& write.name@ == self.name()
                &&& write.record@ == config_record(encode_utf8(self.name()), 1)
            },
    {
        proof {
            use_type_invariant(self);
        }
        match self.active_slot {
            Some(_) => None,
            None => Some(self.plan(self.config.name.value.copy())),
        }
    }

    /// What it takes to give the device another name: nothing where it has that name, else the
    /// record to be written. The device has the name only when that has been done. Behind the last
    /// generation no record would be found at the next start, and the name is refused.
    pub fn set_name(&self, name: &str) -> (result: Result<Option<PersistPlan>, SystemError>)
        ensures
            match rename(self.slot(), self.spec_generation(), self.name(), name@) {
                Err(fault) => result == Err::<Option<PersistPlan>, SystemError>(fault),
                Ok(None) => result is Ok && result->Ok_0 is None,
                Ok(Some((slot, generation))) => {
                    &&& result is Ok
                    &&& result->Ok_0 is Some
                    &&& result->Ok_0 matches Some(plan) ==> {
                        &&& plan.slot == slot
                        &&& plan.generation == generation
                        &&& plan.name@ == name@
                        &&& plan.record@ == config_record(encode_utf8(name@), generation as nat)
                    }
                },
            },
    {
        let new_name = match make_name(name) {
            Ok(new_name) => new_name,
            Err(fault) => return Err(fault),
        };
        if same_text(self.config.name.value.as_str(), new_name.as_str()) {
            return Ok(None);
        }
        if self.generation == u32::MAX {
            return Err(SystemError::GenerationsUsedUp);
        }
        Ok(Some(self.plan(new_name)))
    }

    /// Takes how writing a record went. The name changes only when the record was read back as it
    /// should be.
    pub fn persist_config(&mut self, plan: PersistPlan, outcome: FlashOutcome) -> (result: Result<
        (),
        SystemError,
    >)
        ensures
            final(self).spec_info() == old(self).spec_info(),
            result == persist_result(plan.generation, plan.name@, outcome),
            result is Ok ==> {
                &&& final(self).name_access() == FieldAccess::ReadWrite
                &&& (final(self).slot(), final(self).spec_generation(), final(self).name())
                    == persisted(plan.slot, plan.generation, plan.name@)
            },
            result is Err ==> *final(self) == *old(self),
    {
        let record = match outcome {
            FlashOutcome::EraseFailed => return Err(SystemError::FlashErase),
            FlashOutcome::WriteFailed => return Err(SystemError::FlashWrite),
            FlashOutcome::ReadFailed => return Err(SystemError::FlashVerify),
            FlashOutcome::ReadBack(record) => record,
        };
        match decode_config_record(&record) {
            Some((generation, name)) => {
                if generation != plan.generation || !same_text(name.as_str(), plan.name.as_str()) {
                    return Err(SystemError::FlashVerify);
                }
            },
            None => return Err(SystemError::FlashVerify),
        }
        self.active_slot = Some(plan.slot);
        self.generation = plan.generation;
        self.config = SystemConfig { name: SystemField::read_write(plan.name) };
        Ok(())
    }
}

/// What two slots hold after a record was written to one of them.
pub open spec fn newest_after(
    slot: ConfigSlot,
    record: Seq<u8>,
    a: Option<(u32, Seq<char>)>,
    b: Option<(u32, Seq<char>)>,
) -> Option<(ConfigSlot, u32, Seq<char>)> {
    match slot {
        ConfigSlot::A => newest_of(config_of(record), b),
        ConfigSlot::B => newest_of(a, config_of(record)),
    }
}

/// A record never goes to the slot that holds the name.
pub proof fn law_name_in_use_is_not_overwritten(active: ConfigSlot)
    ensures
        target_slot(Some(active)) != active,
{
}

/// A name that is given to a device is there at its next start: with the record of it in place,
/// the newer of the two slots is the one that was written.
pub proof fn law_new_name_survives_a_restart(
    a: Option<(u32, Seq<char>)>,
    b: Option<(u32, Seq<char>)>,
    default: Seq<char>,
    name: Seq<char>,
)
    ensures
        ({
            let (active, generation, current) = started(newest_of(a, b), default);
            rename(active, generation, current, name) matches Ok(Some((slot, next))) ==> {
                let record = config_record(encode_utf8(name), next as nat);
                started(newest_after(slot, record, a, b), default) == (Some(slot), next, name)
            }
        }),
{
    let (active, generation, current) = started(newest_of(a, b), default);
    if let Ok(Some((_, next))) = rename(active, generation, current, name) {
        law_record_gives_back_its_name(name, next);
    }
}

/// A rename that is reported as done is there at the next start, whatever the device had stored:
/// it had the name already, or what was read back of the new record is found.
pub proof fn law_confirmed_name_survives_a_restart(
    a: Option<(u32, Seq<char>)>,
    b: Option<(u32, Seq<char>)>,
    default: Seq<char>,
    name: Seq<char>,
    read_back: [u8; CONFIG_RECORD_SIZE],
)
    ensures
        ({
            let (active, generation, current) = started(newest_of(a, b), default);
            match rename(active, generation, current, name) {
                Err(_) => true,
                Ok(None) => started(newest_of(a, b), default).2 == name,
                Ok(Some((slot, next))) => persist_result(
                    next,
                    name,
                    FlashOutcome::ReadBack(read_back),
                ) is Ok ==> started(newest_after(slot, read_back@, a, b), default) == (
                    Some(slot),
                    next,
                    name,
                ),
            }
        }),
{
}

/// The default name that a device writes at its first start is there at the next.
pub proof fn law_default_name_is_kept(system_id: u64)
    ensures
        ({
            let name = hex_fixed(system_id as nat, 8);
            let record = config_record(encode_utf8(name), 1);
            newest_after(ConfigSlot::A, record, None, None) == Some((ConfigSlot::A, 1u32, name))
        }),
{
    law_default_name_is_a_name(system_id);
    law_record_gives_back_its_name(hex_fixed(system_id as nat, 8), 1);
}

/// A write that is cut off leaves the name: as long as the slot that was written holds no record,
/// the next start finds the one before.
pub proof fn law_cut_off_write_keeps_the_name(
    a: Option<(u32, Seq<char>)>,
    b: Option<(u32, Seq<char>)>,
    rubbish: Seq<u8>,
)
    requires
        newest_of(a, b) is Some,
        config_of(rubbish) is None,
    ensures
        newest_after(target_slot(Some((newest_of(a, b)->0).0)), rubbish, a, b) == newest_of(a, b),
{
}

/// The name that a device has by default is one that it could be given.
pub proof fn law_default_name_is_a_name(system_id: u64)
    ensures
        name_fault(hex_fixed(system_id as nat, 8)) is None,
{
    let name = hex_fixed(system_id as nat, 8);
    lemma_hex_within(system_id as nat, 8);
    lemma_ascii_bytes(name, 8);
    lemma_hex_chars(system_id as nat, 8);
    assert(!char_is_whitespace(name[0]));
}

proof fn lemma_hex_chars(value: nat, width: nat)
    ensures
        forall|i: int|
            0 <= i < hex_fixed(value, width).len() ==> !char_is_whitespace(
                #[trigger] hex_fixed(value, width)[i],
            ) && !char_is_control(hex_fixed(value, width)[i]),
    decreases width,
{
    if width > 0 {
        let front = hex_fixed(value / 16, (width - 1) as nat);
        let last = hex_char((value % 16) as int);
        lemma_hex_chars(value / 16, (width - 1) as nat);
        assert(!char_is_whitespace(last) && !char_is_control(last));
        assert forall|i: int| 0 <= i < hex_fixed(value, width).len() implies !char_is_whitespace(
            #[trigger] hex_fixed(value, width)[i],
        ) && !char_is_control(hex_fixed(value, width)[i]) by {
            if i < front.len() {
                assert(hex_fixed(value, width)[i] == front[i]);
            } else {
                assert(hex_fixed(value, width)[i] == last);
            }
        }
    }
}

/// The tags and the letters tell what they stand for.
pub proof fn law_tags_and_letters(access: FieldAccess, slot: ConfigSlot)
    ensures
        access is ReadOnly <==> access_tag(access) == "RO"@,
        access is ReadWrite <==> access_tag(access) == "RW"@,
        slot is A <==> slot_label(slot) == "A"@,
        slot is B <==> slot_label(slot) == "B"@,
{
    reveal_strlit("RO");
    reveal_strlit("RW");
    reveal_strlit("A");
    reveal_strlit("B");
    assert("RO"@[1] == 'O' && "RW"@[1] == 'W');
    assert("A"@[0] == 'A' && "B"@[0] == 'B');
}

/// The slots lie next to each other where the last 64 KiB of 4 MiB of flash memory begin, each on a
/// page of 4096 bytes of its own: to erase one leaves the other.
pub proof fn law_slots_lie_apart(slot: ConfigSlot)
    ensures
        slot_offset(ConfigSlot::A) == 4_194_304 - 65_536,
        slot_offset(ConfigSlot::B) == slot_offset(ConfigSlot::A) + 4_096,
        slot_offset(slot) % 4_096 == 0,
        slot_offset(slot) + 4_096 <= 4_194_304,
        slot.spec_other() != slot,
        slot.spec_other().spec_other() == slot,
{
}

/// Which texts are names: those with a character that is no space, of at most 32 bytes, without a
/// control character. What is wrong with another text is the first of these that fails.
pub proof fn law_which_texts_are_names(name: Seq<char>)
    ensures
        ({
            let blank = forall|i: int|
                0 <= i < name.len() ==> char_is_whitespace(#[trigger] name[i]);
            let long = byte_len(name) > 32;
            let control = exists|i: int|
                0 <= i < name.len() && char_is_control(#[trigger] name[i]);
            &&& name_fault(name) is None <==> !blank && !long && !control
            &&& name_fault(name) == Some(SystemError::NameEmpty) <==> blank
            &&& name_fault(name) == Some(SystemError::NameTooLong) <==> !blank && long
            &&& name_fault(name) == Some(SystemError::NameContainsControl) <==> !blank && !long
                && control
        }),
{
}

/// Where each part of a record stands: the letters `GLFC`, version 1 in two bytes from the lowest
/// up, the length of the name, format 1, the generation in four bytes from the lowest up, the name,
/// and behind byte 43 the checksum of the 44 bytes before it. All else is as erased.
pub proof fn law_layout_of_a_record(name: Seq<u8>, generation: u32)
    requires
        name.len() <= 32,
    ensures
        ({
            let r = config_record(name, generation as nat);
            &&& r.len() == 256
            &&& r[0] == 0x47 && r[1] == 0x4C && r[2] == 0x46 && r[3] == 0x43
            &&& r[4] == 1 && r[5] == 0
            &&& r[6] == name.len()
            &&& r[7] == 1
            &&& generation == r[8] + 0x100 * r[9] + 0x1_0000 * r[10] + 0x100_0000 * r[11]
            &&& forall|i: int| 0 <= i < name.len() ==> #[trigger] r[12 + i] == name[i]
            &&& forall|i: int| 12 + name.len() <= i < 44 ==> #[trigger] r[i] == 0xFF
            &&& crc32(r.take(44)) == r[44] + 0x100 * r[45] + 0x1_0000 * r[46] + 0x100_0000 * r[47]
            &&& forall|i: int| 48 <= i < 256 ==> #[trigger] r[i] == 0xFF
        }),
{
    let r = config_record(name, generation as nat);
    let front = config_front(name, generation as nat);
    let version = le_bytes(CONFIG_VERSION as nat, 2);
    let counter = le_bytes(generation as nat, 4);
    let sum = le_bytes(crc32(front) as nat, 4);
    lemma_le_bytes_len(CONFIG_VERSION as nat, 2);
    lemma_le_bytes_len(generation as nat, 4);
    lemma_le_bytes_len(crc32(front) as nat, 4);
    reveal_with_fuel(le_limit, 5);
    law_le_value_of_bytes(CONFIG_VERSION as nat, 2);
    law_le_value_of_bytes(generation as nat, 4);
    law_le_value_of_bytes(crc32(front) as nat, 4);
    assert(front.len() == 44);
    assert(r.take(44) =~= front);
    lemma_word(version);
    lemma_word(counter);
    lemma_word(sum);
    assert(r[4] == version[0] && r[5] == version[1]);
    assert(r[8] == counter[0] && r[9] == counter[1] && r[10] == counter[2] && r[11] == counter[3]);
    assert(r[44] == sum[0] && r[45] == sum[1] && r[46] == sum[2] && r[47] == sum[3]);
    assert forall|i: int| 0 <= i < name.len() implies #[trigger] r[12 + i] == name[i] by {
        assert(front[12 + i] == name[i]);
    }
}

/// Two or four bytes, from the lowest up.
proof fn lemma_word(s: Seq<u8>)
    ensures
        s.len() == 2 ==> le_value(s) == s[0] + 0x100 * s[1],
        s.len() == 4 ==> le_value(s) == s[0] + 0x100 * s[1] + 0x1_0000 * s[2] + 0x100_0000 * s[3],
{
    reveal_with_fuel(le_value, 5);
    if s.len() == 2 {
        assert(s.drop_first().drop_first() =~= Seq::<u8>::empty());
    }
    if s.len() == 4 {
        assert(s.drop_first().drop_first().drop_first().drop_first() =~= Seq::<u8>::empty());
    }
}

/// Which records hold a name: those that begin with the letters `GLFC`, have version 1 and format
/// 1, carry the checksum of their first 44 bytes, and have a length from 1 to 32 and so many bytes
/// that spell a name. They give that name and the number in bytes 8 to 11.
pub proof fn law_which_records_are_read(r: Seq<u8>)
    requires
        r.len() == 256,
    ensures
        ({
            let bytes = r.subrange(12, 12 + r[6]);
            let name = vstd::utf8::decode_utf8(bytes);
            &&& config_of(r) is Some <==> {
                &&& r[0] == 0x47 && r[1] == 0x4C && r[2] == 0x46 && r[3] == 0x43
                &&& r[4] == 1 && r[5] == 0
                &&& r[7] == 1
                &&& crc32(r.take(44)) == r[44] + 0x100 * r[45] + 0x1_0000 * r[46] + 0x100_0000
                    * r[47]
                &&& 1 <= r[6] <= 32
                &&& valid_utf8(bytes)
                &&& name_fault(name) is None
            }
            &&& config_of(r) is Some
                ==> (config_of(r)->0).0 == r[8] + 0x100 * r[9] + 0x1_0000 * r[10]
                + 0x100_0000 * r[11]
            &&& config_of(r) is Some ==> (config_of(r)->0).1 == name
        }),
{
    let magic = seq![0x47u8, 0x4C, 0x46, 0x43];
    let front = r.take(4);
    assert(front[0] == r[0] && front[1] == r[1] && front[2] == r[2] && front[3] == r[3]);
    assert(magic[0] == 0x47 && magic[1] == 0x4C && magic[2] == 0x46 && magic[3] == 0x43);
    if r[0] == 0x47 && r[1] == 0x4C && r[2] == 0x46 && r[3] == 0x43 {
        assert(front =~= magic);
    }
    lemma_word(r.subrange(4, 6));
    lemma_word(r.subrange(8, 12));
    lemma_word(r.subrange(44, 48));
}

/// The newer of two records is the one with the higher generation, and the first of two that are as
/// new. Where only one slot holds a record it is that one, and its slot is told.
pub proof fn law_newest_is_the_newest(a: Option<(u32, Seq<char>)>, b: Option<(u32, Seq<char>)>)
    ensures
        newest_of(a, b) is None <==> a is None && b is None,
        newest_of(a, b) matches Some((slot, generation, name)) ==> {
            &&& a is Some ==> generation >= (a->0).0
            &&& b is Some ==> generation >= (b->0).0
            &&& slot is A ==> a == Some((generation, name))
            &&& slot is B ==> b == Some((generation, name))
            &&& slot is B && a is Some ==> generation > (a->0).0
        },
{
}

/// Where a new record goes: to the slot that holds none of the name in use, the first one where
/// none is in use. Its generation is one higher. Nothing is written for the name that the device
/// has, for a text that is none, and behind the last generation.
pub proof fn law_what_a_rename_takes(
    active: Option<ConfigSlot>,
    generation: u32,
    current: Seq<char>,
    name: Seq<char>,
)
    ensures
        ({
            let result = rename(active, generation, current, name);
            &&& name_fault(name) is Some ==> result is Err && Some(result->Err_0) == name_fault(
                name,
            )
            &&& name_fault(name) is None && name == current ==> result is Ok && result->Ok_0 is None
            &&& name_fault(name) is None && name != current && generation < 4_294_967_295 ==> {
                &&& result is Ok
                &&& result->Ok_0 is Some
                &&& (result->Ok_0->0).1 == generation + 1
                &&& Some((result->Ok_0->0).0) != active
                &&& active is None ==> (result->Ok_0->0).0 is A
            }
            &&& name_fault(name) is None && name != current && generation == 4_294_967_295
                ==> result is Err && result->Err_0 is GenerationsUsedUp
        }),
{
}

/// A record counts as written only where it was read back with its generation and its name. Each
/// fault of flash memory is told as what it is.
pub proof fn law_what_writing_comes_to(generation: u32, name: Seq<char>, outcome: FlashOutcome)
    ensures
        ({
            let result = persist_result(generation, name, outcome);
            &&& result is Ok <==> (outcome matches FlashOutcome::ReadBack(bytes) && config_of(
                bytes@,
            ) == Some((generation, name)))
            &&& result is Err && result->Err_0 is FlashErase <==> outcome is EraseFailed
            &&& result is Err && result->Err_0 is FlashWrite <==> outcome is WriteFailed
            &&& outcome is ReadFailed ==> result is Err && result->Err_0 is FlashVerify
            &&& outcome is ReadBack && result is Err ==> result->Err_0 is FlashVerify
        }),
{
}

/// A device without a record has its default name and no generation: the low half of its number in
/// eight hexadecimal digits. One with a record has that name.
pub proof fn law_name_at_the_start(
    newest: Option<(ConfigSlot, u32, Seq<char>)>,
    system_id: u64,
)
    ensures
        ({
            let default = hex_fixed(system_id as nat, 8);
            let (slot, generation, name) = started(newest, default);
            &&& newest is None ==> slot is None && generation == 0 && name == default
            &&& newest is Some
                ==> slot == Some((newest->0).0) && generation == (newest->0).1 && name
                == (newest->0).2
            &&& default.len() == 8
            &&& read_hex(default) == Some(system_id as int % 0x1_0000_0000)
        }),
{
    assert(pow16(8) == 0x1_0000_0000) by {
        reveal_with_fuel(pow16, 9);
    }
    law_low_hex_digits(system_id as nat, 8);
}

/// What a device is cannot be changed by its user: its number and its firmware are those that it
/// was made with, and protocol and configuration have version 1.
pub proof fn law_what_a_device_is(system_id: u64, firmware_version: &'static str)
    ensures
        ({
            let info = info_of(system_id, firmware_version);
            &&& info.system_id.value == system_id && info.system_id.access is ReadOnly
            &&& info.firmware_version.value@ == firmware_version@
                && info.firmware_version.access is ReadOnly
            &&& info.protocol_version.value == 1 && info.protocol_version.access is ReadOnly
            &&& info.config_version.value == 1 && info.config_version.access is ReadOnly
        }),
{
}

/// What a device knows when a record has been written is what it would find at its next start: it
/// never goes on with another name, slot or generation than those on its flash memory.
pub proof fn law_device_agrees_with_its_flash_memory(
    a: Option<(u32, Seq<char>)>,
    b: Option<(u32, Seq<char>)>,
    default: Seq<char>,
    name: Seq<char>,
)
    ensures
        ({
            let (active, generation, current) = started(newest_of(a, b), default);
            rename(active, generation, current, name) matches Ok(Some((slot, next))) ==> {
                let record = config_record(encode_utf8(name), next as nat);
                persisted(slot, next, name) == started(newest_after(slot, record, a, b), default)
            }
        }),
{
    law_new_name_survives_a_restart(a, b, default, name);
}

} // verus!
