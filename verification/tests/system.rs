use golfer::system::{
    decode_config_record, default_name, encode_config_record, make_name, ConfigSlot, FieldAccess,
    FlashOutcome, PersistPlan, System, SystemError, SystemField, SystemInfo,
};

fn info() -> SystemInfo {
    SystemInfo::new(0x1122_3344_5566_77AB, "0.1.0")
}

/// Two slots of flash memory.
struct Flash {
    a: Option<[u8; 256]>,
    b: Option<[u8; 256]>,
}

impl Flash {
    fn write(&mut self, plan: &PersistPlan) -> FlashOutcome {
        match plan.slot {
            ConfigSlot::A => self.a = Some(plan.record),
            ConfigSlot::B => self.b = Some(plan.record),
        }
        FlashOutcome::ReadBack(plan.record)
    }

    fn start(&self) -> System {
        System::load(info(), self.a, self.b)
    }
}

#[test]
fn fields() {
    assert_eq!(FieldAccess::ReadOnly.tag(), "RO");
    assert_eq!(FieldAccess::ReadWrite.tag(), "RW");
    assert_eq!(SystemField::read_only(7).access, FieldAccess::ReadOnly);
    assert_eq!(SystemField::read_write(7).access, FieldAccess::ReadWrite);
    assert_eq!(info().system_id.value, 0x1122_3344_5566_77AB);
    assert_eq!(info().protocol_version.value, 1);
    assert_eq!(info().firmware_version.value, "0.1.0");
}

#[test]
fn slots() {
    assert_eq!(ConfigSlot::A.offset(), 4_128_768);
    assert_eq!(ConfigSlot::B.offset(), 4_132_864);
    assert_eq!(ConfigSlot::A.other(), ConfigSlot::B);
    assert_eq!(ConfigSlot::B.other(), ConfigSlot::A);
    assert_eq!(ConfigSlot::A.label(), "A");
    assert_eq!(ConfigSlot::B.label(), "B");
}

#[test]
fn names() {
    assert_eq!(make_name("Field 7").unwrap().text(), "Field 7");
    assert_eq!(make_name("J\u{fc}rgen").unwrap().text(), "J\u{fc}rgen");
    assert_eq!(make_name("").err(), Some(SystemError::NameEmpty));
    assert_eq!(make_name(" \t\u{a0}\u{3000}").err(), Some(SystemError::NameEmpty));
    assert_eq!(make_name(&"x".repeat(32)).unwrap().text().len(), 32);
    assert_eq!(make_name(&"x".repeat(33)).err(), Some(SystemError::NameTooLong));
    assert_eq!(make_name(&"\u{fc}".repeat(17)).err(), Some(SystemError::NameTooLong));
    assert_eq!(make_name("a\u{7f}").err(), Some(SystemError::NameContainsControl));
    assert_eq!(make_name("a\nb").err(), Some(SystemError::NameContainsControl));
    assert_eq!(make_name("a\u{9f}").err(), Some(SystemError::NameContainsControl));
    assert_eq!(default_name(0x1122_3344_0566_77AB).text(), "056677AB");
}

#[test]
fn records() {
    let name = make_name("Field 7").unwrap();
    let record = encode_config_record(&name, 0x0102_0304);
    assert_eq!(&record[..12], &[0x47, 0x4C, 0x46, 0x43, 1, 0, 7, 1, 4, 3, 2, 1]);
    assert_eq!(&record[12..19], b"Field 7");
    assert_eq!(&record[19..44], &[0xFF; 25]);
    assert_eq!(&record[48..], &[0xFF; 208]);
    let (generation, read) = decode_config_record(&record).unwrap();
    assert_eq!(generation, 0x0102_0304);
    assert_eq!(read.text(), "Field 7");
    for at in 0..48 {
        let mut broken = record;
        broken[at] ^= 1;
        assert!(decode_config_record(&broken).is_none());
    }
    assert!(decode_config_record(&[0xFF; 256]).is_none());
}

#[test]
fn a_new_device_has_its_default_name() {
    let mut flash = Flash { a: None, b: None };
    let mut system = flash.start();
    assert_eq!(system.config().name.value.text(), "556677AB");
    let plan = system.initial_plan().unwrap();
    assert_eq!(plan.slot, ConfigSlot::A);
    assert_eq!(plan.generation, 1);
    let outcome = flash.write(&plan);
    assert_eq!(system.persist_config(plan, outcome), Ok(()));
    assert!(system.initial_plan().is_none());
    let again = flash.start();
    assert_eq!(again.config().name.value.text(), "556677AB");
    assert!(again.initial_plan().is_none());
}

#[test]
fn a_new_name_is_there_at_the_next_start() {
    let mut flash = Flash { a: None, b: None };
    let mut system = flash.start();
    for (count, name) in ["One", "Two", "Three", "Four"].iter().enumerate() {
        let plan = system.set_name(name).unwrap().unwrap();
        let expected = if count % 2 == 0 { ConfigSlot::A } else { ConfigSlot::B };
        assert_eq!(plan.slot, expected);
        let outcome = flash.write(&plan);
        assert_eq!(system.persist_config(plan, outcome), Ok(()));
        assert_eq!(system.config().name.value.text(), *name);
        assert_eq!(flash.start().config().name.value.text(), *name);
    }
    assert!(system.set_name("Four").unwrap().is_none());
    assert_eq!(system.set_name(" ").err(), Some(SystemError::NameEmpty));
    assert_eq!(system.info().system_id.value, 0x1122_3344_5566_77AB);
}

#[test]
fn a_write_that_fails_keeps_the_name() {
    let mut flash = Flash { a: None, b: None };
    let mut system = flash.start();
    let plan = system.set_name("One").unwrap().unwrap();
    let outcome = flash.write(&plan);
    system.persist_config(plan, outcome).unwrap();
    for (outcome, error) in [
        (FlashOutcome::EraseFailed, SystemError::FlashErase),
        (FlashOutcome::WriteFailed, SystemError::FlashWrite),
        (FlashOutcome::ReadFailed, SystemError::FlashVerify),
        (FlashOutcome::ReadBack([0xFF; 256]), SystemError::FlashVerify),
    ] {
        let plan = system.set_name("Two").unwrap().unwrap();
        assert_eq!(system.persist_config(plan, outcome), Err(error));
        assert_eq!(system.config().name.value.text(), "One");
    }
    flash.b = Some([0xFF; 256]);
    assert_eq!(flash.start().config().name.value.text(), "One");
}

#[test]
fn every_character_as_a_name() {
    for c in '\0'..=char::MAX {
        let name = String::from(c);
        let result = make_name(&name);
        if c.is_whitespace() {
            assert!(matches!(result, Err(SystemError::NameEmpty)));
        } else if c.is_control() {
            assert!(matches!(result, Err(SystemError::NameContainsControl)));
        } else {
            assert_eq!(result.ok().unwrap().text(), name);
        }
    }
}

#[test]
fn behind_the_last_generation_no_name_is_taken() {
    let last = encode_config_record(&make_name("One").unwrap(), u32::MAX);
    let before = encode_config_record(&make_name("Zero").unwrap(), u32::MAX - 1);
    let flash = Flash { a: Some(last), b: Some(before) };
    let system = flash.start();
    assert_eq!(system.config().name.value.text(), "One");
    assert_eq!(system.set_name("Two").err(), Some(SystemError::GenerationsUsedUp));
    assert_eq!(system.set_name("").err(), Some(SystemError::NameEmpty));
    assert!(system.set_name("One").unwrap().is_none());

    let mut flash = Flash { a: None, b: Some(before) };
    let mut system = flash.start();
    let plan = system.set_name("Two").unwrap().unwrap();
    assert_eq!(plan.generation, u32::MAX);
    let outcome = flash.write(&plan);
    assert_eq!(system.persist_config(plan, outcome), Ok(()));
    assert_eq!(flash.start().config().name.value.text(), "Two");
    assert_eq!(system.set_name("Three").err(), Some(SystemError::GenerationsUsedUp));
}
