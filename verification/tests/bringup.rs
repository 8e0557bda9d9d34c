use golfer::bringup::{
    checkpoint_step, shutdown_step, Bringup, Content, Handle, OpenMode, Reply, Request,
};
use golfer::card::{idle_command, CardProbe, ProbeReply, ProbeRequest};
use golfer::session::LogFile;
use golfer::storage::StorageMode;
use golfer::system::SystemInfo;

/// A card that answers every step, and keeps what is open.
struct Card {
    open: Vec<Handle>,
    steps: Vec<Request>,
    counter: Option<&'static str>,
    sessions: Vec<u32>,
    existing: bool,
    fail_at: Option<Request>,
}

impl Card {
    fn new() -> Card {
        Card {
            open: vec![],
            steps: vec![],
            counter: Some("00000005\n"),
            sessions: vec![4],
            existing: false,
            fail_at: None,
        }
    }

    fn answer(&mut self, request: Request, session: Option<&str>) -> Reply {
        self.steps.push(request);
        if self.fail_at == Some(request) {
            if let Request::Close(handle) = request {
                self.open.retain(|open| *open != handle);
            }
            return Reply::Failed;
        }
        match request {
            Request::OpenVolume => self.open.push(Handle::Volume),
            Request::OpenRoot => self.open.push(Handle::Root),
            Request::OpenDir { parent, child } => {
                assert!(self.open.contains(&parent));
                if child == Handle::Probe {
                    let name = session.unwrap();
                    let number: u32 = name[1..].parse().unwrap();
                    if !self.sessions.contains(&number) {
                        return Reply::Failed;
                    }
                }
                self.open.push(child);
            }
            Request::MakeDir { parent, .. } => assert!(self.open.contains(&parent)),
            Request::Inspect { dir, .. } => {
                assert!(self.open.contains(&dir));
                return Reply::Found(self.existing);
            }
            Request::ScanSessions => {
                return Reply::Highest(self.sessions.iter().copied().max().unwrap_or(0));
            }
            Request::OpenFile { dir, file, mode } => {
                assert!(self.open.contains(&dir));
                if mode == OpenMode::ReadOnly && self.counter.is_none() {
                    return Reply::Failed;
                }
                self.open.push(Handle::File(file));
            }
            Request::ReadCounter => {
                let text = self.counter.unwrap().as_bytes();
                let mut data = [0u8; 16];
                data[..text.len()].copy_from_slice(text);
                return Reply::Bytes { len: text.len() as u8, data };
            }
            Request::Write { file, .. } => assert!(self.open.contains(&Handle::File(file))),
            Request::Flush(file) => assert!(self.open.contains(&Handle::File(file))),
            Request::Close(handle) => {
                assert!(self.open.contains(&handle));
                self.open.retain(|open| *open != handle);
            }
            _ => {}
        }
        Reply::Done
    }

    fn run(&mut self, survey: Option<u32>) -> Bringup {
        let mut bringup = Bringup::new(survey);
        for _ in 0..200 {
            let request = bringup.request();
            if request == Request::Nothing {
                return bringup;
            }
            let name = match request {
                Request::OpenDir { child, .. } => bringup.directory_name(child),
                Request::MakeDir { child, .. } => bringup.directory_name(child),
                _ => None,
            };
            let reply = self.answer(request, name.as_ref().map(|text| text.text()));
            bringup.step(reply);
        }
        panic!("no end");
    }
}

const SURVEY: Option<u32> = Some(0xA000_0003);

#[test]
fn a_session_is_set_up() {
    let mut card = Card::new();
    let storage = card.run(SURVEY).storage().unwrap();
    assert_eq!(
        storage.mode,
        StorageMode::Survey { survey_id: 0xA000_0003, session_number: 5 }
    );
    assert!(storage.debug_online);
    assert_eq!(
        card.open,
        vec![
            Handle::Volume,
            Handle::Session,
            Handle::File(LogFile::Local),
            Handle::File(LogFile::Event),
            Handle::File(LogFile::Rx),
            Handle::File(LogFile::Debug),
        ]
    );
    let at = |wanted: Request| card.steps.iter().position(|step| *step == wanted).unwrap();
    let written = at(Request::Write { file: LogFile::BootCounter, content: Content::Counter(6) });
    let flushed = at(Request::Flush(LogFile::BootCounter));
    let made = at(Request::MakeDir { parent: Handle::Survey, child: Handle::Session });
    assert!(written < flushed && flushed < made);
    at(Request::Write { file: LogFile::System, content: Content::Greeting });
    let mut index = 0;
    while let Some(step) = shutdown_step(true, true, index) {
        card.answer(step, None);
        index += 1;
    }
    assert_eq!(index, 9);
    assert!(card.open.is_empty());
}

#[test]
fn a_card_that_was_used_before() {
    let mut card = Card::new();
    card.existing = true;
    card.run(SURVEY);
    let greeting = Request::Write { file: LogFile::System, content: Content::Greeting };
    assert!(!card.steps.contains(&greeting));
    let opened = Request::OpenFile {
        dir: Handle::Root,
        file: LogFile::System,
        mode: OpenMode::Append,
    };
    assert!(card.steps.contains(&opened));
}

#[test]
fn the_number_of_a_session() {
    for (counter, sessions, expected) in [
        (Some("00000005\n"), vec![], 5),
        (Some("00000005\n"), vec![5, 9], 10),
        (None, vec![3, 8], 9),
        (None, vec![], 1),
        (Some("rubbish"), vec![3], 4),
        (Some("0"), vec![3], 4),
        (Some("10000001"), vec![3], 4),
    ] {
        let mut card = Card::new();
        card.counter = counter;
        card.sessions = sessions;
        let storage = card.run(SURVEY).storage().unwrap();
        assert_eq!(storage.segment_number(), expected);
    }
    let mut card = Card::new();
    card.counter = None;
    card.sessions = vec![9_999_999];
    assert_eq!(card.run(SURVEY).storage().unwrap().mode, StorageMode::Global);
}

#[test]
fn a_number_is_not_given_again() {
    // The power fails behind the counter, before the directory is there.
    let made = Request::MakeDir { parent: Handle::Survey, child: Handle::Session };
    for (counter, left, number, next) in [
        ("00000005\n", "00000006\n", 5, Some(6)),
        ("09999998\n", "09999999\n", 9_999_998, Some(9_999_999)),
        ("09999999\n", "10000000\n", 9_999_999, None),
    ] {
        let mut card = Card::new();
        card.counter = Some(counter);
        card.sessions = vec![4];
        card.fail_at = Some(made);
        card.run(SURVEY);
        let content = Content::Counter(number + 1);
        assert!(card.steps.contains(&Request::Write { file: LogFile::BootCounter, content }));
        assert!(card.steps.contains(&Request::OpenFile {
            dir: Handle::Survey,
            file: LogFile::BootCounter,
            mode: OpenMode::Overwrite,
        }));

        let mut card = Card::new();
        card.counter = Some(left);
        card.sessions = vec![4];
        let mode = card.run(SURVEY).storage().unwrap().mode;
        match next {
            Some(session_number) => {
                assert_eq!(mode, StorageMode::Survey { survey_id: 0xA000_0003, session_number });
            }
            None => {
                assert_eq!(mode, StorageMode::Global);
                assert!(!card.steps.contains(&Request::ScanSessions));
                assert!(!card.steps.contains(&made));
            }
        }
    }
}

#[test]
fn whatever_fails_nothing_stays_open_by_mistake() {
    let mut good = Card::new();
    good.sessions = vec![5];
    good.run(SURVEY);
    for (count, step) in good.steps.clone().into_iter().enumerate() {
        let mut card = Card::new();
        card.sessions = vec![5];
        card.fail_at = Some(step);
        let storage = card.run(SURVEY).storage();
        match storage {
            Some(storage) => match storage.mode {
                StorageMode::Survey { .. } => {
                    assert_eq!(card.open.len(), if storage.debug_online { 6 } else { 5 });
                }
                StorageMode::Global => assert_eq!(
                    card.open,
                    vec![Handle::Volume, Handle::Root, Handle::File(LogFile::Debug)],
                ),
            },
            None => assert!(card.open.is_empty(), "step {}", count),
        }
    }
}

#[test]
fn without_a_survey_only_diagnostics_are_logged() {
    let mut card = Card::new();
    let storage = card.run(None).storage().unwrap();
    assert_eq!(storage.mode, StorageMode::Global);
    assert!(storage.debug_online);
    let mut index = 0;
    while let Some(step) = shutdown_step(false, true, index) {
        card.answer(step, None);
        index += 1;
    }
    assert!(card.open.is_empty());
    let mut card = Card::new();
    card.fail_at = Some(Request::OpenFile {
        dir: Handle::Root,
        file: LogFile::Debug,
        mode: OpenMode::Create,
    });
    assert!(card.run(None).storage().is_none());
    assert!(card.open.is_empty());
    let mut card = Card::new();
    card.fail_at = Some(Request::CardSize);
    assert!(card.run(None).storage().is_none());
}

#[test]
fn what_is_written() {
    let info = SystemInfo::new(1, "0.1.0");
    let bringup = Bringup::new(None);
    let text = |content| bringup.content_text(content, info, 0).unwrap().text().to_string();
    assert_eq!(text(Content::Greeting), "Hello GOLFER!\r\n");
    assert_eq!(text(Content::Startup), "SYSTEM STARTUP\r\n");
    assert_eq!(text(Content::Counter(6)), "00000006\n");
    assert_eq!(bringup.directory_name(Handle::SurveyRoot).unwrap().text(), "SURVEY");
}

fn probe(mut probe: CardProbe, mut answers: Vec<u8>) -> (bool, Vec<ProbeRequest>) {
    let mut selected = false;
    let mut steps = vec![];
    answers.reverse();
    for _ in 0..400 {
        let request = probe.request();
        steps.push(request);
        let reply = match request {
            ProbeRequest::Verdict(present) => {
                assert!(!selected);
                return (present, steps);
            }
            ProbeRequest::Select => {
                selected = true;
                ProbeReply::Done
            }
            ProbeRequest::Deselect => {
                selected = false;
                ProbeReply::Done
            }
            ProbeRequest::ReadByte => {
                assert!(selected);
                ProbeReply::Byte(answers.pop().unwrap_or(0xFF))
            }
            _ => ProbeReply::Done,
        };
        probe.step(reply);
    }
    panic!("no end");
}

#[test]
fn a_card_is_found() {
    let (present, steps) = probe(CardProbe::quick(), vec![0xFF, 0xFF, 0x01]);
    assert!(present);
    assert_eq!(steps.iter().filter(|step| **step == ProbeRequest::ReadByte).count(), 3);
    let (present, steps) = probe(CardProbe::patient(), vec![0x00, 0x05, 0x01]);
    assert!(present);
    assert_eq!(steps[0], ProbeRequest::Wait(5));
    assert_eq!(steps.iter().filter(|step| **step == ProbeRequest::Command).count(), 3);
    assert_eq!(idle_command(), [0x40, 0, 0, 0, 0, 0x95]);
}

#[test]
fn a_missing_card_is_noticed() {
    let (present, steps) = probe(CardProbe::quick(), vec![]);
    assert!(!present);
    assert_eq!(steps.iter().filter(|step| **step == ProbeRequest::Command).count(), 8);
    assert_eq!(steps.iter().filter(|step| **step == ProbeRequest::ReadByte).count(), 128);
    let (present, steps) = probe(CardProbe::patient(), vec![]);
    assert!(!present);
    assert_eq!(steps.iter().filter(|step| **step == ProbeRequest::Wait(2)).count(), 8);
}

#[test]
fn a_broken_bus_ends_the_probe() {
    let mut probe = CardProbe::quick();
    probe.step(ProbeReply::Done);
    probe.step(ProbeReply::Failed);
    assert_eq!(probe.request(), ProbeRequest::Verdict(false));
    let mut probe = CardProbe::quick();
    for _ in 0..3 {
        probe.step(ProbeReply::Done);
    }
    assert_eq!(probe.request(), ProbeRequest::IdleByte);
    probe.step(ProbeReply::Failed);
    assert_eq!(probe.request(), ProbeRequest::Deselect);
    probe.step(ProbeReply::Done);
    assert_eq!(probe.request(), ProbeRequest::Verdict(false));
}

#[test]
fn a_checkpoint_covers_all_records() {
    assert_eq!(checkpoint_step(0), Some(Request::Flush(LogFile::Local)));
    assert_eq!(checkpoint_step(1), Some(Request::Flush(LogFile::Rx)));
    assert_eq!(checkpoint_step(2), Some(Request::Flush(LogFile::Event)));
    assert_eq!(checkpoint_step(3), None);
}
