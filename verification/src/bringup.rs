//! How the card is brought up: which file and directory is opened, made, written and closed, and
//! in which order.
//!
//! The steps are decided here and carried out by the caller, who tells how each of them went.
use vstd::prelude::*;
use vstd::utf8::encode_utf8;

use crate::format::{hex_fixed, lemma_ascii_bytes, Line};
use crate::session::{
    boot_counter_text, boot_session_directory_name, counter_text, counter_value, is_session,
    law_counter_gives_back_its_number, metadata_record, metadata_text, parse_boot_counter,
    session_name, survey_directory_name, LogFile, MAX_BOOT_SESSION, METADATA_CAPACITY,
};
use crate::storage::{Storage, StorageMode};
use crate::system::SystemInfo;
use crate::text::{byte_len, Text};

verus! {

/// Something on the card that is open and has to be closed again.
#[derive(Clone, Copy, Debug, PartialEq, Eq, Structural)]
pub enum Handle {
    Volume,
    /// The root directory.
    Root,
    /// The directory of all surveys.
    SurveyRoot,
    /// The directory of the survey.
    Survey,
    /// The directory of the session.
    Session,
    /// The directory of a session that was there before.
    Probe,
    File(LogFile),
}

/// How a file is opened.
#[derive(Clone, Copy, Debug, PartialEq, Eq, Structural)]
pub enum OpenMode {
    ReadOnly,
    /// The file is made and must not be there.
    Create,
    /// The file is made where it is not there, and is written from its start. What it holds is
    /// there until it is written over.
    Overwrite,
    /// The file is there, and is written behind its end.
    Append,
}

/// What is written to a file.
#[derive(Clone, Copy, Debug, PartialEq, Eq, Structural)]
pub enum Content {
    Greeting,
    Startup,
    /// The number of the next session.
    Counter(u32),
    Metadata,
}

/// The next step.
#[derive(Clone, Copy, Debug, PartialEq, Eq, Structural)]
pub enum Request {
    /// Send the clocks that wake a card.
    StartupClocks,
    /// Ask the card for its size, which brings it up.
    CardSize,
    /// Raise the clock to its full speed.
    RaiseSpeed,
    OpenVolume,
    OpenRoot,
    OpenDir { parent: Handle, child: Handle },
    MakeDir { parent: Handle, child: Handle },
    /// Look whether a directory has a file.
    Inspect { dir: Handle, file: LogFile },
    /// Look for the highest session in the directory of the survey.
    ScanSessions,
    OpenFile { dir: Handle, file: LogFile, mode: OpenMode },
    /// Read the start of the counter file.
    ReadCounter,
    Write { file: LogFile, content: Content },
    Flush(LogFile),
    Close(Handle),
    /// Everything is done.
    Nothing,
}

/// How a step went.
#[derive(Clone, Copy)]
pub enum Reply {
    Done,
    Failed,
    /// Whether the file is there.
    Found(bool),
    /// The highest session that is there.
    Highest(u32),
    /// What was read: so many bytes of these.
    Bytes { len: u8, data: [u8; 16] },
}

/// What is done when everything that was opened for a purpose is closed again.
#[derive(Clone, Copy, Debug, PartialEq, Eq, Structural)]
pub enum After {
    /// Go on without the system log.
    Mount,
    /// Go on without a survey, with diagnostics only.
    Global,
    /// Give up.
    Offline,
}

/// Where the bring-up stands.
#[derive(Clone, Copy, Debug, PartialEq, Eq, Structural)]
pub enum Phase {
    StartupClocks,
    CardSize,
    RaiseSpeed,
    SysVolume,
    SysRoot,
    SysInspect,
    SysOpen,
    SysGreeting,
    SysStartup,
    SysFlush,
    SysCloseFile,
    SysCloseRoot,
    SysCloseVolume,
    Mount,
    SurveyParent,
    SurveyRootOpen,
    SurveyRootMake,
    SurveyRootReopen,
    CloseRoot,
    SurveyOpen,
    SurveyMake,
    SurveyReopen,
    CloseSurveyRoot,
    CounterOpen,
    CounterRead,
    CounterClose,
    Scan,
    ProbeOpen,
    ProbeClose,
    Rescan,
    CounterCreate,
    CounterWrite,
    CounterFlush,
    CounterSaved,
    SessionMake,
    SessionOpen,
    CloseSurvey,
    LocalInspect,
    LocalOpen,
    EventInspect,
    EventOpen,
    MetaOpen,
    MetaWrite,
    MetaFlush,
    MetaClose,
    RxOpen,
    DebugInspect,
    DebugOpen,
    GlobalRoot,
    GlobalInspect,
    GlobalOpen,
    Rollback(After),
    Online,
    Offline,
}

/// The bring-up as a mathematical value.
pub struct Model {
    pub phase: Phase,
    /// What is open, in the order of opening.
    pub open: Seq<Handle>,
    /// The survey that is to be logged.
    pub survey: Option<u32>,
    /// The number of the session, once it is known.
    pub session: u32,
    /// What the counter file held.
    pub counter: Option<u32>,
    /// Whether the file that was looked for is there.
    pub existed: bool,
    /// Whether the diagnostic log is open.
    pub debug: bool,
}

/// A bring-up before its first step.
pub open spec fn fresh_model(survey: Option<u32>) -> Model {
    Model {
        phase: Phase::StartupClocks,
        open: Seq::empty(),
        survey,
        session: 0,
        counter: None,
        existed: false,
        debug: false,
    }
}

/// Where the logs go when a card is up.
pub open spec fn storage_mode(m: Model) -> StorageMode {
    match m.survey {
        Some(survey_id) => StorageMode::Survey { survey_id, session_number: m.session },
        None => StorageMode::Global,
    }
}

/// What stays open when everything that was opened for a purpose is closed again.
pub open spec fn kept(after: After) -> Seq<Handle> {
    match after {
        After::Mount => Seq::empty(),
        After::Global => seq![Handle::Volume],
        After::Offline => Seq::empty(),
    }
}

/// Where it goes on then.
pub open spec fn resumed(after: After) -> Phase {
    match after {
        After::Mount => Phase::Mount,
        After::Global => Phase::GlobalRoot,
        After::Offline => Phase::Offline,
    }
}

/// A purpose that failed: whatever was opened for it is closed first.
pub open spec fn failed(m: Model, after: After) -> Model {
    if m.open.len() <= kept(after).len() {
        Model { phase: resumed(after), ..m }
    } else {
        Model { phase: Phase::Rollback(after), ..m }
    }
}

pub open spec fn goto(m: Model, phase: Phase) -> Model {
    Model { phase, ..m }
}

/// Something more is open.
pub open spec fn opened(m: Model, handle: Handle, phase: Phase) -> Model {
    Model { phase, open: m.open.push(handle), ..m }
}

/// What was opened last is closed.
pub open spec fn closed_last(m: Model, phase: Phase) -> Model {
    Model { phase, open: m.open.drop_last(), ..m }
}

/// What was opened before the last is closed.
pub open spec fn closed_parent(m: Model, phase: Phase) -> Model {
    Model { phase, open: m.open.remove(m.open.len() - 2), ..m }
}

/// The number of a session is taken, where it can be one.
pub open spec fn numbered(m: Model, number: int, phase: Phase) -> Model {
    if is_session(number) {
        Model { phase, session: number as u32, ..m }
    } else {
        failed(m, After::Global)
    }
}

/// The number that the counter file held is taken where it can be that of a session. The number
/// behind the last one says that all of them have been given, and there is no session. With any
/// other content the sessions are looked through.
pub open spec fn counted(m: Model) -> Model {
    match m.counter {
        Some(value) => if is_session(value as int) {
            Model { phase: Phase::ProbeOpen, session: value, ..m }
        } else if value == MAX_BOOT_SESSION + 1 {
            failed(m, After::Global)
        } else {
            goto(m, Phase::Scan)
        },
        None => goto(m, Phase::Scan),
    }
}

/// A step that has to succeed.
pub open spec fn needed(m: Model, reply: Reply, next: Model, after: After) -> Model {
    if reply is Done {
        next
    } else {
        failed(m, after)
    }
}

/// What comes behind a step.
pub open spec fn bringup_next(m: Model, reply: Reply) -> Model {
    match m.phase {
        Phase::StartupClocks => needed(m, reply, goto(m, Phase::CardSize), After::Offline),
        Phase::CardSize => needed(m, reply, goto(m, Phase::RaiseSpeed), After::Offline),
        Phase::RaiseSpeed => goto(m, Phase::SysVolume),
        // The system log.
        Phase::SysVolume => needed(
            m,
            reply,
            opened(m, Handle::Volume, Phase::SysRoot),
            After::Mount,
        ),
        Phase::SysRoot => needed(
            m,
            reply,
            opened(m, Handle::Root, Phase::SysInspect),
            After::Mount,
        ),
        Phase::SysInspect => match reply {
            Reply::Found(existed) => Model { phase: Phase::SysOpen, existed, ..m },
            _ => failed(m, After::Mount),
        },
        Phase::SysOpen => needed(
            m,
            reply,
            opened(
                m,
                Handle::File(LogFile::System),
                if m.existed {
                    Phase::SysStartup
                } else {
                    Phase::SysGreeting
                },
            ),
            After::Mount,
        ),
        Phase::SysGreeting => needed(m, reply, goto(m, Phase::SysStartup), After::Mount),
        Phase::SysStartup => needed(m, reply, goto(m, Phase::SysFlush), After::Mount),
        Phase::SysFlush => needed(m, reply, goto(m, Phase::SysCloseFile), After::Mount),
        Phase::SysCloseFile => {
            let closed = closed_last(m, Phase::SysCloseRoot);
            needed(closed, reply, closed, After::Mount)
        },
        Phase::SysCloseRoot => {
            let closed = closed_last(m, Phase::SysCloseVolume);
            needed(closed, reply, closed, After::Mount)
        },
        Phase::SysCloseVolume => closed_last(m, Phase::Mount),
        Phase::Mount => needed(
            m,
            reply,
            opened(
                m,
                Handle::Volume,
                if m.survey is Some {
                    Phase::SurveyParent
                } else {
                    Phase::GlobalRoot
                },
            ),
            After::Offline,
        ),
        // The session of a survey.
        Phase::SurveyParent => needed(
            m,
            reply,
            opened(m, Handle::Root, Phase::SurveyRootOpen),
            After::Global,
        ),
        Phase::SurveyRootOpen => if reply is Done {
            opened(m, Handle::SurveyRoot, Phase::CloseRoot)
        } else {
            goto(m, Phase::SurveyRootMake)
        },
        Phase::SurveyRootMake => needed(
            m,
            reply,
            goto(m, Phase::SurveyRootReopen),
            After::Global,
        ),
        Phase::SurveyRootReopen => needed(
            m,
            reply,
            opened(m, Handle::SurveyRoot, Phase::CloseRoot),
            After::Global,
        ),
        Phase::CloseRoot => closed_parent(m, Phase::SurveyOpen),
        Phase::SurveyOpen => if reply is Done {
            opened(m, Handle::Survey, Phase::CloseSurveyRoot)
        } else {
            goto(m, Phase::SurveyMake)
        },
        Phase::SurveyMake => needed(m, reply, goto(m, Phase::SurveyReopen), After::Global),
        Phase::SurveyReopen => needed(
            m,
            reply,
            opened(m, Handle::Survey, Phase::CloseSurveyRoot),
            After::Global,
        ),
        Phase::CloseSurveyRoot => closed_parent(m, Phase::CounterOpen),
        // The number of the session.
        Phase::CounterOpen => if reply is Done {
            opened(m, Handle::File(LogFile::BootCounter), Phase::CounterRead)
        } else {
            counted(Model { counter: None, ..m })
        },
        Phase::CounterRead => Model {
            phase: Phase::CounterClose,
            counter: match reply {
                Reply::Bytes { len, data } => if len <= 16 {
                    counter_value(data@.take(len as int))
                } else {
                    None
                },
                _ => None,
            },
            ..m
        },
        Phase::CounterClose => counted(closed_last(m, Phase::CounterClose)),
        Phase::Scan => match reply {
            Reply::Highest(highest) => numbered(m, highest + 1, Phase::ProbeOpen),
            _ => failed(m, After::Global),
        },
        Phase::ProbeOpen => if reply is Done {
            opened(m, Handle::Probe, Phase::ProbeClose)
        } else {
            goto(m, Phase::CounterCreate)
        },
        Phase::ProbeClose => closed_last(m, Phase::Rescan),
        Phase::Rescan => match reply {
            Reply::Highest(highest) => numbered(m, highest + 1, Phase::CounterCreate),
            _ => failed(m, After::Global),
        },
        Phase::CounterCreate => needed(
            m,
            reply,
            opened(m, Handle::File(LogFile::BootCounter), Phase::CounterWrite),
            After::Global,
        ),
        Phase::CounterWrite => needed(m, reply, goto(m, Phase::CounterFlush), After::Global),
        Phase::CounterFlush => needed(m, reply, goto(m, Phase::CounterSaved), After::Global),
        Phase::CounterSaved => {
            let closed = closed_last(m, Phase::SessionMake);
            needed(closed, reply, closed, After::Global)
        },
        // Its directory and files.
        Phase::SessionMake => needed(m, reply, goto(m, Phase::SessionOpen), After::Global),
        Phase::SessionOpen => needed(
            m,
            reply,
            opened(m, Handle::Session, Phase::CloseSurvey),
            After::Global,
        ),
        Phase::CloseSurvey => closed_parent(m, Phase::LocalInspect),
        Phase::LocalInspect => match reply {
            Reply::Found(existed) => Model { phase: Phase::LocalOpen, existed, ..m },
            _ => failed(m, After::Global),
        },
        Phase::LocalOpen => needed(
            m,
            reply,
            opened(m, Handle::File(LogFile::Local), Phase::EventInspect),
            After::Global,
        ),
        Phase::EventInspect => match reply {
            Reply::Found(existed) => Model { phase: Phase::EventOpen, existed, ..m },
            _ => failed(m, After::Global),
        },
        Phase::EventOpen => needed(
            m,
            reply,
            opened(m, Handle::File(LogFile::Event), Phase::MetaOpen),
            After::Global,
        ),
        Phase::MetaOpen => needed(
            m,
            reply,
            opened(m, Handle::File(LogFile::Meta), Phase::MetaWrite),
            After::Global,
        ),
        Phase::MetaWrite => needed(m, reply, goto(m, Phase::MetaFlush), After::Global),
        Phase::MetaFlush => needed(m, reply, goto(m, Phase::MetaClose), After::Global),
        Phase::MetaClose => {
            let closed = closed_last(m, Phase::RxOpen);
            needed(closed, reply, closed, After::Global)
        },
        Phase::RxOpen => needed(
            m,
            reply,
            opened(m, Handle::File(LogFile::Rx), Phase::DebugInspect),
            After::Global,
        ),
        // Without a diagnostic log the session goes on.
        Phase::DebugInspect => match reply {
            Reply::Found(existed) => Model { phase: Phase::DebugOpen, existed, ..m },
            _ => goto(m, Phase::Online),
        },
        Phase::DebugOpen => if reply is Done {
            Model {
                debug: true,
                ..opened(m, Handle::File(LogFile::Debug), Phase::Online)
            }
        } else {
            goto(m, Phase::Online)
        },
        // Diagnostics only.
        Phase::GlobalRoot => {
            let alone = Model { survey: None, ..m };
            needed(
                alone,
                reply,
                opened(alone, Handle::Root, Phase::GlobalInspect),
                After::Offline,
            )
        },
        Phase::GlobalInspect => match reply {
            Reply::Found(existed) => Model { phase: Phase::GlobalOpen, existed, ..m },
            _ => failed(m, After::Offline),
        },
        Phase::GlobalOpen => needed(
            m,
            reply,
            Model { debug: true, ..opened(m, Handle::File(LogFile::Debug), Phase::Online) },
            After::Offline,
        ),
        Phase::Rollback(after) => {
            let closed = closed_last(m, Phase::Rollback(after));
            failed(closed, after)
        },
        Phase::Online => m,
        Phase::Offline => m,
    }
}

/// How a file is opened that may be there already.
pub open spec fn append_mode(existed: bool) -> OpenMode {
    if existed {
        OpenMode::Append
    } else {
        OpenMode::Create
    }
}

/// The step of a phase.
pub open spec fn bringup_request(m: Model) -> Request {
    match m.phase {
        Phase::StartupClocks => Request::StartupClocks,
        Phase::CardSize => Request::CardSize,
        Phase::RaiseSpeed => Request::RaiseSpeed,
        Phase::SysVolume => Request::OpenVolume,
        Phase::SysRoot => Request::OpenRoot,
        Phase::SysInspect => Request::Inspect { dir: Handle::Root, file: LogFile::System },
        Phase::SysOpen => Request::OpenFile {
            dir: Handle::Root,
            file: LogFile::System,
            mode: append_mode(m.existed),
        },
        Phase::SysGreeting => Request::Write {
            file: LogFile::System,
            content: Content::Greeting,
        },
        Phase::SysStartup => {
            Request::Write { file: LogFile::System, content: Content::Startup }
        },
        Phase::SysFlush => Request::Flush(LogFile::System),
        Phase::SysCloseFile => Request::Close(Handle::File(LogFile::System)),
        Phase::SysCloseRoot => Request::Close(Handle::Root),
        Phase::SysCloseVolume => Request::Close(Handle::Volume),
        Phase::Mount => Request::OpenVolume,
        Phase::SurveyParent => Request::OpenRoot,
        Phase::SurveyRootOpen => Request::OpenDir {
            parent: Handle::Root,
            child: Handle::SurveyRoot,
        },
        Phase::SurveyRootMake => Request::MakeDir {
            parent: Handle::Root,
            child: Handle::SurveyRoot,
        },
        Phase::SurveyRootReopen => Request::OpenDir {
            parent: Handle::Root,
            child: Handle::SurveyRoot,
        },
        Phase::CloseRoot => Request::Close(Handle::Root),
        Phase::SurveyOpen => Request::OpenDir {
            parent: Handle::SurveyRoot,
            child: Handle::Survey,
        },
        Phase::SurveyMake => Request::MakeDir {
            parent: Handle::SurveyRoot,
            child: Handle::Survey,
        },
        Phase::SurveyReopen => Request::OpenDir {
            parent: Handle::SurveyRoot,
            child: Handle::Survey,
        },
        Phase::CloseSurveyRoot => Request::Close(Handle::SurveyRoot),
        Phase::CounterOpen => Request::OpenFile {
            dir: Handle::Survey,
            file: LogFile::BootCounter,
            mode: OpenMode::ReadOnly,
        },
        Phase::CounterRead => Request::ReadCounter,
        Phase::CounterClose => Request::Close(Handle::File(LogFile::BootCounter)),
        Phase::Scan => Request::ScanSessions,
        Phase::ProbeOpen => Request::OpenDir { parent: Handle::Survey, child: Handle::Probe },
        Phase::ProbeClose => Request::Close(Handle::Probe),
        Phase::Rescan => Request::ScanSessions,
        Phase::CounterCreate => Request::OpenFile {
            dir: Handle::Survey,
            file: LogFile::BootCounter,
            mode: OpenMode::Overwrite,
        },
        Phase::CounterWrite => Request::Write {
            file: LogFile::BootCounter,
            content: Content::Counter((m.session + 1) as u32),
        },
        Phase::CounterFlush => Request::Flush(LogFile::BootCounter),
        Phase::CounterSaved => Request::Close(Handle::File(LogFile::BootCounter)),
        Phase::SessionMake => {
            Request::MakeDir { parent: Handle::Survey, child: Handle::Session }
        },
        Phase::SessionOpen => {
            Request::OpenDir { parent: Handle::Survey, child: Handle::Session }
        },
        Phase::CloseSurvey => Request::Close(Handle::Survey),
        Phase::LocalInspect => Request::Inspect { dir: Handle::Session, file: LogFile::Local },
        Phase::LocalOpen => Request::OpenFile {
            dir: Handle::Session,
            file: LogFile::Local,
            mode: append_mode(m.existed),
        },
        Phase::EventInspect => Request::Inspect { dir: Handle::Session, file: LogFile::Event },
        Phase::EventOpen => Request::OpenFile {
            dir: Handle::Session,
            file: LogFile::Event,
            mode: append_mode(m.existed),
        },
        Phase::MetaOpen => Request::OpenFile {
            dir: Handle::Session,
            file: LogFile::Meta,
            mode: OpenMode::Create,
        },
        Phase::MetaWrite => Request::Write { file: LogFile::Meta, content: Content::Metadata },
        Phase::MetaFlush => Request::Flush(LogFile::Meta),
        Phase::MetaClose => Request::Close(Handle::File(LogFile::Meta)),
        Phase::RxOpen => Request::OpenFile {
            dir: Handle::Session,
            file: LogFile::Rx,
            mode: OpenMode::Create,
        },
        Phase::DebugInspect => Request::Inspect { dir: Handle::Session, file: LogFile::Debug },
        Phase::DebugOpen => Request::OpenFile {
            dir: Handle::Session,
            file: LogFile::Debug,
            mode: append_mode(m.existed),
        },
        Phase::GlobalRoot => Request::OpenRoot,
        Phase::GlobalInspect => Request::Inspect { dir: Handle::Root, file: LogFile::Debug },
        Phase::GlobalOpen => Request::OpenFile {
            dir: Handle::Root,
            file: LogFile::Debug,
            mode: append_mode(m.existed),
        },
        Phase::Rollback(_) => Request::Close(m.open.last()),
        Phase::Online => Request::Nothing,
        Phase::Offline => Request::Nothing,
    }
}

/// What is open in a phase that goes forward.
pub open spec fn held(m: Model) -> Seq<Handle> {
    let v = Handle::Volume;
    let counter = Handle::File(LogFile::BootCounter);
    let local = Handle::File(LogFile::Local);
    let event = Handle::File(LogFile::Event);
    let rx = Handle::File(LogFile::Rx);
    match m.phase {
        Phase::StartupClocks | Phase::CardSize | Phase::RaiseSpeed | Phase::SysVolume
        | Phase::Mount | Phase::Offline => Seq::empty(),
        Phase::SysRoot | Phase::SysCloseVolume | Phase::SurveyParent | Phase::GlobalRoot => seq![v],
        Phase::SysInspect | Phase::SysOpen | Phase::SysCloseRoot | Phase::SurveyRootOpen
        | Phase::SurveyRootMake | Phase::SurveyRootReopen | Phase::GlobalInspect
        | Phase::GlobalOpen => seq![v, Handle::Root],
        Phase::SysGreeting | Phase::SysStartup | Phase::SysFlush | Phase::SysCloseFile => seq![
            v,
            Handle::Root,
            Handle::File(LogFile::System),
        ],
        Phase::CloseRoot => seq![v, Handle::Root, Handle::SurveyRoot],
        Phase::SurveyOpen | Phase::SurveyMake | Phase::SurveyReopen => seq![v, Handle::SurveyRoot],
        Phase::CloseSurveyRoot => seq![v, Handle::SurveyRoot, Handle::Survey],
        Phase::CounterOpen | Phase::Scan | Phase::ProbeOpen | Phase::Rescan | Phase::CounterCreate
        | Phase::SessionMake | Phase::SessionOpen => seq![v, Handle::Survey],
        Phase::CounterRead | Phase::CounterClose | Phase::CounterWrite | Phase::CounterFlush
        | Phase::CounterSaved => seq![v, Handle::Survey, counter],
        Phase::ProbeClose => seq![v, Handle::Survey, Handle::Probe],
        Phase::CloseSurvey => seq![v, Handle::Survey, Handle::Session],
        Phase::LocalInspect | Phase::LocalOpen => seq![v, Handle::Session],
        Phase::EventInspect | Phase::EventOpen => seq![v, Handle::Session, local],
        Phase::MetaOpen | Phase::RxOpen => seq![v, Handle::Session, local, event],
        Phase::MetaWrite | Phase::MetaFlush | Phase::MetaClose => seq![
            v,
            Handle::Session,
            local,
            event,
            Handle::File(LogFile::Meta),
        ],
        Phase::DebugInspect | Phase::DebugOpen => seq![v, Handle::Session, local, event, rx],
        Phase::Online => match m.survey {
            Some(_) => if m.debug {
                seq![v, Handle::Session, local, event, rx, Handle::File(LogFile::Debug)]
            } else {
                seq![v, Handle::Session, local, event, rx]
            },
            None => seq![v, Handle::Root, Handle::File(LogFile::Debug)],
        },
        Phase::Rollback(_) => m.open,
    }
}

/// Whether a phase belongs to setting up the session of a survey.
pub open spec fn in_session(phase: Phase) -> bool {
    match phase {
        Phase::SurveyParent | Phase::SurveyRootOpen | Phase::SurveyRootMake
        | Phase::SurveyRootReopen | Phase::CloseRoot | Phase::SurveyOpen | Phase::SurveyMake
        | Phase::SurveyReopen | Phase::CloseSurveyRoot | Phase::CounterOpen | Phase::CounterRead
        | Phase::CounterClose | Phase::Scan | Phase::Rescan => true,
        _ => in_numbered(phase),
    }
}

/// Whether a phase comes behind the choice of a number for the session.
pub open spec fn in_numbered(phase: Phase) -> bool {
    match phase {
        Phase::ProbeOpen | Phase::ProbeClose => true,
        _ => in_allocated(phase),
    }
}

/// Whether a phase comes behind the last word on the number of the session.
pub open spec fn in_allocated(phase: Phase) -> bool {
    match phase {
        Phase::CounterCreate | Phase::CounterWrite | Phase::CounterFlush | Phase::CounterSaved
        | Phase::SessionMake | Phase::SessionOpen | Phase::CloseSurvey | Phase::LocalInspect
        | Phase::LocalOpen | Phase::EventInspect | Phase::EventOpen | Phase::MetaOpen
        | Phase::MetaWrite | Phase::MetaFlush | Phase::MetaClose | Phase::RxOpen
        | Phase::DebugInspect | Phase::DebugOpen => true,
        _ => false,
    }
}

/// Exactly those things are open which the phase is about; closing everything again, what is to
/// stay open lies at the bottom; and a session that is set up has a number.
pub open spec fn bringup_wf(m: Model) -> bool {
    &&& m.open == held(m)
    &&& m.phase matches Phase::Rollback(after) ==> {
        &&& kept(after).len() < m.open.len() <= 6
        &&& m.open.take(kept(after).len() as int) == kept(after)
    }
    &&& in_session(m.phase) ==> m.survey is Some
    &&& in_numbered(m.phase) || m.phase == Phase::Online && m.survey is Some ==> is_session(
        m.session as int,
    )
    &&& m.phase == Phase::GlobalInspect || m.phase == Phase::GlobalOpen ==> m.survey is None
    &&& m.debug ==> m.phase == Phase::Online
    &&& m.phase == Phase::Online && m.survey is None ==> m.debug
}

proof fn lemma_failed_keeps_order(m: Model, after: After)
    requires
        kept(after).len() <= m.open.len() <= 6,
        m.open.take(kept(after).len() as int) == kept(after),
        !m.debug,
    ensures
        bringup_wf(failed(m, after)),
{
    if m.open.len() == kept(after).len() {
        assert(m.open.take(m.open.len() as int) =~= m.open);
    }
}

/// How many steps a bring-up in a phase can still take, rollbacks left out.
pub open spec fn steps_left(phase: Phase) -> int {
    match phase {
        Phase::StartupClocks => 60,
        Phase::CardSize => 59,
        Phase::RaiseSpeed => 58,
        Phase::SysVolume => 57,
        Phase::SysRoot => 56,
        Phase::SysInspect => 55,
        Phase::SysOpen => 54,
        Phase::SysGreeting => 53,
        Phase::SysStartup => 52,
        Phase::SysFlush => 51,
        Phase::SysCloseFile => 50,
        Phase::SysCloseRoot => 49,
        Phase::SysCloseVolume => 48,
        Phase::Rollback(After::Mount) => 47,
        Phase::Mount => 46,
        Phase::SurveyParent => 45,
        Phase::SurveyRootOpen => 44,
        Phase::SurveyRootMake => 43,
        Phase::SurveyRootReopen => 42,
        Phase::CloseRoot => 41,
        Phase::SurveyOpen => 40,
        Phase::SurveyMake => 39,
        Phase::SurveyReopen => 38,
        Phase::CloseSurveyRoot => 37,
        Phase::CounterOpen => 36,
        Phase::CounterRead => 35,
        Phase::CounterClose => 34,
        Phase::Scan => 33,
        Phase::ProbeOpen => 32,
        Phase::ProbeClose => 31,
        Phase::Rescan => 30,
        Phase::CounterCreate => 29,
        Phase::CounterWrite => 28,
        Phase::CounterFlush => 27,
        Phase::CounterSaved => 26,
        Phase::SessionMake => 25,
        Phase::SessionOpen => 24,
        Phase::CloseSurvey => 23,
        Phase::LocalInspect => 22,
        Phase::LocalOpen => 21,
        Phase::EventInspect => 20,
        Phase::EventOpen => 19,
        Phase::MetaOpen => 18,
        Phase::MetaWrite => 17,
        Phase::MetaFlush => 16,
        Phase::MetaClose => 15,
        Phase::RxOpen => 14,
        Phase::DebugInspect => 13,
        Phase::DebugOpen => 12,
        Phase::Rollback(After::Global) => 11,
        Phase::GlobalRoot => 10,
        Phase::GlobalInspect => 9,
        Phase::GlobalOpen => 8,
        Phase::Rollback(After::Offline) => 7,
        Phase::Online => 0,
        Phase::Offline => 0,
    }
}

#[verifier::rlimit(60)]
proof fn lemma_forward_order(m: Model, reply: Reply)
    requires
        bringup_wf(m),
        m.phase !is Rollback,
    ensures
        bringup_wf(bringup_next(m, reply)),
{
    let next = bringup_next(m, reply);
    if next.phase is Rollback {
        let after = next.phase->Rollback_0;
        assert(next.open.take(kept(after).len() as int) =~= kept(after));
    } else {
        assert(next.open =~= held(next));
    }
}

/// Every step keeps the bring-up in order, however it went: what is open is what the phase is
/// about. So a bring-up that gives up has closed everything, and one that is done holds open the
/// files that it logs to, and nothing else but what they lie in.
pub proof fn law_bringup_stays_in_order(m: Model, reply: Reply)
    requires
        bringup_wf(m),
    ensures
        bringup_wf(bringup_next(m, reply)),
{
    if m.phase is Rollback {
        let after = m.phase->Rollback_0;
        let closed = closed_last(m, Phase::Rollback(after));
        assert(closed.open.take(kept(after).len() as int) =~= m.open.take(
            kept(after).len() as int,
        ));
        lemma_failed_keeps_order(closed, after);
    } else {
        lemma_forward_order(m, reply);
    }
}

/// A bring-up comes to an end, however its steps go: each of them takes it further, or closes one
/// more of the things that are open.
pub proof fn law_bringup_ends(m: Model, reply: Reply)
    requires
        bringup_wf(m),
        m.phase != Phase::Online,
        m.phase != Phase::Offline,
    ensures
        ({
            let next = bringup_next(m, reply);
            ||| steps_left(next.phase) < steps_left(m.phase)
            ||| next.phase == m.phase && next.open.len() < m.open.len()
        }),
{
    if m.phase is Rollback {
        assert(m.open.drop_last().len() < m.open.len());
    } else {
        assert(steps_left(bringup_next(m, reply).phase) < steps_left(m.phase));
    }
}

/// The number behind a session's is on the card before the session's directory is made: the
/// directory is made only when the counter file has been written with that number, made durable
/// and closed. So a power failure can leave a number out.
pub proof fn law_counter_is_saved_first(m: Model, reply: Reply)
    requires
        bringup_wf(m),
    ensures
        ({
            let next = bringup_next(m, reply);
            &&& next.phase == Phase::SessionMake ==> {
                &&& m.phase == Phase::CounterSaved
                &&& reply is Done
                &&& next.session == m.session
            }
            &&& next.phase == Phase::CounterSaved ==> {
                &&& m.phase == Phase::CounterFlush
                &&& bringup_request(m) == Request::Flush(LogFile::BootCounter)
                &&& reply is Done
                &&& next.session == m.session
            }
            &&& next.phase == Phase::CounterFlush ==> {
                &&& m.phase == Phase::CounterWrite
                &&& bringup_request(m) == (Request::Write {
                    file: LogFile::BootCounter,
                    content: Content::Counter((m.session + 1) as u32),
                })
                &&& reply is Done
                &&& next.session == m.session
            }
        }),
{
}

/// A counter that was left by a session never leads to the number of that session, nor to a look
/// through the directory, which might not find it: the next number is behind it, and behind the
/// last number there is none.
pub proof fn law_number_is_not_given_again(m: Model, n: u32)
    requires
        is_session(n as int),
        m.counter == Some((n + 1) as u32),
    ensures
        ({
            let next = counted(m);
            &&& next.phase != Phase::Scan
            &&& next.phase == Phase::ProbeOpen ==> n < next.session
            &&& n == MAX_BOOT_SESSION ==> next.phase != Phase::ProbeOpen
        }),
{
}

/// Whether a start has read a counter file that says that numbers up to `n` have been given, and
/// can give its own session only a number behind `n`.
pub open spec fn goes_on_behind(m: Model, n: u32) -> bool {
    match m.phase {
        Phase::CounterClose => m.counter matches Some(next) && n < next <= MAX_BOOT_SESSION + 1,
        Phase::Rescan => n < m.session,
        Phase::Online => m.survey is Some ==> n < m.session,
        Phase::Rollback(after) => after != After::Mount,
        Phase::GlobalRoot | Phase::GlobalInspect | Phase::GlobalOpen | Phase::Offline => true,
        _ => in_numbered(m.phase) && n < m.session,
    }
}

/// A start that reads the counter file goes on behind every number that is under the one that was
/// written to it last.
pub proof fn law_counter_is_believed(m: Model, n: u32, next: u32, len: u8, data: [u8; 16])
    requires
        m.phase == Phase::CounterRead,
        n < next <= MAX_BOOT_SESSION + 1,
        len <= 16,
        encode_utf8(counter_text(next as nat)).is_prefix_of(data@.take(len as int)),
    ensures
        goes_on_behind(bringup_next(m, Reply::Bytes { len, data }), n),
{
    let read = data@.take(len as int);
    let text = encode_utf8(counter_text(next as nat));
    law_counter_gives_back_its_number(next, read.skip(text.len() as int));
    assert(text + read.skip(text.len() as int) =~= read);
}

/// A start that goes on behind a number keeps behind it to its end, whether its session comes up
/// or fails; and what it writes to the counter file is behind the one that it read, so that the
/// next start goes on behind the number too. A look through the directory is taken to find the
/// session whose directory was opened just before.
pub proof fn law_numbers_only_grow(m: Model, n: u32, reply: Reply)
    requires
        bringup_wf(m),
        is_session(n as int),
        goes_on_behind(m, n),
        m.phase == Phase::Rescan ==> (reply matches Reply::Highest(highest) ==> m.session
            <= highest),
    ensures
        goes_on_behind(bringup_next(m, reply), n),
        bringup_request(m) matches Request::Write { file: LogFile::BootCounter, content } ==> (
        content matches Content::Counter(next) && n + 1 < next <= MAX_BOOT_SESSION + 1),
{
}

/// The counter file is never emptied before it is written: it is opened to be read, or to be
/// written over from its start. So a power failure finds it with the old number or the new one,
/// as far as the card writes the few bytes at once.
pub proof fn law_counter_is_written_in_place(m: Model)
    ensures
        bringup_request(m) matches Request::OpenFile { file: LogFile::BootCounter, mode, .. } ==> (
        mode == OpenMode::ReadOnly || mode == OpenMode::Overwrite),
{
}

/// A session gets a number that is free: its directory could not be opened, or the number is
/// behind the highest that a look through the directory found.
pub proof fn law_session_numbers_are_free(m: Model, reply: Reply)
    requires
        bringup_wf(m),
        bringup_next(m, reply).phase == Phase::CounterCreate,
    ensures
        ({
            let next = bringup_next(m, reply);
            ||| {
                &&& bringup_request(m) == (Request::OpenDir {
                    parent: Handle::Survey,
                    child: Handle::Probe,
                })
                &&& reply !is Done
                &&& next.session == m.session
            }
            ||| {
                &&& bringup_request(m) == Request::ScanSessions
                &&& reply matches Reply::Highest(highest) && next.session == highest + 1
            }
        }),
{
}

/// A survey whose session cannot be set up does not take the diagnostics with it: the bring-up
/// goes on to the diagnostic log in the root directory.
pub proof fn law_failed_session_falls_back(m: Model, reply: Reply)
    requires
        bringup_wf(m),
        in_session(m.phase),
    ensures
        ({
            let next = bringup_next(m, reply).phase;
            in_session(next) || next == Phase::Rollback(After::Global) || next == Phase::GlobalRoot
                || next == Phase::Online
        }),
        bringup_next(m, reply).phase == Phase::Online ==> bringup_next(m, reply).survey is Some,
{
}

/// A session that has everything but its diagnostic log is used without it.
pub proof fn law_session_needs_no_diagnostics(m: Model, reply: Reply)
    requires
        bringup_wf(m),
        m.phase == Phase::DebugInspect || m.phase == Phase::DebugOpen,
    ensures
        ({
            let next = bringup_next(m, reply);
            &&& next.phase == Phase::DebugOpen && m.phase == Phase::DebugInspect || next.phase
                == Phase::Online
            &&& next.survey == m.survey
            &&& next.session == m.session
        }),
{
}

/// The bring-up of a card.
pub struct Bringup {
    phase: Phase,
    items: [Handle; 8],
    depth: usize,
    survey: Option<u32>,
    session: u32,
    counter: Option<u32>,
    existed: bool,
    debug: bool,
}

impl Bringup {
    pub closed spec fn view(&self) -> Model {
        Model {
            phase: self.phase,
            open: self.items@.take(self.depth as int),
            survey: self.survey,
            session: self.session,
            counter: self.counter,
            existed: self.existed,
            debug: self.debug,
        }
    }

    /// The bring-up is in order.
    pub closed spec fn inv(&self) -> bool {
        bringup_wf(self@) && self.depth <= 6
    }

    /// What is known of a bring-up that is in order, so that the laws apply to it.
    pub proof fn lemma_in_order(&self)
        requires
            self.inv(),
        ensures
            bringup_wf(self@),
    {
    }

    pub fn new(survey: Option<u32>) -> (bringup: Self)
        ensures
            bringup.inv(),
            bringup_wf(bringup@),
            bringup@ == fresh_model(survey),
    {
        let bringup = Bringup {
            phase: Phase::StartupClocks,
            items: [Handle::Volume;8],
            depth: 0,
            survey,
            session: 0,
            counter: None,
            existed: false,
            debug: false,
        };
        assert(bringup@.open =~= Seq::<Handle>::empty());
        bringup
    }

    fn goto(&mut self, phase: Phase)
        requires
            old(self).depth <= 8,
        ensures
            final(self)@ == goto(old(self)@, phase),
            final(self).depth == old(self).depth,
    {
        self.phase = phase;
    }

    fn opened(&mut self, handle: Handle, phase: Phase)
        requires
            old(self).depth < 8,
        ensures
            final(self)@ == opened(old(self)@, handle, phase),
            final(self).depth == old(self).depth + 1,
    {
        self.items[self.depth] = handle;
        self.depth = self.depth + 1;
        self.phase = phase;
        assert(self@.open =~= old(self)@.open.push(handle));
    }

    fn closed_last(&mut self, phase: Phase)
        requires
            0 < old(self).depth <= 8,
        ensures
            final(self)@ == closed_last(old(self)@, phase),
            final(self).depth == old(self).depth - 1,
    {
        self.depth = self.depth - 1;
        self.phase = phase;
        assert(self@.open =~= old(self)@.open.drop_last());
    }

    fn closed_parent(&mut self, phase: Phase)
        requires
            2 <= old(self).depth <= 8,
        ensures
            final(self)@ == closed_parent(old(self)@, phase),
            final(self).depth == old(self).depth - 1,
    {
        self.items[self.depth - 2] = self.items[self.depth - 1];
        self.depth = self.depth - 1;
        self.phase = phase;
        assert(self@.open =~= old(self)@.open.remove(old(self)@.open.len() - 2));
    }

    fn failed(&mut self, after: After)
        requires
            old(self).depth <= 8,
        ensures
            final(self)@ == failed(old(self)@, after),
            final(self).depth == old(self).depth,
    {
        let (bottom, phase): (usize, Phase) = match after {
            After::Mount => (0, Phase::Mount),
            After::Global => (1, Phase::GlobalRoot),
            After::Offline => (0, Phase::Offline),
        };
        self.phase = if self.depth <= bottom {
            phase
        } else {
            Phase::Rollback(after)
        };
    }

    fn numbered(&mut self, highest: u32, phase: Phase)
        requires
            old(self).depth <= 8,
        ensures
            final(self)@ == numbered(old(self)@, highest + 1, phase),
            final(self).depth == old(self).depth,
    {
        if highest < MAX_BOOT_SESSION {
            self.session = highest + 1;
            self.phase = phase;
        } else {
            self.failed(After::Global);
        }
    }

    fn counted(&mut self)
        requires
            old(self).depth <= 8,
        ensures
            final(self)@ == counted(old(self)@),
            final(self).depth == old(self).depth,
    {
        match self.counter {
            Some(value) => {
                if 1 <= value && value <= MAX_BOOT_SESSION {
                    self.session = value;
                    self.phase = Phase::ProbeOpen;
                } else if value == MAX_BOOT_SESSION + 1 {
                    self.failed(After::Global);
                } else {
                    self.phase = Phase::Scan;
                }
            },
            None => {
                self.phase = Phase::Scan;
            },
        }
    }

    /// A step behind which something more is open, or a purpose has failed.
    fn open_or_fail(&mut self, done: bool, handle: Handle, phase: Phase, after: After)
        requires
            old(self).depth < 8,
        ensures
            final(self)@ == (if done {
                opened(old(self)@, handle, phase)
            } else {
                failed(old(self)@, after)
            }),
            final(self).depth <= old(self).depth + 1,
    {
        if done {
            self.opened(handle, phase);
        } else {
            self.failed(after);
        }
    }

    /// A step behind which it goes on, or a purpose has failed.
    fn go_or_fail(&mut self, done: bool, phase: Phase, after: After)
        requires
            old(self).depth <= 8,
        ensures
            final(self)@ == (if done {
                goto(old(self)@, phase)
            } else {
                failed(old(self)@, after)
            }),
            final(self).depth == old(self).depth,
    {
        if done {
            self.goto(phase);
        } else {
            self.failed(after);
        }
    }

    /// A step that closed what was opened last, or a purpose has failed behind it.
    fn close_or_fail(&mut self, done: bool, phase: Phase, after: After)
        requires
            0 < old(self).depth <= 8,
        ensures
            final(self)@ == (if done {
                closed_last(old(self)@, phase)
            } else {
                failed(closed_last(old(self)@, phase), after)
            }),
            final(self).depth == old(self).depth - 1,
    {
        self.closed_last(phase);
        if !done {
            self.failed(after);
        }
    }

    /// A look for a file, or a purpose has failed.
    fn found_or_fail(&mut self, reply: Reply, phase: Phase, after: After)
        requires
            old(self).depth <= 8,
        ensures
            final(self)@ == (match reply {
                Reply::Found(existed) => Model { phase, existed, ..old(self)@ },
                _ => failed(old(self)@, after),
            }),
            final(self).depth == old(self).depth,
    {
        match reply {
            Reply::Found(existed) => {
                self.existed = existed;
                self.phase = phase;
            },
            _ => self.failed(after),
        }
    }

    /// Takes how the step at hand went, and goes on to the next.
    pub fn step(&mut self, reply: Reply)
        requires
            old(self).inv(),
        ensures
            final(self).inv(),
            bringup_wf(final(self)@),
            final(self)@ == bringup_next(old(self)@, reply),
    {
        proof {
            law_bringup_stays_in_order(self@, reply);
            assert(self@.open.len() == self.depth);
        }
        let done: bool = match reply {
            Reply::Done => true,
            _ => false,
        };
        match self.phase {
            Phase::StartupClocks => self.go_or_fail(done, Phase::CardSize, After::Offline),
            Phase::CardSize => self.go_or_fail(done, Phase::RaiseSpeed, After::Offline),
            Phase::RaiseSpeed => self.goto(Phase::SysVolume),
            Phase::SysVolume => self.open_or_fail(
                done,
                Handle::Volume,
                Phase::SysRoot,
                After::Mount,
            ),
            Phase::SysRoot => self.open_or_fail(
                done,
                Handle::Root,
                Phase::SysInspect,
                After::Mount,
            ),
            Phase::SysInspect => self.found_or_fail(reply, Phase::SysOpen, After::Mount),
            Phase::SysOpen => {
                let phase = if self.existed {
                    Phase::SysStartup
                } else {
                    Phase::SysGreeting
                };
                self.open_or_fail(done, Handle::File(LogFile::System), phase, After::Mount)
            },
            Phase::SysGreeting => self.go_or_fail(done, Phase::SysStartup, After::Mount),
            Phase::SysStartup => self.go_or_fail(done, Phase::SysFlush, After::Mount),
            Phase::SysFlush => self.go_or_fail(done, Phase::SysCloseFile, After::Mount),
            Phase::SysCloseFile => self.close_or_fail(done, Phase::SysCloseRoot, After::Mount),
            Phase::SysCloseRoot => self.close_or_fail(done, Phase::SysCloseVolume, After::Mount),
            Phase::SysCloseVolume => self.closed_last(Phase::Mount),
            Phase::Mount => {
                let phase = if self.survey.is_some() {
                    Phase::SurveyParent
                } else {
                    Phase::GlobalRoot
                };
                self.open_or_fail(done, Handle::Volume, phase, After::Offline)
            },
            Phase::SurveyParent => self.open_or_fail(
                done,
                Handle::Root,
                Phase::SurveyRootOpen,
                After::Global,
            ),
            Phase::SurveyRootOpen => if done {
                self.opened(Handle::SurveyRoot, Phase::CloseRoot)
            } else {
                self.goto(Phase::SurveyRootMake)
            },
            Phase::SurveyRootMake => self.go_or_fail(done, Phase::SurveyRootReopen, After::Global),
            Phase::SurveyRootReopen => self.open_or_fail(
                done,
                Handle::SurveyRoot,
                Phase::CloseRoot,
                After::Global,
            ),
            Phase::CloseRoot => self.closed_parent(Phase::SurveyOpen),
            Phase::SurveyOpen => if done {
                self.opened(Handle::Survey, Phase::CloseSurveyRoot)
            } else {
                self.goto(Phase::SurveyMake)
            },
            Phase::SurveyMake => self.go_or_fail(done, Phase::SurveyReopen, After::Global),
            Phase::SurveyReopen => self.open_or_fail(
                done,
                Handle::Survey,
                Phase::CloseSurveyRoot,
                After::Global,
            ),
            Phase::CloseSurveyRoot => self.closed_parent(Phase::CounterOpen),
            Phase::CounterOpen => if done {
                self.opened(Handle::File(LogFile::BootCounter), Phase::CounterRead)
            } else {
                self.counter = None;
                self.counted()
            },
            Phase::CounterRead => {
                self.counter = match reply {
                    Reply::Bytes { len, data } => if len <= 16 {
                        let bytes = vstd::slice::slice_subrange(data.as_slice(), 0, len as usize);
                        assert(bytes@ =~= data@.take(len as int));
                        parse_boot_counter(bytes)
                    } else {
                        None
                    },
                    _ => None,
                };
                self.phase = Phase::CounterClose;
            },
            Phase::CounterClose => {
                self.closed_last(Phase::CounterClose);
                self.counted()
            },
            Phase::Scan => match reply {
                Reply::Highest(highest) => self.numbered(highest, Phase::ProbeOpen),
                _ => self.failed(After::Global),
            },
            Phase::ProbeOpen => if done {
                self.opened(Handle::Probe, Phase::ProbeClose)
            } else {
                self.goto(Phase::CounterCreate)
            },
            Phase::ProbeClose => self.closed_last(Phase::Rescan),
            Phase::Rescan => match reply {
                Reply::Highest(highest) => self.numbered(highest, Phase::CounterCreate),
                _ => self.failed(After::Global),
            },
            Phase::CounterCreate => self.open_or_fail(
                done,
                Handle::File(LogFile::BootCounter),
                Phase::CounterWrite,
                After::Global,
            ),
            Phase::CounterWrite => self.go_or_fail(done, Phase::CounterFlush, After::Global),
            Phase::CounterFlush => self.go_or_fail(done, Phase::CounterSaved, After::Global),
            Phase::CounterSaved => self.close_or_fail(done, Phase::SessionMake, After::Global),
            Phase::SessionMake => self.go_or_fail(done, Phase::SessionOpen, After::Global),
            Phase::SessionOpen => self.open_or_fail(
                done,
                Handle::Session,
                Phase::CloseSurvey,
                After::Global,
            ),
            Phase::CloseSurvey => self.closed_parent(Phase::LocalInspect),
            Phase::LocalInspect => self.found_or_fail(reply, Phase::LocalOpen, After::Global),
            Phase::LocalOpen => self.open_or_fail(
                done,
                Handle::File(LogFile::Local),
                Phase::EventInspect,
                After::Global,
            ),
            Phase::EventInspect => self.found_or_fail(reply, Phase::EventOpen, After::Global),
            Phase::EventOpen => self.open_or_fail(
                done,
                Handle::File(LogFile::Event),
                Phase::MetaOpen,
                After::Global,
            ),
            Phase::MetaOpen => self.open_or_fail(
                done,
                Handle::File(LogFile::Meta),
                Phase::MetaWrite,
                After::Global,
            ),
            Phase::MetaWrite => self.go_or_fail(done, Phase::MetaFlush, After::Global),
            Phase::MetaFlush => self.go_or_fail(done, Phase::MetaClose, After::Global),
            Phase::MetaClose => self.close_or_fail(done, Phase::RxOpen, After::Global),
            Phase::RxOpen => self.open_or_fail(
                done,
                Handle::File(LogFile::Rx),
                Phase::DebugInspect,
                After::Global,
            ),
            Phase::DebugInspect => match reply {
                Reply::Found(existed) => {
                    self.existed = existed;
                    self.phase = Phase::DebugOpen;
                },
                _ => self.goto(Phase::Online),
            },
            Phase::DebugOpen => if done {
                self.opened(Handle::File(LogFile::Debug), Phase::Online);
                self.debug = true;
            } else {
                self.goto(Phase::Online);
            },
            Phase::GlobalRoot => {
                self.survey = None;
                self.open_or_fail(done, Handle::Root, Phase::GlobalInspect, After::Offline)
            },
            Phase::GlobalInspect => self.found_or_fail(reply, Phase::GlobalOpen, After::Offline),
            Phase::GlobalOpen => if done {
                self.opened(Handle::File(LogFile::Debug), Phase::Online);
                self.debug = true;
            } else {
                self.failed(After::Offline);
            },
            Phase::Rollback(after) => {
                self.closed_last(Phase::Rollback(after));
                self.failed(after)
            },
            Phase::Online => {},
            Phase::Offline => {},
        }
        assert(self@.open.len() == self.depth);
    }


    /// The step at hand.
    pub fn request(&self) -> (request: Request)
        requires
            self.inv(),
        ensures
            request == bringup_request(self@),
    {
        assert(self@.open.len() == self.depth);
        match self.phase {
            Phase::StartupClocks => Request::StartupClocks,
            Phase::CardSize => Request::CardSize,
            Phase::RaiseSpeed => Request::RaiseSpeed,
            Phase::SysVolume => Request::OpenVolume,
            Phase::SysRoot => Request::OpenRoot,
            Phase::SysInspect => Request::Inspect { dir: Handle::Root, file: LogFile::System },
            Phase::SysOpen => Request::OpenFile {
                dir: Handle::Root,
                file: LogFile::System,
                mode: mode_for(self.existed),
            },
            Phase::SysGreeting => Request::Write {
                file: LogFile::System,
                content: Content::Greeting,
            },
            Phase::SysStartup => {
                Request::Write { file: LogFile::System, content: Content::Startup }
            },
            Phase::SysFlush => Request::Flush(LogFile::System),
            Phase::SysCloseFile => Request::Close(Handle::File(LogFile::System)),
            Phase::SysCloseRoot => Request::Close(Handle::Root),
            Phase::SysCloseVolume => Request::Close(Handle::Volume),
            Phase::Mount => Request::OpenVolume,
            Phase::SurveyParent => Request::OpenRoot,
            Phase::SurveyRootOpen => Request::OpenDir {
                parent: Handle::Root,
                child: Handle::SurveyRoot,
            },
            Phase::SurveyRootMake => Request::MakeDir {
                parent: Handle::Root,
                child: Handle::SurveyRoot,
            },
            Phase::SurveyRootReopen => Request::OpenDir {
                parent: Handle::Root,
                child: Handle::SurveyRoot,
            },
            Phase::CloseRoot => Request::Close(Handle::Root),
            Phase::SurveyOpen => Request::OpenDir {
                parent: Handle::SurveyRoot,
                child: Handle::Survey,
            },
            Phase::SurveyMake => Request::MakeDir {
                parent: Handle::SurveyRoot,
                child: Handle::Survey,
            },
            Phase::SurveyReopen => Request::OpenDir {
                parent: Handle::SurveyRoot,
                child: Handle::Survey,
            },
            Phase::CloseSurveyRoot => Request::Close(Handle::SurveyRoot),
            Phase::CounterOpen => Request::OpenFile {
                dir: Handle::Survey,
                file: LogFile::BootCounter,
                mode: OpenMode::ReadOnly,
            },
            Phase::CounterRead => Request::ReadCounter,
            Phase::CounterClose => Request::Close(Handle::File(LogFile::BootCounter)),
            Phase::Scan => Request::ScanSessions,
            Phase::ProbeOpen => Request::OpenDir { parent: Handle::Survey, child: Handle::Probe },
            Phase::ProbeClose => Request::Close(Handle::Probe),
            Phase::Rescan => Request::ScanSessions,
            Phase::CounterCreate => Request::OpenFile {
                dir: Handle::Survey,
                file: LogFile::BootCounter,
                mode: OpenMode::Overwrite,
            },
            Phase::CounterWrite => Request::Write {
                file: LogFile::BootCounter,
                content: Content::Counter(self.session + 1),
            },
            Phase::CounterFlush => Request::Flush(LogFile::BootCounter),
            Phase::CounterSaved => Request::Close(Handle::File(LogFile::BootCounter)),
            Phase::SessionMake => {
                Request::MakeDir { parent: Handle::Survey, child: Handle::Session }
            },
            Phase::SessionOpen => {
                Request::OpenDir { parent: Handle::Survey, child: Handle::Session }
            },
            Phase::CloseSurvey => Request::Close(Handle::Survey),
            Phase::LocalInspect => Request::Inspect { dir: Handle::Session, file: LogFile::Local },
            Phase::LocalOpen => Request::OpenFile {
                dir: Handle::Session,
                file: LogFile::Local,
                mode: mode_for(self.existed),
            },
            Phase::EventInspect => Request::Inspect { dir: Handle::Session, file: LogFile::Event },
            Phase::EventOpen => Request::OpenFile {
                dir: Handle::Session,
                file: LogFile::Event,
                mode: mode_for(self.existed),
            },
            Phase::MetaOpen => Request::OpenFile {
                dir: Handle::Session,
                file: LogFile::Meta,
                mode: OpenMode::Create,
            },
            Phase::MetaWrite => Request::Write { file: LogFile::Meta, content: Content::Metadata },
            Phase::MetaFlush => Request::Flush(LogFile::Meta),
            Phase::MetaClose => Request::Close(Handle::File(LogFile::Meta)),
            Phase::RxOpen => Request::OpenFile {
                dir: Handle::Session,
                file: LogFile::Rx,
                mode: OpenMode::Create,
            },
            Phase::DebugInspect => Request::Inspect { dir: Handle::Session, file: LogFile::Debug },
            Phase::DebugOpen => Request::OpenFile {
                dir: Handle::Session,
                file: LogFile::Debug,
                mode: mode_for(self.existed),
            },
            Phase::GlobalRoot => Request::OpenRoot,
            Phase::GlobalInspect => Request::Inspect { dir: Handle::Root, file: LogFile::Debug },
            Phase::GlobalOpen => Request::OpenFile {
                dir: Handle::Root,
                file: LogFile::Debug,
                mode: mode_for(self.existed),
            },
            Phase::Rollback(_) => Request::Close(self.items[self.depth - 1]),
            Phase::Online => Request::Nothing,
            Phase::Offline => Request::Nothing,
        }
    }

    /// The name of a directory that is to be opened or made.
    pub fn directory_name(&self, child: Handle) -> (name: Option<Text<8>>)
        ensures
            name is Some <==> directory_text(self@, child) is Some,
            name matches Some(text) ==> directory_text(self@, child) == Some(text@),
    {
        match child {
            Handle::SurveyRoot => Some(survey_root_name()),
            Handle::Survey => match self.survey {
                Some(survey_id) => Some(survey_directory_name(survey_id)),
                None => None,
            },
            Handle::Session => boot_session_directory_name(self.session),
            Handle::Probe => boot_session_directory_name(self.session),
            _ => None,
        }
    }

    /// The text that is to be written to a file; `None` where it does not fit.
    pub fn content_text(&self, content: Content, info: SystemInfo, start_mono_ms: u64) -> (text:
        Option<Text<METADATA_CAPACITY>>)
        requires
            self.inv(),
            content == Content::Metadata ==> bringup_request(self@) == (Request::Write {
                file: LogFile::Meta,
                content,
            }),
        ensures
            text is Some <==> byte_len(written_text(self@, content, info, start_mono_ms))
                <= METADATA_CAPACITY,
            text matches Some(line) ==> line@ == written_text(self@, content, info, start_mono_ms),
    {
        match content {
            Content::Greeting => Line::start("Hello GOLFER!\r\n").finish(),
            Content::Startup => Line::start("SYSTEM STARTUP\r\n").finish(),
            Content::Counter(next) => Line::start(boot_counter_text(next).as_str()).finish(),
            Content::Metadata => match self.survey {
                Some(survey_id) => metadata_record(survey_id, self.session, info, start_mono_ms),
                None => None,
            },
        }
    }

    /// What is logged from now on, once the card is up; `None` before and where it does not come
    /// up.
    pub fn storage(&self) -> (storage: Option<Storage>)
        ensures
            storage is Some <==> self@.phase == Phase::Online,
            storage matches Some(log) ==> {
                &&& log.mode == storage_mode(self@)
                &&& log.debug_online == self@.debug
                &&& log.debug_buffer@ == Seq::<char>::empty()
                &&& log.local_records_written == 0
                &&& log.utc_anchor is None
            },
    {
        match self.phase {
            Phase::Online => {
                let mode = match self.survey {
                    Some(survey_id) => StorageMode::Survey {
                        survey_id,
                        session_number: self.session,
                    },
                    None => StorageMode::Global,
                };
                Some(Storage::new(mode, self.debug))
            },
            _ => None,
        }
    }
}

fn mode_for(existed: bool) -> (mode: OpenMode)
    ensures
        mode == append_mode(existed),
{
    if existed {
        OpenMode::Append
    } else {
        OpenMode::Create
    }
}

fn survey_root_name() -> (name: Text<8>)
    ensures
        name@ == "SURVEY"@,
{
    proof {
        reveal_strlit("SURVEY");
        assert(vstd::utf8::is_ascii_chars("SURVEY"@));
        lemma_ascii_bytes("SURVEY"@, 8);
    }
    Line::start("SURVEY").finish().unwrap()
}

/// The name of a directory.
pub open spec fn directory_text(m: Model, child: Handle) -> Option<Seq<char>> {
    match child {
        Handle::SurveyRoot => Some("SURVEY"@),
        Handle::Survey => match m.survey {
            Some(survey_id) => Some(hex_fixed(survey_id as nat, 8)),
            None => None,
        },
        Handle::Session | Handle::Probe => if is_session(m.session as int) {
            Some(session_name(m.session as nat))
        } else {
            None
        },
        _ => None,
    }
}

/// The text that is written to a file.
pub open spec fn written_text(
    m: Model,
    content: Content,
    info: SystemInfo,
    start_mono_ms: u64,
) -> Seq<char> {
    match content {
        Content::Greeting => "Hello GOLFER!\r\n"@,
        Content::Startup => "SYSTEM STARTUP\r\n"@,
        Content::Counter(next) => counter_text(next as nat),
        Content::Metadata => metadata_text(m.survey->0, m.session, info, start_mono_ms),
    }
}

/// Whatever directory the bring-up asks to open or make, its name is known.
pub proof fn law_directories_have_names(m: Model)
    requires
        bringup_wf(m),
    ensures
        bringup_request(m) matches Request::OpenDir { child, .. } ==> directory_text(m, child)
            is Some,
        bringup_request(m) matches Request::MakeDir { child, .. } ==> directory_text(m, child)
            is Some,
{
}

/// The steps that take the card down: what was logged is made durable, and everything is closed.
pub open spec fn shutdown_steps(survey: bool, debug: bool) -> Seq<Request> {
    let first = if debug {
        seq![Request::Close(Handle::File(LogFile::Debug))]
    } else {
        Seq::empty()
    };
    let rest = if survey {
        seq![
            Request::Flush(LogFile::Rx),
            Request::Flush(LogFile::Local),
            Request::Flush(LogFile::Event),
            Request::Close(Handle::File(LogFile::Rx)),
            Request::Close(Handle::File(LogFile::Local)),
            Request::Close(Handle::File(LogFile::Event)),
            Request::Close(Handle::Session),
            Request::Close(Handle::Volume),
        ]
    } else {
        seq![Request::Close(Handle::Root), Request::Close(Handle::Volume)]
    };
    first + rest
}

/// The step at a place of those that take the card down; `None` behind the last.
pub fn shutdown_step(survey: bool, debug: bool, index: usize) -> (step: Option<Request>)
    ensures
        step == (if index < shutdown_steps(survey, debug).len() {
            Some(shutdown_steps(survey, debug)[index as int])
        } else {
            None
        }),
{
    if debug && index == 0 {
        return Some(Request::Close(Handle::File(LogFile::Debug)));
    }
    let place: usize = if debug {
        index - 1
    } else {
        index
    };
    if survey {
        match place {
            0 => Some(Request::Flush(LogFile::Rx)),
            1 => Some(Request::Flush(LogFile::Local)),
            2 => Some(Request::Flush(LogFile::Event)),
            3 => Some(Request::Close(Handle::File(LogFile::Rx))),
            4 => Some(Request::Close(Handle::File(LogFile::Local))),
            5 => Some(Request::Close(Handle::File(LogFile::Event))),
            6 => Some(Request::Close(Handle::Session)),
            7 => Some(Request::Close(Handle::Volume)),
            _ => None,
        }
    } else {
        match place {
            0 => Some(Request::Close(Handle::Root)),
            1 => Some(Request::Close(Handle::Volume)),
            _ => None,
        }
    }
}

/// The steps that make the records of a survey's session durable, in their order.
pub open spec fn checkpoint_steps() -> Seq<Request> {
    seq![
        Request::Flush(LogFile::Local),
        Request::Flush(LogFile::Rx),
        Request::Flush(LogFile::Event),
    ]
}

/// The step at a place of those that make the records of a survey's session durable; `None` behind
/// the last.
pub fn checkpoint_step(index: usize) -> (step: Option<Request>)
    ensures
        step == (if index < checkpoint_steps().len() {
            Some(checkpoint_steps()[index as int])
        } else {
            None
        }),
{
    match index {
        0 => Some(Request::Flush(LogFile::Local)),
        1 => Some(Request::Flush(LogFile::Rx)),
        2 => Some(Request::Flush(LogFile::Event)),
        _ => None,
    }
}

/// No file of a session is left out when its records are made durable: each that the bring-up left
/// open is among them, but for the diagnostic log, whose lines go out with the order to make them
/// durable.
pub proof fn law_checkpoint_covers_the_session(m: Model, index: int)
    requires
        bringup_wf(m),
        m.phase == Phase::Online,
        m.survey is Some,
        0 <= index < m.open.len(),
        m.open[index] is File,
        m.open[index] != Handle::File(LogFile::Debug),
    ensures
        checkpoint_steps().contains(Request::Flush(m.open[index]->File_0)),
{
    let steps = checkpoint_steps();
    assert(steps[0] == Request::Flush(LogFile::Local));
    assert(steps[1] == Request::Flush(LogFile::Rx));
    assert(steps[2] == Request::Flush(LogFile::Event));
}

/// Taking the card down closes each thing that the bring-up left open.
pub proof fn law_shutdown_closes_everything(m: Model, index: int)
    requires
        bringup_wf(m),
        m.phase == Phase::Online,
        0 <= index < m.open.len(),
    ensures
        shutdown_steps(m.survey is Some, m.debug).contains(Request::Close(m.open[index])),
{
    let steps = shutdown_steps(m.survey is Some, m.debug);
    let shift = if m.debug {
        1int
    } else {
        0int
    };
    if m.survey is Some {
        assert(steps[shift + 3] == Request::Close(Handle::File(LogFile::Rx)));
        assert(steps[shift + 4] == Request::Close(Handle::File(LogFile::Local)));
        assert(steps[shift + 5] == Request::Close(Handle::File(LogFile::Event)));
        assert(steps[shift + 6] == Request::Close(Handle::Session));
        assert(steps[shift + 7] == Request::Close(Handle::Volume));
    } else {
        assert(steps[shift] == Request::Close(Handle::Root));
        assert(steps[shift + 1] == Request::Close(Handle::Volume));
    }
    if m.debug {
        assert(steps[0] == Request::Close(Handle::File(LogFile::Debug)));
    }
}

} // verus!
