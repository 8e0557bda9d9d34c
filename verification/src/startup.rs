//! How a card comes up when its steps go well: the steps in their order.
//!
//! Nothing here is executed.
use vstd::prelude::*;

use crate::bringup::{
    bringup_next, bringup_request, checkpoint_steps, directory_text, fresh_model, shutdown_steps,
    storage_mode, written_text, Content, Handle, Model, OpenMode, Phase, Reply, Request,
};
use crate::reader::{read_hex, read_nat};
use crate::readback::law_session_names_read_back;
use crate::session::{
    counter_value,
    law_counter_text_reads_back,
    law_survey_names_read_back,
    LogFile,
};
use crate::storage::{logged_session, logged_survey};
use crate::system::SystemInfo;

verus! {

/// How a file is opened that is written behind what is there: it is made where it was not found.
pub open spec fn behind(found: bool) -> OpenMode {
    if found {
        OpenMode::Append
    } else {
        OpenMode::Create
    }
}

/// A card is woken and asked for its size, and the clock is raised only then.
pub proof fn law_card_is_woken(m: Model)
    requires
        m.phase is StartupClocks,
    ensures
        ({
            let m1 = bringup_next(m, Reply::Done);
            let m2 = bringup_next(m1, Reply::Done);
            let m3 = bringup_next(m2, Reply::Done);
            &&& bringup_request(m) == Request::StartupClocks
            &&& bringup_request(m1) == Request::CardSize
            &&& bringup_request(m2) == Request::RaiseSpeed
            &&& m3.phase is SysVolume
            &&& m3.open == m.open
            &&& m3.survey == m.survey
        }),
{
}

/// The system log is looked for in the root directory of the volume.
pub proof fn law_system_log_is_looked_for(m: Model, found: bool)
    requires
        m.phase is SysVolume,
    ensures
        ({
            let m1 = bringup_next(m, Reply::Done);
            let m2 = bringup_next(m1, Reply::Done);
            let m3 = bringup_next(m2, Reply::Found(found));
            &&& bringup_request(m) == Request::OpenVolume
            &&& bringup_request(m1) == Request::OpenRoot
            &&& bringup_request(m2) == Request::Inspect { dir: Handle::Root, file: LogFile::System }
            &&& m3.phase is SysOpen
            &&& m3.existed == found
            &&& m3.open =~= m.open.push(Handle::Volume).push(Handle::Root)
            &&& m3.survey == m.survey
        }),
{
}

/// A system log that is there is written behind its end.
pub proof fn law_system_log_goes_on(m: Model)
    requires
        m.phase is SysOpen,
        m.existed,
    ensures
        ({
            let m1 = bringup_next(m, Reply::Done);
            &&& bringup_request(m) == Request::OpenFile {
                dir: Handle::Root,
                file: LogFile::System,
                mode: OpenMode::Append,
            }
            &&& m1.phase is SysStartup
            &&& m1.open =~= m.open.push(Handle::File(LogFile::System))
            &&& m1.survey == m.survey
        }),
{
}

/// A system log that is not there is made, and gets a greeting before its first line.
pub proof fn law_new_system_log_is_greeted(m: Model)
    requires
        m.phase is SysOpen,
        !m.existed,
    ensures
        ({
            let m1 = bringup_next(m, Reply::Done);
            let m2 = bringup_next(m1, Reply::Done);
            &&& bringup_request(m) == Request::OpenFile {
                dir: Handle::Root,
                file: LogFile::System,
                mode: OpenMode::Create,
            }
            &&& bringup_request(m1) == Request::Write {
                file: LogFile::System,
                content: Content::Greeting,
            }
            &&& m2.phase is SysStartup
            &&& m2.open =~= m.open.push(Handle::File(LogFile::System))
            &&& m2.survey == m.survey
        }),
{
}

/// The start of the device is written to the system log and made durable.
pub proof fn law_start_is_logged(m: Model)
    requires
        m.phase is SysStartup,
    ensures
        ({
            let m1 = bringup_next(m, Reply::Done);
            let m2 = bringup_next(m1, Reply::Done);
            &&& bringup_request(m) == Request::Write {
                file: LogFile::System,
                content: Content::Startup,
            }
            &&& bringup_request(m1) == Request::Flush(LogFile::System)
            &&& m2.phase is SysCloseFile
            &&& m2.open == m.open
            &&& m2.survey == m.survey
        }),
{
}

/// The system log, the root directory and the volume are closed again, in this order.
pub proof fn law_system_log_is_closed(m: Model)
    requires
        m.phase is SysCloseFile,
        m.open == seq![Handle::Volume, Handle::Root, Handle::File(LogFile::System)],
    ensures
        ({
            let m1 = bringup_next(m, Reply::Done);
            let m2 = bringup_next(m1, Reply::Done);
            let m3 = bringup_next(m2, Reply::Done);
            &&& bringup_request(m) == Request::Close(Handle::File(LogFile::System))
            &&& bringup_request(m1) == Request::Close(Handle::Root)
            &&& bringup_request(m2) == Request::Close(Handle::Volume)
            &&& m3.phase is Mount
            &&& m3.open.len() == 0
            &&& m3.survey == m.survey
        }),
{
}

/// The directory of all surveys is opened in the root directory of the volume, which is closed
/// then.
pub proof fn law_surveys_are_reached(m: Model)
    requires
        m.phase is Mount,
        m.open.len() == 0,
        m.survey is Some,
    ensures
        ({
            let m1 = bringup_next(m, Reply::Done);
            let m2 = bringup_next(m1, Reply::Done);
            let m3 = bringup_next(m2, Reply::Done);
            let m4 = bringup_next(m3, Reply::Done);
            &&& bringup_request(m) == Request::OpenVolume
            &&& bringup_request(m1) == Request::OpenRoot
            &&& bringup_request(m2) == Request::OpenDir {
                parent: Handle::Root,
                child: Handle::SurveyRoot,
            }
            &&& bringup_request(m3) == Request::Close(Handle::Root)
            &&& m4.phase is SurveyOpen
            &&& m4.open =~= seq![Handle::Volume, Handle::SurveyRoot]
            &&& m4.survey == m.survey
        }),
{
}

/// The directory of the survey is opened in that of all surveys, which is closed then.
pub proof fn law_survey_is_reached(m: Model)
    requires
        m.phase is SurveyOpen,
        m.open == seq![Handle::Volume, Handle::SurveyRoot],
    ensures
        ({
            let m1 = bringup_next(m, Reply::Done);
            let m2 = bringup_next(m1, Reply::Done);
            &&& bringup_request(m) == Request::OpenDir {
                parent: Handle::SurveyRoot,
                child: Handle::Survey,
            }
            &&& bringup_request(m1) == Request::Close(Handle::SurveyRoot)
            &&& m2.phase is CounterOpen
            &&& m2.open =~= seq![Handle::Volume, Handle::Survey]
            &&& m2.survey == m.survey
        }),
{
}

/// A directory that cannot be opened on the way is made and opened again.
pub proof fn law_missing_directories_are_made(m: Model)
    requires
        m.phase is SurveyRootOpen,
    ensures
        ({
            let m1 = bringup_next(m, Reply::Failed);
            let m2 = bringup_next(m1, Reply::Done);
            let m3 = bringup_next(m2, Reply::Done);
            &&& bringup_request(m) == Request::OpenDir {
                parent: Handle::Root,
                child: Handle::SurveyRoot,
            }
            &&& bringup_request(m1) == Request::MakeDir {
                parent: Handle::Root,
                child: Handle::SurveyRoot,
            }
            &&& bringup_request(m2) == Request::OpenDir {
                parent: Handle::Root,
                child: Handle::SurveyRoot,
            }
            &&& m3.phase is CloseRoot
            &&& m3.open =~= m.open.push(Handle::SurveyRoot)
        }),
{
}

/// The directory of a survey that cannot be opened is made and opened again.
pub proof fn law_missing_survey_is_made(m: Model)
    requires
        m.phase is SurveyOpen,
    ensures
        ({
            let m1 = bringup_next(m, Reply::Failed);
            let m2 = bringup_next(m1, Reply::Done);
            let m3 = bringup_next(m2, Reply::Done);
            &&& bringup_request(m) == Request::OpenDir {
                parent: Handle::SurveyRoot,
                child: Handle::Survey,
            }
            &&& bringup_request(m1) == Request::MakeDir {
                parent: Handle::SurveyRoot,
                child: Handle::Survey,
            }
            &&& bringup_request(m2) == Request::OpenDir {
                parent: Handle::SurveyRoot,
                child: Handle::Survey,
            }
            &&& m3.phase is CloseSurveyRoot
            &&& m3.open =~= m.open.push(Handle::Survey)
        }),
{
}

/// The number of a session is the one in the counter file, where no directory with it is there.
pub proof fn law_counter_gives_the_number(m: Model, len: u8, data: [u8; 16])
    requires
        m.phase is CounterOpen,
        m.survey is Some,
        len <= 16,
        counter_value(data@.take(len as int)) matches Some(n) && 1 <= n <= 9_999_999,
    ensures
        ({
            let m1 = bringup_next(m, Reply::Done);
            let m2 = bringup_next(m1, Reply::Bytes { len, data });
            let m3 = bringup_next(m2, Reply::Done);
            let m4 = bringup_next(m3, Reply::Failed);
            &&& bringup_request(m) == Request::OpenFile {
                dir: Handle::Survey,
                file: LogFile::BootCounter,
                mode: OpenMode::ReadOnly,
            }
            &&& bringup_request(m1) == Request::ReadCounter
            &&& bringup_request(m2) == Request::Close(Handle::File(LogFile::BootCounter))
            &&& bringup_request(m3) == Request::OpenDir {
                parent: Handle::Survey,
                child: Handle::Probe,
            }
            &&& m4.phase is CounterCreate
            &&& Some(m4.session) == counter_value(data@.take(len as int))
            &&& m4.open =~= m.open
            &&& m4.survey == m.survey
        }),
{
}

/// Where there is a directory with the number in the counter file, the sessions are looked through,
/// and the number is the one behind the highest of them.
pub proof fn law_taken_number_is_passed(m: Model, highest: u32)
    requires
        m.phase is ProbeOpen,
        highest < 9_999_999,
    ensures
        ({
            let m1 = bringup_next(m, Reply::Done);
            let m2 = bringup_next(m1, Reply::Done);
            let m3 = bringup_next(m2, Reply::Highest(highest));
            &&& bringup_request(m) == Request::OpenDir {
                parent: Handle::Survey,
                child: Handle::Probe,
            }
            &&& bringup_request(m1) == Request::Close(Handle::Probe)
            &&& bringup_request(m2) == Request::ScanSessions
            &&& m3.phase is CounterCreate
            &&& m3.session == highest + 1
            &&& m3.open =~= m.open
            &&& m3.survey == m.survey
        }),
{
}

/// Without a counter file the sessions are looked through, and the number is the one behind the
/// highest of them, from 1 on.
pub proof fn law_missing_counter_is_made_good(m: Model, highest: u32)
    requires
        m.phase is CounterOpen,
        m.survey is Some,
        highest < 9_999_999,
    ensures
        ({
            let m1 = bringup_next(m, Reply::Failed);
            let m2 = bringup_next(m1, Reply::Highest(highest));
            let m3 = bringup_next(m2, Reply::Failed);
            &&& bringup_request(m) == Request::OpenFile {
                dir: Handle::Survey,
                file: LogFile::BootCounter,
                mode: OpenMode::ReadOnly,
            }
            &&& bringup_request(m1) == Request::ScanSessions
            &&& bringup_request(m2) == Request::OpenDir {
                parent: Handle::Survey,
                child: Handle::Probe,
            }
            &&& m3.phase is CounterCreate
            &&& m3.session == highest + 1
            &&& m3.open =~= m.open
            &&& m3.survey == m.survey
        }),
{
}

/// The number behind that of the session is written over the start of the counter file, made
/// durable and closed.
pub proof fn law_next_number_is_saved(m: Model)
    requires
        m.phase is CounterCreate,
        1 <= m.session <= 9_999_999,
    ensures
        ({
            let m1 = bringup_next(m, Reply::Done);
            let m2 = bringup_next(m1, Reply::Done);
            let m3 = bringup_next(m2, Reply::Done);
            let m4 = bringup_next(m3, Reply::Done);
            &&& bringup_request(m) == Request::OpenFile {
                dir: Handle::Survey,
                file: LogFile::BootCounter,
                mode: OpenMode::Overwrite,
            }
            &&& bringup_request(m1) == Request::Write {
                file: LogFile::BootCounter,
                content: Content::Counter((m.session + 1) as u32),
            }
            &&& bringup_request(m2) == Request::Flush(LogFile::BootCounter)
            &&& bringup_request(m3) == Request::Close(Handle::File(LogFile::BootCounter))
            &&& m4.phase is SessionMake
            &&& m4.open =~= m.open
            &&& m4.session == m.session
            &&& m4.survey == m.survey
        }),
{
}

/// The directory of the session is made and opened, and that of the survey is closed.
pub proof fn law_session_is_made(m: Model)
    requires
        m.phase is SessionMake,
        m.open == seq![Handle::Volume, Handle::Survey],
    ensures
        ({
            let m1 = bringup_next(m, Reply::Done);
            let m2 = bringup_next(m1, Reply::Done);
            let m3 = bringup_next(m2, Reply::Done);
            &&& bringup_request(m) == Request::MakeDir {
                parent: Handle::Survey,
                child: Handle::Session,
            }
            &&& bringup_request(m1) == Request::OpenDir {
                parent: Handle::Survey,
                child: Handle::Session,
            }
            &&& bringup_request(m2) == Request::Close(Handle::Survey)
            &&& m3.phase is LocalInspect
            &&& m3.open =~= seq![Handle::Volume, Handle::Session]
            &&& m3.session == m.session
            &&& m3.survey == m.survey
        }),
{
}

/// The logs of the own state and of events are opened, behind what is there.
pub proof fn law_logs_of_a_session(m: Model, local: bool, event: bool)
    requires
        m.phase is LocalInspect,
    ensures
        ({
            let m1 = bringup_next(m, Reply::Found(local));
            let m2 = bringup_next(m1, Reply::Done);
            let m3 = bringup_next(m2, Reply::Found(event));
            let m4 = bringup_next(m3, Reply::Done);
            &&& bringup_request(m) == Request::Inspect {
                dir: Handle::Session,
                file: LogFile::Local,
            }
            &&& bringup_request(m1) == Request::OpenFile {
                dir: Handle::Session,
                file: LogFile::Local,
                mode: behind(local),
            }
            &&& bringup_request(m2) == Request::Inspect {
                dir: Handle::Session,
                file: LogFile::Event,
            }
            &&& bringup_request(m3) == Request::OpenFile {
                dir: Handle::Session,
                file: LogFile::Event,
                mode: behind(event),
            }
            &&& m4.phase is MetaOpen
            &&& m4.session == m.session
            &&& m4.survey == m.survey
            &&& m4.debug == m.debug
            &&& m4.open =~= m.open.push(
                Handle::File(LogFile::Local)
            ).push(Handle::File(LogFile::Event))
        }),
{
}

/// The description of the session is made, written, made durable and closed.
pub proof fn law_description_of_a_session(m: Model)
    requires
        m.phase is MetaOpen,
    ensures
        ({
            let m1 = bringup_next(m, Reply::Done);
            let m2 = bringup_next(m1, Reply::Done);
            let m3 = bringup_next(m2, Reply::Done);
            let m4 = bringup_next(m3, Reply::Done);
            &&& bringup_request(m) == Request::OpenFile {
                dir: Handle::Session,
                file: LogFile::Meta,
                mode: OpenMode::Create,
            }
            &&& bringup_request(m1) == Request::Write {
                file: LogFile::Meta,
                content: Content::Metadata,
            }
            &&& bringup_request(m2) == Request::Flush(LogFile::Meta)
            &&& bringup_request(m3) == Request::Close(Handle::File(LogFile::Meta))
            &&& m4.phase is RxOpen
            &&& m4.session == m.session
            &&& m4.survey == m.survey
            &&& m4.debug == m.debug
            &&& m4.open =~= m.open
        }),
{
}

/// The log of packets is made last, and the diagnostic log is opened, behind what is there. All
/// logs stay open, and the card is up.
pub proof fn law_last_files_of_a_session(m: Model, debug: bool)
    requires
        m.phase is RxOpen,
    ensures
        ({
            let m1 = bringup_next(m, Reply::Done);
            let m2 = bringup_next(m1, Reply::Found(debug));
            let m3 = bringup_next(m2, Reply::Done);
            &&& bringup_request(m) == Request::OpenFile {
                dir: Handle::Session,
                file: LogFile::Rx,
                mode: OpenMode::Create,
            }
            &&& bringup_request(m1) == Request::Inspect {
                dir: Handle::Session,
                file: LogFile::Debug,
            }
            &&& bringup_request(m2) == Request::OpenFile {
                dir: Handle::Session,
                file: LogFile::Debug,
                mode: behind(debug),
            }
            &&& m3.phase is Online
            &&& m3.debug
            &&& bringup_request(m3) is Nothing
            &&& m3.session == m.session
            &&& m3.survey == m.survey
            &&& m3.open =~= m.open.push(Handle::File(LogFile::Rx)).push(
                Handle::File(LogFile::Debug)
            )
        }),
{
}

/// Without a survey the diagnostic log in the root directory is all that is logged to.
pub proof fn law_diagnostics_alone(m: Model, debug: bool)
    requires
        m.phase is GlobalRoot,
        m.open == seq![Handle::Volume],
    ensures
        ({
            let m1 = bringup_next(m, Reply::Done);
            let m2 = bringup_next(m1, Reply::Found(debug));
            let m3 = bringup_next(m2, Reply::Done);
            &&& bringup_request(m) == Request::OpenRoot
            &&& bringup_request(m1) == Request::Inspect { dir: Handle::Root, file: LogFile::Debug }
            &&& bringup_request(m2) == Request::OpenFile {
                dir: Handle::Root,
                file: LogFile::Debug,
                mode: behind(debug),
            }
            &&& m3.phase is Online
            &&& m3.debug
            &&& m3.survey is None
            &&& bringup_request(m3) is Nothing
            &&& m3.open =~= seq![Handle::Volume, Handle::Root, Handle::File(LogFile::Debug)]
        }),
{
}

/// A bring-up begins with nothing open, by waking the card. Once it is up, the logs go into the
/// session of the survey, or only diagnostics are logged where there is no survey.
pub proof fn law_where_the_logs_go(m: Model, survey: Option<u32>)
    ensures
        bringup_request(fresh_model(survey)) is StartupClocks,
        fresh_model(survey).phase is StartupClocks,
        fresh_model(survey).open.len() == 0,
        fresh_model(survey).survey == survey,
        !fresh_model(survey).debug,
        logged_survey(storage_mode(m)) == m.survey,
        m.survey is Some ==> logged_session(storage_mode(m)) == m.session,
        m.survey is None ==> storage_mode(m) is Global,
{
}

/// A device that is to log no survey goes to the diagnostics at once, and one whose card cannot be
/// mounted gives up.
pub proof fn law_start_without_a_survey(m: Model)
    requires
        m.phase is Mount,
        m.open.len() == 0,
        m.survey is None,
    ensures
        bringup_next(m, Reply::Done).phase is GlobalRoot,
        bringup_next(m, Reply::Done).open =~= seq![Handle::Volume],
        bringup_next(m, Reply::Failed).phase is Offline,
{
}

/// A card that does not answer is given up at once, and one whose system log fails is used without
/// it: what was opened for the log is closed, the last first.
pub proof fn law_early_faults(m: Model)
    ensures
        m.phase is StartupClocks && m.open.len() == 0 ==> bringup_next(
            m,
            Reply::Failed,
        ).phase is Offline,
        m.phase is CardSize && m.open.len() == 0 ==> bringup_next(
            m,
            Reply::Failed,
        ).phase is Offline,
        m.phase is SysVolume && m.open.len() == 0 ==> bringup_next(m, Reply::Failed).phase is Mount,
        (m.phase is SysGreeting || m.phase is SysStartup || m.phase is SysFlush) && m.open == seq![
            Handle::Volume,
            Handle::Root,
            Handle::File(LogFile::System),
        ] ==> {
            let a = bringup_next(m, Reply::Failed);
            let b = bringup_next(a, Reply::Done);
            let c = bringup_next(b, Reply::Done);
            let d = bringup_next(c, Reply::Done);
            &&& bringup_request(a) == Request::Close(Handle::File(LogFile::System))
            &&& bringup_request(b) == Request::Close(Handle::Root)
            &&& bringup_request(c) == Request::Close(Handle::Volume)
            &&& d.phase is Mount
            &&& d.open.len() == 0
        },
{
    if m.open == seq![Handle::Volume, Handle::Root, Handle::File(LogFile::System)] {
        assert(m.open.drop_last() =~= seq![Handle::Volume, Handle::Root]);
        assert(m.open.drop_last().drop_last() =~= seq![Handle::Volume]);
    }
}

/// The directories have their names: that of all surveys is `SURVEY`, a survey's reads back as its
/// number, and that of a session, made or looked for, as the session's.
pub proof fn law_names_of_directories(m: Model)
    requires
        m.survey is Some,
        1 <= m.session <= 9_999_999,
    ensures
        directory_text(m, Handle::SurveyRoot) == Some("SURVEY"@),
        read_hex(directory_text(m, Handle::Survey)->0) == Some(m.survey->0 as int),
        directory_text(m, Handle::Survey)->0.len() == 8,
        directory_text(m, Handle::Session)->0[0] == 'B',
        read_nat(directory_text(m, Handle::Session)->0.skip(1)) == Some(m.session as int),
        directory_text(m, Handle::Probe) == directory_text(m, Handle::Session),
{
    law_survey_names_read_back(m.survey->0);
    law_session_names_read_back(m.session as nat);
}

/// What is written is what its kind says: the greeting, the line of a start, and the number of the
/// next session.
pub proof fn law_what_is_written(m: Model, next: u32, info: SystemInfo, start_mono_ms: u64)
    ensures
        written_text(m, Content::Greeting, info, start_mono_ms) == "Hello GOLFER!\r\n"@,
        written_text(m, Content::Startup, info, start_mono_ms) == "SYSTEM STARTUP\r\n"@,
        read_nat(written_text(m, Content::Counter(next), info, start_mono_ms).drop_last()) == Some(
            next as int,
        ),
{
    law_counter_text_reads_back(next as nat);
}

/// Taking the card down makes the three logs of a session durable before any of them is closed, and
/// closes the files before the directory that they lie in, and the volume last. Nothing else is
/// done.
pub proof fn law_card_is_taken_down_in_order(survey: bool, debug: bool)
    ensures
        ({
            let steps = shutdown_steps(survey, debug);
            let at: int = if debug {
                1
            } else {
                0
            };
            &&& debug ==> steps[0] == Request::Close(Handle::File(LogFile::Debug))
            &&& steps.last() == Request::Close(Handle::Volume)
            &&& survey ==> {
                &&& steps.len() == at + 8
                &&& steps[at] == Request::Flush(LogFile::Rx)
                &&& steps[at + 1] == Request::Flush(LogFile::Local)
                &&& steps[at + 2] == Request::Flush(LogFile::Event)
                &&& steps[at + 3] == Request::Close(Handle::File(LogFile::Rx))
                &&& steps[at + 4] == Request::Close(Handle::File(LogFile::Local))
                &&& steps[at + 5] == Request::Close(Handle::File(LogFile::Event))
                &&& steps[at + 6] == Request::Close(Handle::Session)
            }
            &&& !survey ==> steps.len() == at + 2 && steps[at] == Request::Close(Handle::Root)
        }),
        checkpoint_steps().len() == 3,
        checkpoint_steps()[0] == Request::Flush(LogFile::Local),
        checkpoint_steps()[1] == Request::Flush(LogFile::Rx),
        checkpoint_steps()[2] == Request::Flush(LogFile::Event),
{
}

} // verus!
