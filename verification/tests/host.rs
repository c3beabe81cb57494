use azookey::activation::{
    keep_first_error, Activation, ActivationEffect, ActivationNext, ActivationReply, Clearing,
    ClearingNext, ClearingReply, Deactivation, DeactivationNext, Teardown,
};
use azookey::compartments::{
    compartment_updates, input_mode_from_compartments, AdvisingNext, Compartment,
    CompartmentEffect, CompartmentReply, UnadvisingNext, GUID_COMPARTMENT_KEYBOARD_OPENCLOSE,
    HIRAGANA_CONVERSION_MODE,
};
use azookey::composition::CompositionState;
use azookey::edit_session::{
    caret_anchor, position_source, session_flags, take_detached_result, take_sync_result, Anchor,
    PositionSource, PositionUpdate, RangeOp, SessionKind, StartPlan, UpdatePosCompletion,
};
use azookey::input_mode::InputMode;
use azookey::key_handling::TextServiceFactory;
use azookey::key_registration::{KeyReport, RegistrationEffect, RegistrationNext, RegistrationReply};
use azookey::keys::{
    input_mode_preserved_keys, preserved_key_detail, preserved_key_event, KeyDown, KeyEvent,
    ModeKeyEvent, PreservedKeyEvent, TestKeyDown, CONNECT_E_NOCONNECTION, PRESERVED_ALT_GRAVE,
    PRESERVED_KANJI,
};
use azookey::mode_sync::{
    ActivateNext, CompartmentChange, ModeReport, ModeResult, SyncNext, WriteNext,
};
use azookey::registrations::{
    LangBarNext, LayoutAdvisingNext, LayoutEffect, LayoutRemoval, LayoutSink, RegisterEffect,
    RegisterReply, RegisteringNext, UnregisteringNext,
};
use azookey::surrounding_text::{
    context_for_server, preceding_range, text_from_utf16, ContextEffect, ContextNext,
    ContextReply, ParentEffect, ParentNext, ParentReply, ParentSearch, TS_SS_TRANSITORY,
};
use azookey::text_service::{HostError, MissingHandle, PendingInputModeTransition, TextService};

const BUSY: HostError = HostError::Unavailable;

/// A service that is known to the host.
fn service() -> TextServiceFactory {
    TextServiceFactory {
        text_service: TextService {
            tid: 5,
            thread_mgr: Some(10),
            context: Some(11),
            this: Some(12),
            ..TextService::default()
        },
    }
}

/// The host's compartments, with the sinks that listen to them.
struct Compartments {
    open_close: Option<i32>,
    conversion: Option<i32>,
    sinks: Vec<(Compartment, u32)>,
    next_cookie: u32,
    guarded: bool,
    fails: Vec<CompartmentEffect>,
    log: Vec<CompartmentEffect>,
}

impl Compartments {
    fn new(open_close: Option<i32>, conversion: Option<i32>) -> Compartments {
        Compartments {
            open_close,
            conversion,
            sinks: Vec::new(),
            next_cookie: 100,
            guarded: false,
            fails: Vec::new(),
            log: Vec::new(),
        }
    }

    fn perform(
        &mut self,
        service: &mut TextServiceFactory,
        effect: CompartmentEffect,
    ) -> CompartmentReply {
        self.log.push(effect);
        if self.fails.contains(&effect) {
            return CompartmentReply::Failed(BUSY);
        }
        match effect {
            CompartmentEffect::Advise(compartment) => {
                self.next_cookie += 1;
                self.sinks.push((compartment, self.next_cookie));
                CompartmentReply::Cookie(self.next_cookie)
            }
            CompartmentEffect::Unadvise(compartment, cookie) => {
                self.sinks.retain(|sink| *sink != (compartment, cookie));
                CompartmentReply::Done
            }
            CompartmentEffect::StoreCookies {
                open_close,
                conversion,
            } => {
                service.store_compartment_cookies(open_close, conversion);
                CompartmentReply::Done
            }
            CompartmentEffect::RetainOpenClose(cookie) => {
                let conversion = service.text_service.conversion_mode_cookie;
                service.store_compartment_cookies(Some(cookie), conversion);
                CompartmentReply::Done
            }
            CompartmentEffect::ClearCookie(compartment, cookie) => {
                service.clear_compartment_cookie(compartment, cookie);
                CompartmentReply::Done
            }
            CompartmentEffect::Read(Compartment::OpenClose) => {
                CompartmentReply::Value(self.open_close)
            }
            CompartmentEffect::Read(Compartment::Conversion) => {
                CompartmentReply::Value(self.conversion)
            }
            CompartmentEffect::Write(compartment, value) => {
                match compartment {
                    Compartment::OpenClose => self.open_close = Some(value),
                    Compartment::Conversion => self.conversion = Some(value),
                }
                CompartmentReply::Done
            }
            CompartmentEffect::StoreMode(mode) => CompartmentReply::Changed(service.store_mode(mode)),
            CompartmentEffect::SnapshotIpc => CompartmentReply::Ipc(true),
            CompartmentEffect::GuardWrites(in_progress) => {
                self.guarded = in_progress;
                service.guard_writes(in_progress);
                CompartmentReply::Done
            }
            CompartmentEffect::Find
            | CompartmentEffect::UpdateLanguageBar
            | CompartmentEffect::ShowMode(_) => CompartmentReply::Done,
        }
    }

    fn advise(&mut self, service: &mut TextServiceFactory) -> Result<(), HostError> {
        let mut next = service.advise_input_mode_compartments();
        loop {
            match next {
                AdvisingNext::Finished(result) => return result,
                AdvisingNext::Waiting(advising) => {
                    let reply = self.perform(service, advising.effect());
                    next = advising.resume(reply);
                }
            }
        }
    }

    fn unadvise(&mut self, service: &mut TextServiceFactory) -> Result<(), HostError> {
        let mut next = service.unadvise_input_mode_compartments();
        loop {
            match next {
                UnadvisingNext::Finished(result) => return result,
                UnadvisingNext::Waiting(work) => {
                    let reply = self.perform(service, work.effect());
                    next = work.resume(reply);
                }
            }
        }
    }

    fn set_mode(
        &mut self,
        service: &mut TextServiceFactory,
        mode: InputMode,
    ) -> (Vec<ModeReport>, Result<InputMode, HostError>) {
        let (report, work) = service.set_input_mode_compartments(mode);
        let mut reports = vec![report];
        let mut next = WriteNext::Waiting(work);
        loop {
            match next {
                WriteNext::Finished(result) => return (reports, result),
                WriteNext::Waiting(work) => {
                    let reply = self.perform(service, work.effect());
                    let (report, following) = work.resume(reply);
                    reports.extend(report);
                    next = following;
                }
            }
        }
    }

    fn sync(
        &mut self,
        service: &mut TextServiceFactory,
    ) -> (Vec<ModeReport>, Result<InputMode, HostError>) {
        let mut reports = Vec::new();
        let mut next = service.sync_input_mode_from_compartments(false);
        loop {
            match next {
                SyncNext::Finished(result) => return (reports, result),
                SyncNext::Waiting(work) => {
                    let reply = self.perform(service, work.effect());
                    let (report, following) = work.resume(reply);
                    reports.extend(report);
                    next = following;
                }
            }
        }
    }

    fn activate(
        &mut self,
        service: &mut TextServiceFactory,
    ) -> (Vec<ModeReport>, Result<(), HostError>) {
        let mut reports = Vec::new();
        let mut next = service.activate_input_mode_compartments();
        loop {
            match next {
                ActivateNext::Finished(result) => return (reports, result),
                ActivateNext::Waiting(stage) => {
                    let reply = self.perform(service, stage.effect());
                    let (report, following) = service.resume_compartments(stage, reply);
                    reports.extend(report);
                    next = following;
                }
            }
        }
    }
}

#[test]
fn a_written_mode_reads_back() {
    for mode in [InputMode::Latin, InputMode::Kana] {
        for open_close in [None, Some(0), Some(1)] {
            for conversion in [None, Some(0), Some(HIRAGANA_CONVERSION_MODE)] {
                let mut host = Compartments::new(open_close, conversion);
                for update in compartment_updates(mode) {
                    match update.write() {
                        (Compartment::OpenClose, value) => host.open_close = Some(value),
                        (Compartment::Conversion, value) => host.conversion = Some(value),
                    }
                }
                assert_eq!(
                    input_mode_from_compartments(host.open_close, host.conversion),
                    mode
                );
            }
        }
    }
}

#[test]
fn listening_keeps_both_cookies() {
    let mut service = service();
    let mut host = Compartments::new(None, None);
    assert_eq!(host.advise(&mut service), Ok(()));
    assert_eq!(service.text_service.open_close_cookie, Some(101));
    assert_eq!(service.text_service.conversion_mode_cookie, Some(102));
    assert_eq!(host.unadvise(&mut service), Ok(()));
    assert!(host.sinks.is_empty());
    assert_eq!(service.text_service.open_close_cookie, None);
    assert_eq!(service.text_service.conversion_mode_cookie, None);
    assert_eq!(host.unadvise(&mut service), Ok(()));
}

#[test]
fn half_a_registration_is_taken_back() {
    let mut service = service();
    let mut host = Compartments::new(None, None);
    host.fails = vec![CompartmentEffect::Advise(Compartment::Conversion)];
    assert_eq!(host.advise(&mut service), Err(BUSY));
    assert!(host.sinks.is_empty());
    assert_eq!(service.text_service.open_close_cookie, None);

    host.fails
        .push(CompartmentEffect::Unadvise(Compartment::OpenClose, 102));
    assert_eq!(host.advise(&mut service), Err(BUSY));
    assert_eq!(host.sinks, [(Compartment::OpenClose, 102)]);
    assert_eq!(service.text_service.open_close_cookie, Some(102));
}

#[test]
fn cookies_that_cannot_be_kept_are_taken_back() {
    let mut service = service();
    let mut host = Compartments::new(None, None);
    host.fails = vec![
        CompartmentEffect::StoreCookies {
            open_close: Some(101),
            conversion: Some(102),
        },
        CompartmentEffect::Unadvise(Compartment::Conversion, 102),
    ];
    assert_eq!(host.advise(&mut service), Err(BUSY));
    assert_eq!(host.sinks, [(Compartment::Conversion, 102)]);
    assert_eq!(service.text_service.open_close_cookie, None);
    assert_eq!(service.text_service.conversion_mode_cookie, Some(102));
}

#[test]
fn a_sink_that_stays_keeps_its_cookie() {
    let mut service = service();
    let mut host = Compartments::new(None, None);
    host.advise(&mut service).unwrap();
    host.fails = vec![CompartmentEffect::Unadvise(Compartment::OpenClose, 101)];
    assert_eq!(host.unadvise(&mut service), Err(BUSY));
    assert_eq!(service.text_service.open_close_cookie, Some(101));
    assert_eq!(service.text_service.conversion_mode_cookie, None);
    host.fails.clear();
    assert_eq!(host.unadvise(&mut service), Ok(()));
    assert!(host.sinks.is_empty());
}

#[test]
fn a_mode_command_writes_under_the_guard() {
    let mut service = service();
    let mut host = Compartments::new(Some(0), Some(0));
    let (reports, result) = host.set_mode(&mut service, InputMode::Kana);
    assert_eq!(result, Ok(InputMode::Kana));
    assert_eq!(service.text_service.mode, InputMode::Kana);
    assert!(!service.text_service.compartment_write_in_progress);
    assert_eq!(
        host.log,
        [
            CompartmentEffect::StoreMode(InputMode::Kana),
            CompartmentEffect::UpdateLanguageBar,
            CompartmentEffect::SnapshotIpc,
            CompartmentEffect::ShowMode(InputMode::Kana),
            CompartmentEffect::Find,
            CompartmentEffect::GuardWrites(true),
            CompartmentEffect::Read(Compartment::Conversion),
            CompartmentEffect::Write(Compartment::Conversion, HIRAGANA_CONVERSION_MODE),
            CompartmentEffect::Read(Compartment::OpenClose),
            CompartmentEffect::Write(Compartment::OpenClose, 1),
            CompartmentEffect::GuardWrites(false),
            CompartmentEffect::Find,
            CompartmentEffect::Read(Compartment::OpenClose),
            CompartmentEffect::Read(Compartment::Conversion),
            CompartmentEffect::StoreMode(InputMode::Kana),
        ]
    );
    let lines: Vec<(&str, String)> = reports
        .iter()
        .map(|report| (report.event(), report.detail()))
        .collect();
    assert_eq!(
        lines,
        [
            ("mode_request", "requested=Kana".to_owned()),
            (
                "compartment_state",
                "open_close=Some(1) conversion=Some(25) resolved=Kana".to_owned()
            ),
            (
                "mode_result",
                "requested=Kana actual=Kana status=ok".to_owned()
            ),
        ]
    );
}

#[test]
fn values_that_stand_are_not_written_again() {
    let mut service = service();
    service.store_mode(InputMode::Kana);
    let mut host = Compartments::new(Some(1), Some(HIRAGANA_CONVERSION_MODE));
    let (_, result) = host.set_mode(&mut service, InputMode::Kana);
    assert_eq!(result, Ok(InputMode::Kana));
    assert!(!host
        .log
        .iter()
        .any(|effect| matches!(effect, CompartmentEffect::Write(..))));
}

#[test]
fn a_failed_write_is_rolled_back() {
    let mut service = service();
    let mut host = Compartments::new(Some(0), Some(HIRAGANA_CONVERSION_MODE));
    host.fails = vec![CompartmentEffect::Write(Compartment::OpenClose, 1)];
    let (reports, result) = host.set_mode(&mut service, InputMode::Kana);
    assert_eq!(result, Err(BUSY));
    assert_eq!(service.text_service.mode, InputMode::Latin);
    assert!(!service.text_service.compartment_write_in_progress);
    assert_eq!(
        reports.last(),
        Some(&ModeReport::Result {
            requested: InputMode::Kana,
            result: ModeResult::WriteError(InputMode::Latin),
        })
    );
    assert_eq!(
        reports.last().unwrap().detail(),
        "requested=Kana actual=Latin status=write_error"
    );
}

#[test]
fn other_failures_of_a_mode_command_are_told_apart() {
    let run = |fails: Vec<CompartmentEffect>| {
        let mut service = service();
        let mut host = Compartments::new(Some(0), Some(HIRAGANA_CONVERSION_MODE));
        host.fails = fails;
        let (reports, result) = host.set_mode(&mut service, InputMode::Kana);
        assert_eq!(result, Err(BUSY));
        reports.last().unwrap().detail()
    };
    assert_eq!(
        run(vec![CompartmentEffect::StoreMode(InputMode::Kana)]),
        "requested=Kana status=apply_error"
    );
    let unreadable = CompartmentEffect::StoreMode(InputMode::Latin);
    assert_eq!(
        run(vec![
            CompartmentEffect::Write(Compartment::OpenClose, 1),
            unreadable
        ]),
        "requested=Kana status=write_and_sync_error"
    );
    let mut service = service();
    let mut host = Compartments::new(Some(0), Some(HIRAGANA_CONVERSION_MODE));
    host.fails = vec![CompartmentEffect::Read(Compartment::Conversion)];
    let (reports, result) = host.set_mode(&mut service, InputMode::Latin);
    assert_eq!(result, Err(BUSY));
    assert_eq!(
        reports.last().unwrap().detail(),
        "requested=Latin status=sync_error"
    );
}

#[test]
fn activation_normalizes_the_conversion() {
    let mut active = service();
    let mut host = Compartments::new(Some(1), Some(0));
    let (reports, result) = host.activate(&mut active);
    assert_eq!(result, Ok(()));
    assert_eq!(host.conversion, Some(HIRAGANA_CONVERSION_MODE));
    assert_eq!(host.open_close, Some(1));
    assert_eq!(active.text_service.mode, InputMode::Kana);
    assert_eq!(reports[0].event(), "compartment_normalize");
    assert_eq!(reports[0].detail(), "conversion=25 changed=true");
    let (reports, _) = Compartments::new(Some(1), Some(HIRAGANA_CONVERSION_MODE))
        .activate(&mut service());
    assert_eq!(reports[0].detail(), "conversion=25 changed=false");
}

#[test]
fn the_mode_is_read_from_the_thread_manager() {
    let mut service = service();
    assert_eq!(service.input_mode_compartment_mgr(), Ok((10, 5)));
    service.text_service.thread_mgr = None;
    let missing = HostError::Missing(MissingHandle::ThreadMgr);
    assert_eq!(service.input_mode_compartment_mgr(), Err(missing));
    let mut host = Compartments::new(Some(1), None);
    assert_eq!(host.sync(&mut service), (vec![], Err(missing)));
}

#[test]
fn kept_cookies_need_a_thread_manager_to_be_given_back() {
    let mut host = Compartments::new(Some(1), Some(HIRAGANA_CONVERSION_MODE));
    let mut service = service();
    host.advise(&mut service).unwrap();
    service.text_service.thread_mgr = None;
    host.log.clear();
    assert_eq!(
        host.unadvise(&mut service),
        Err(HostError::Missing(MissingHandle::ThreadMgr))
    );
    assert!(host.log.is_empty());
    assert!(service.text_service.open_close_cookie.is_some());
    service.store_compartment_cookies(None, None);
    assert_eq!(host.unadvise(&mut service), Ok(()));
}

#[test]
fn compartments_need_a_thread_manager_and_a_sink() {
    let mut service = service();
    service.text_service.this = None;
    let mut host = Compartments::new(Some(1), None);
    let (_, result) = host.activate(&mut service);
    assert_eq!(result, Err(HostError::Missing(MissingHandle::This)));
    assert_eq!(host.log, [CompartmentEffect::Find]);

    host.fails = vec![CompartmentEffect::Find];
    assert_eq!(host.advise(&mut service), Err(BUSY));

    service.text_service.thread_mgr = None;
    let mut host = Compartments::new(Some(1), None);
    let missing = HostError::Missing(MissingHandle::ThreadMgr);
    assert_eq!(host.activate(&mut service).1, Err(missing));
    assert_eq!(host.advise(&mut service), Err(missing));
    assert!(host.log.is_empty());
}

#[test]
fn a_failed_start_stops_listening() {
    let mut service = service();
    let mut host = Compartments::new(Some(1), None);
    host.fails = vec![CompartmentEffect::Write(
        Compartment::Conversion,
        HIRAGANA_CONVERSION_MODE,
    )];
    let (_, result) = host.activate(&mut service);
    assert_eq!(result, Err(BUSY));
    assert!(host.sinks.is_empty());
    assert_eq!(service.text_service.open_close_cookie, None);
}

#[test]
fn changes_from_outside_wait_for_a_key() {
    let mut service = service();
    service.store_mode(InputMode::Kana);
    service.text_service.composition.state = CompositionState::Composing;
    let change = service.compartment_changed(Some(GUID_COMPARTMENT_KEYBOARD_OPENCLOSE));
    assert_eq!(
        change,
        CompartmentChange::Sync {
            compartment: Compartment::OpenClose,
            previous: InputMode::Kana,
        }
    );
    assert_eq!(ModeReport::Change(Compartment::OpenClose).detail(), "kind=open_close");
    assert_eq!(ModeReport::Change(Compartment::Conversion).detail(), "kind=conversion");
    let mut host = Compartments::new(Some(0), None);
    let (_, result) = host.sync(&mut service);
    assert_eq!(result, Ok(InputMode::Latin));
    service.finish_compartment_change(InputMode::Kana, InputMode::Latin);
    assert_eq!(
        service.text_service.pending_input_mode_transition,
        Some(PendingInputModeTransition {
            from: InputMode::Kana,
            to: InputMode::Latin,
        })
    );
}

#[test]
fn changes_under_the_guard_are_ignored() {
    let mut service = service();
    assert_eq!(service.compartment_changed(None), CompartmentChange::NullGuid);
    assert_eq!(service.compartment_changed(Some(7)), CompartmentChange::Ignored);
    service.guard_writes(true);
    assert_eq!(
        service.compartment_changed(Some(Compartment::Conversion.guid())),
        CompartmentChange::Ignored
    );
}

/// Registers one thing over the given replies, and returns the end and the work
/// that was asked for.
fn register(
    mut next: RegisteringNext<u32>,
    replies: Vec<RegisterReply<u32>>,
) -> (Result<(), HostError>, Vec<RegisterEffect<u32>>) {
    let mut replies = replies.into_iter();
    let mut effects = Vec::new();
    loop {
        match next {
            RegisteringNext::Finished(result) => return (result, effects),
            RegisteringNext::Waiting(work) => {
                effects.push(work.effect());
                next = work.resume(replies.next().unwrap());
            }
        }
    }
}

#[test]
fn a_registration_that_cannot_be_kept_is_taken_back() {
    let service = service();
    assert_eq!(
        register(
            service.advise_thread_mgr_event_sink(),
            vec![RegisterReply::Registered(7), RegisterReply::Done]
        ),
        (
            Ok(()),
            vec![RegisterEffect::Register, RegisterEffect::Keep(7)]
        )
    );
    assert_eq!(
        register(
            service.advise_thread_mgr_event_sink(),
            vec![
                RegisterReply::Registered(7),
                RegisterReply::Failed(BUSY),
                RegisterReply::Done,
            ]
        ),
        (
            Err(BUSY),
            vec![
                RegisterEffect::Register,
                RegisterEffect::Keep(7),
                RegisterEffect::Unregister(7),
            ]
        )
    );
    assert_eq!(
        register(
            service.advise_thread_mgr_event_sink(),
            vec![
                RegisterReply::Registered(7),
                RegisterReply::Failed(BUSY),
                RegisterReply::Failed(HostError::Refused(-1)),
                RegisterReply::Done,
            ]
        ),
        (
            Err(BUSY),
            vec![
                RegisterEffect::Register,
                RegisterEffect::Keep(7),
                RegisterEffect::Unregister(7),
                RegisterEffect::Keep(7),
            ]
        )
    );
}

#[test]
fn registrations_need_their_handles() {
    let unknown = TextServiceFactory::new();
    assert_eq!(
        unknown.advise_thread_mgr_event_sink(),
        RegisteringNext::Finished(Err(HostError::Missing(MissingHandle::ThreadMgr)))
    );
    assert_eq!(
        unknown.add_lang_bar_item(),
        RegisteringNext::Finished(Err(HostError::Missing(MissingHandle::ThreadMgr)))
    );
    assert_eq!(
        unknown.unadvise_thread_mgr_event_sink(),
        UnregisteringNext::Finished(Ok(()))
    );
    assert_eq!(
        unknown.update_lang_bar(),
        LangBarNext::Finished(Err(HostError::Missing(MissingHandle::ThreadMgr)))
    );
}

#[test]
fn a_registration_is_made_once() {
    let mut service = service();
    service.store_thread_mgr_cookie(7);
    assert_eq!(
        service.advise_thread_mgr_event_sink(),
        RegisteringNext::Finished(Ok(()))
    );
    service.mark_lang_bar(true);
    assert_eq!(service.add_lang_bar_item(), RegisteringNext::Finished(Ok(())));
}

#[test]
fn taking_a_registration_back_can_be_repeated() {
    let mut service = service();
    service.store_thread_mgr_cookie(7);
    let UnregisteringNext::Waiting(work) = service.unadvise_thread_mgr_event_sink() else {
        panic!("there is a registration");
    };
    assert_eq!(work.effect(), RegisterEffect::Unregister(7));
    assert_eq!(
        work.resume(RegisterReply::Failed(BUSY)),
        UnregisteringNext::Finished(Err(BUSY))
    );
    assert_eq!(service.text_service.thread_mgr_event_cookie, Some(7));
    let UnregisteringNext::Waiting(work) = service.unadvise_thread_mgr_event_sink() else {
        panic!("there is a registration");
    };
    let UnregisteringNext::Waiting(work) = work.resume(RegisterReply::Done) else {
        panic!("the cookie is still kept");
    };
    assert_eq!(work.effect(), RegisterEffect::Drop(7));
    service.clear_thread_mgr_cookie(7);
    assert_eq!(
        work.resume(RegisterReply::Done),
        UnregisteringNext::Finished(Ok(()))
    );
    assert_eq!(
        service.unadvise_thread_mgr_event_sink(),
        UnregisteringNext::Finished(Ok(()))
    );
}

#[test]
fn the_language_bar_is_refreshed_by_removing_and_adding() {
    let mut service = service();
    assert_eq!(service.update_lang_bar(), LangBarNext::Finished(Ok(())));
    service.mark_lang_bar(true);
    let mut next = service.update_lang_bar();
    let mut effects = Vec::new();
    let mut replies = vec![
        RegisterReply::Done,
        RegisterReply::Done,
        RegisterReply::Registered(()),
        RegisterReply::Done,
    ]
    .into_iter();
    while let LangBarNext::Waiting(work) = next {
        effects.push(work.effect());
        next = work.resume(replies.next().unwrap());
    }
    assert_eq!(next, LangBarNext::Finished(Ok(())));
    assert_eq!(
        effects,
        [
            RegisterEffect::Unregister(()),
            RegisterEffect::Drop(()),
            RegisterEffect::Register,
            RegisterEffect::Keep(()),
        ]
    );
}

#[test]
fn the_layout_sink_moves_with_the_focus() {
    let mut service = service();
    let old = LayoutSink {
        context: 20,
        cookie: 3,
    };
    let new = LayoutSink {
        context: 21,
        cookie: 4,
    };
    service.store_text_layout_sink(old);
    let mut next = service.advise_text_layout_sink();
    let mut effects = Vec::new();
    let mut replies = vec![
        RegisterReply::Done,
        RegisterReply::Done,
        RegisterReply::Registered(new),
        RegisterReply::Done,
    ]
    .into_iter();
    while let LayoutAdvisingNext::Waiting(work) = next {
        let effect = work.effect();
        match &effect {
            LayoutEffect::Sink(RegisterEffect::Drop(sink)) => service.clear_text_layout_sink(*sink),
            LayoutEffect::Sink(RegisterEffect::Keep(sink)) => service.store_text_layout_sink(*sink),
            _ => {}
        }
        effects.push(effect);
        next = work.resume(replies.next().unwrap());
    }
    assert_eq!(next, LayoutAdvisingNext::Finished(Ok(())));
    assert_eq!(
        effects,
        [
            LayoutEffect::Sink(RegisterEffect::Unregister(old)),
            LayoutEffect::Sink(RegisterEffect::Drop(old)),
            LayoutEffect::Sink(RegisterEffect::Register),
            LayoutEffect::Sink(RegisterEffect::Keep(new)),
        ]
    );
    assert_eq!(service.text_service.text_layout_context, Some(21));
    assert_eq!(service.text_service.text_layout_cookie, Some(4));
}

#[test]
fn a_layout_sink_is_a_context_and_a_cookie() {
    let mut service = service();
    assert_eq!(service.unadvise_text_layout_sink(), LayoutRemoval::Nothing);
    service.text_service.text_layout_cookie = Some(3);
    assert_eq!(
        service.unadvise_text_layout_sink(),
        LayoutRemoval::Failed(HostError::CookieWithoutContext)
    );
    assert_eq!(
        HostError::CookieWithoutContext.message(),
        Some("Text-layout sink cookie has no context")
    );
    service.text_service.text_layout_cookie = None;
    service.text_service.text_layout_context = Some(20);
    assert_eq!(service.unadvise_text_layout_sink(), LayoutRemoval::DropContext);
    service.drop_text_layout_context();
    assert_eq!(service.text_service.text_layout_context, None);
}

/// Activates a service over the given replies.
fn activate(
    service: &mut TextServiceFactory,
    thread_mgr: Option<u64>,
    replies: Vec<ActivationReply>,
) -> (Result<(), HostError>, Vec<ActivationEffect>) {
    let mut replies = replies.into_iter();
    let mut effects = Vec::new();
    let mut next = service.activate(thread_mgr, 5);
    loop {
        match next {
            ActivationNext::Finished(result) => return (result, effects),
            ActivationNext::Waiting(activation) => {
                let Activation { effect, .. } = activation;
                effects.push(effect);
                next = service
                    .resume_activation(activation, replies.next().unwrap_or(ActivationReply::Done));
            }
        }
    }
}

fn known() -> TextServiceFactory {
    TextServiceFactory {
        text_service: TextService {
            this: Some(12),
            ..TextService::default()
        },
    }
}

#[test]
fn activation_goes_on_without_a_server() {
    let mut service = known();
    let (result, effects) = activate(
        &mut service,
        Some(10),
        vec![
            ActivationReply::Ipc(false),
            ActivationReply::Failed(BUSY),
            ActivationReply::Done,
            ActivationReply::Done,
            ActivationReply::Done,
            ActivationReply::Done,
            ActivationReply::Failed(BUSY),
            ActivationReply::Failed(BUSY),
            ActivationReply::Atom(9),
            ActivationReply::Failed(BUSY),
            ActivationReply::Failed(BUSY),
        ],
    );
    assert_eq!(result, Ok(()));
    assert_eq!(
        effects,
        [
            ActivationEffect::SnapshotIpc,
            ActivationEffect::ConnectIpc,
            ActivationEffect::StartReconnect,
            ActivationEffect::FindKeystrokeManager,
            ActivationEffect::AddDllRef,
            ActivationEffect::AdviseKeyEvents,
            ActivationEffect::AdviseThreadMgr,
            ActivationEffect::FindFocus,
            ActivationEffect::RegisterDisplayAttribute,
            ActivationEffect::AddLanguageBarItem,
            ActivationEffect::ActivateCompartments,
        ]
    );
    assert_eq!(service.text_service.tid, 5);
    assert_eq!(service.text_service.thread_mgr, Some(10));
    assert!(service.text_service.key_event_sink_advised);
    assert!(service.text_service.dll_ref_held);
    assert_eq!(service.text_service.display_attribute_atom, Some(9));
}

#[test]
fn a_failed_activation_leaves_no_mark() {
    let mut service = known();
    let (result, effects) = activate(
        &mut service,
        Some(10),
        vec![
            ActivationReply::Ipc(true),
            ActivationReply::Done,
            ActivationReply::Done,
            ActivationReply::Failed(BUSY),
            ActivationReply::Done,
            ActivationReply::Done,
        ],
    );
    assert_eq!(result, Err(BUSY));
    assert_eq!(
        effects[effects.len() - 3..],
        [
            ActivationEffect::AdviseKeyEvents,
            ActivationEffect::ReachLibrary,
            ActivationEffect::ReleaseDllRef,
        ]
    );
    assert_eq!(service.text_service.thread_mgr, None);
    assert_eq!(service.text_service.tid, 0);
    assert!(!service.text_service.dll_ref_held);
    assert!(!service.text_service.key_event_sink_advised);
    assert!(!service.has_live_tsf_resources());
}

#[test]
fn a_rollback_releases_the_library_once() {
    let refused = |library, released| {
        let mut service = known();
        let (result, effects) = activate(
            &mut service,
            Some(10),
            vec![
                ActivationReply::Ipc(true),
                ActivationReply::Done,
                ActivationReply::Done,
                ActivationReply::Failed(BUSY),
                library,
                released,
            ],
        );
        assert_eq!(result, Err(BUSY));
        (service, effects)
    };
    // The marks stay where the library cannot be reached, and nothing is released.
    let (service, effects) = refused(
        ActivationReply::Failed(HostError::NotRun),
        ActivationReply::Done,
    );
    assert_eq!(effects.last(), Some(&ActivationEffect::ReachLibrary));
    assert!(service.text_service.dll_ref_held);
    assert!(service.text_service.key_event_sink_advised);
    // The marks are gone whatever becomes of the release.
    let (mut service, effects) = refused(
        ActivationReply::Done,
        ActivationReply::Failed(HostError::NotRun),
    );
    assert_eq!(effects.last(), Some(&ActivationEffect::ReleaseDllRef));
    assert!(!service.text_service.dll_ref_held);
    assert_eq!(service.release_dll_ref_if_unused(Ok(())), Ok(false));
    assert!(!service.rollback_pre_key_activation(false, Err(BUSY)));
    assert!(service.rollback_pre_key_activation(true, Ok(())));
}

#[test]
fn an_active_service_is_not_activated_again() {
    let mut service = known();
    service.mark_lang_bar(true);
    let (result, _) = activate(&mut service, Some(10), vec![ActivationReply::Ipc(true)]);
    assert_eq!(result, Err(HostError::AlreadyActive));
    assert_eq!(
        HostError::AlreadyActive.message(),
        Some("TextService is already active or still has registered sinks")
    );
    let (result, _) = activate(&mut known(), None, vec![ActivationReply::Ipc(true)]);
    assert_eq!(result, Err(HostError::Missing(MissingHandle::ThreadMgr)));
    assert_eq!(
        HostError::Missing(MissingHandle::ThreadMgr).message(),
        Some("Thread manager is null")
    );
}

#[test]
fn teardown_attempts_every_step_and_reports_the_first_failure() {
    let mut names = Vec::new();
    let mut next = DeactivationNext::Waiting(Deactivation::begin());
    let result = loop {
        match next {
            DeactivationNext::Finished(result) => break result,
            DeactivationNext::Waiting(deactivation) => {
                names.push(deactivation.step.name());
                let result = match deactivation.step {
                    Teardown::UnadviseTextLayout => Err(BUSY),
                    Teardown::RemoveLanguageBarItem => Err(HostError::NotRun),
                    _ => Ok(()),
                };
                next = deactivation.resume(result);
            }
        }
    };
    assert_eq!(result, Err((Teardown::UnadviseTextLayout, BUSY)));
    assert_eq!(
        names,
        [
            "EndComposition",
            "Unadvise input-mode compartments",
            "Unadvise text-layout sink",
            "Unadvise thread-manager event sink",
            "Unadvise key-event sink",
            "Remove language-bar item",
            "Clear display attributes",
            "Release DLL reference",
            "Clear deactivated TextService state",
        ]
    );
    let mut first = None;
    keep_first_error(&mut first, Teardown::EndComposition, Ok(()));
    assert_eq!(first, None);
}

/// Clears an unused service, and returns what was asked for on the way.
fn clear(service: &mut TextServiceFactory, connected: bool) -> Vec<Clearing> {
    let mut work = Vec::new();
    let mut next = service.clear_deactivated_state_if_unused();
    while let ClearingNext::Waiting(clearing) = next {
        assert!(service.text_service.thread_mgr.is_some());
        work.push(clearing);
        let reply = match clearing {
            Clearing::FindingServer => ClearingReply::Ipc(connected),
            Clearing::MarkingSession => ClearingReply::Done,
            Clearing::HidingWindow => ClearingReply::Failed,
        };
        next = service.resume_clearing(clearing, reply);
    }
    assert_eq!(next, ClearingNext::Finished { cleared: true });
    work
}

#[test]
fn without_a_server_a_service_is_cleared_at_once() {
    let mut service = service();
    assert_eq!(clear(&mut service, false), [Clearing::FindingServer]);
    assert_eq!(service.text_service.thread_mgr, None);
}

#[test]
fn a_deactivated_service_keeps_nothing() {
    let mut service = service();
    service.text_service.dll_ref_held = true;
    service.text_service.lang_bar_added = true;
    assert!(service.has_live_tsf_resources());
    assert_eq!(service.release_dll_ref_if_unused(Ok(())), Ok(false));
    assert_eq!(
        service.clear_deactivated_state_if_unused(),
        ClearingNext::Finished { cleared: false }
    );
    service.mark_lang_bar(false);
    assert_eq!(service.release_dll_ref_if_unused(Err(BUSY)), Err(BUSY));
    assert!(service.text_service.dll_ref_held);
    assert_eq!(service.release_dll_ref_if_unused(Ok(())), Ok(true));
    assert_eq!(
        clear(&mut service, true),
        [
            Clearing::FindingServer,
            Clearing::MarkingSession,
            Clearing::HidingWindow,
        ]
    );
    assert_eq!(service.text_service.thread_mgr, None);
    assert_eq!(service.text_service.context, None);
    assert_eq!(service.text_service.composition.generation, 1);
    let (result, _) = activate(&mut service, Some(10), vec![ActivationReply::Ipc(true)]);
    assert_eq!(result, Ok(()));
}

/// Registers or takes back the reserved keys with a host that refuses some.
fn reserve(
    service: &mut TextServiceFactory,
    mut next: RegistrationNext,
    refuse: impl Fn(RegistrationEffect) -> Option<RegistrationReply>,
) -> (Vec<KeyReport>, Result<(), HostError>) {
    let mut reports = Vec::new();
    loop {
        match next {
            RegistrationNext::Finished(result) => return (reports, result),
            RegistrationNext::Waiting(work) => {
                let effect = work.effect();
                let reply = refuse(effect).unwrap_or_else(|| {
                    if let RegistrationEffect::SetMarker { marker, owned } = effect {
                        service.mark_preserved_key(marker, owned);
                    }
                    RegistrationReply::Done
                });
                let (report, following) = work.resume(reply);
                reports.extend(report);
                next = following;
            }
        }
    }
}

#[test]
fn refused_keys_are_not_marked() {
    let mut service = service();
    let kanji = input_mode_preserved_keys()[1].1;
    let next = service.preserve_input_mode_keys();
    let (reports, result) = reserve(&mut service, next, |effect| {
        (effect == RegistrationEffect::PreserveKey(kanji))
            .then_some(RegistrationReply::Refused(-2147024809))
    });
    assert_eq!(result, Err(HostError::Refused(-2147024809)));
    assert_eq!(
        service.text_service.preserved_input_mode_keys,
        PRESERVED_ALT_GRAVE
    );
    let details: Vec<String> = reports.iter().map(|report| report.detail()).collect();
    assert_eq!(
        details,
        [
            "vk=192 modifiers=1 status=ok",
            "vk=25 modifiers=1024 status=error hr=0x80070057",
        ]
    );
}

#[test]
fn a_refusal_is_reported_after_its_mark_is_cleared() {
    let mut service = service();
    let mut next = service.preserve_input_mode_keys();
    let mut seen = Vec::new();
    while let RegistrationNext::Waiting(work) = next {
        let effect = work.effect();
        let reply = match effect {
            RegistrationEffect::FindManager => RegistrationReply::Done,
            RegistrationEffect::SetMarker { marker, owned } => {
                service.mark_preserved_key(marker, owned);
                RegistrationReply::Done
            }
            _ => RegistrationReply::Refused(-1),
        };
        let (report, following) = work.resume(reply);
        seen.push((
            report.is_some(),
            service.text_service.preserved_input_mode_keys,
        ));
        next = following;
    }
    assert_eq!(
        seen,
        [
            (false, 0),
            (false, PRESERVED_ALT_GRAVE),
            (false, PRESERVED_ALT_GRAVE),
            (true, 0),
            (false, PRESERVED_KANJI),
            (false, PRESERVED_KANJI),
            (true, 0),
        ]
    );
}

#[test]
fn without_a_keystroke_manager_no_key_is_asked_for() {
    let mut service = service();
    let next = service.preserve_input_mode_keys();
    let (reports, result) = reserve(&mut service, next, |effect| {
        assert_eq!(effect, RegistrationEffect::FindManager);
        Some(RegistrationReply::Refused(-7))
    });
    assert!(reports.is_empty());
    assert_eq!(result, Err(HostError::Refused(-7)));
    assert_eq!(service.text_service.preserved_input_mode_keys, 0);
    service.text_service.thread_mgr = None;
    assert_eq!(
        service.unpreserve_input_mode_keys(),
        RegistrationNext::Finished(Err(HostError::Missing(MissingHandle::ThreadMgr)))
    );
}

#[test]
fn absent_keys_count_as_taken_back() {
    let mut service = service();
    let next = service.preserve_input_mode_keys();
    reserve(&mut service, next, |_| None).1.unwrap();
    assert_eq!(
        service.text_service.preserved_input_mode_keys,
        PRESERVED_ALT_GRAVE | PRESERVED_KANJI
    );
    let grave = input_mode_preserved_keys()[0].1;
    let next = service.unpreserve_input_mode_keys();
    let (reports, result) = reserve(&mut service, next, |effect| {
        (effect == RegistrationEffect::UnpreserveKey(grave))
            .then_some(RegistrationReply::Refused(CONNECT_E_NOCONNECTION))
    });
    assert_eq!(result, Ok(()));
    assert_eq!(service.text_service.preserved_input_mode_keys, 0);
    assert_eq!(
        reports[0].detail(),
        "vk=192 modifiers=1 status=already_absent"
    );
    assert_eq!(
        service.unpreserve_input_mode_keys(),
        RegistrationNext::Finished(Ok(()))
    );
}

fn key_event(wparam: usize) -> KeyEvent {
    KeyEvent {
        has_context: true,
        wparam,
        lparam: 0,
        alt_pressed: false,
        control_pressed: false,
        now: 1_000_000_000,
    }
}

#[test]
fn held_backspaces_are_suppressed_for_a_while() {
    let mut service = service();
    let repeat = KeyEvent {
        lparam: 0x4000_0000,
        ..key_event(0x08)
    };
    assert_eq!(service.test_key_down(repeat), TestKeyDown::Classify);
    service.finish_key_down(0x08, true, 1_000_000_000);
    assert_eq!(service.test_key_down(repeat), TestKeyDown::Suppress);
    assert_eq!(service.key_down(repeat), KeyDown::Suppress);
    let later = KeyEvent {
        now: 1_080_000_000,
        ..repeat
    };
    assert_eq!(service.key_down(later), KeyDown::Handle);
    assert_eq!(service.key_down(key_event(0x08)), KeyDown::Handle);
}

#[test]
fn keys_are_claimed_for_an_owed_cleanup() {
    let mut service = service();
    service.text_service.pending_composition_cleanup = true;
    assert_eq!(
        service.test_key_down(key_event(0x41)),
        TestKeyDown::ClaimForCleanup
    );
    assert_eq!(
        service.test_key_down(KeyEvent {
            has_context: false,
            ..key_event(0x41)
        }),
        TestKeyDown::Classify
    );
}

#[test]
fn alt_grave_switches_the_mode_where_it_is_not_reserved() {
    let mut service = service();
    let grave = KeyEvent {
        alt_pressed: true,
        ..key_event(0xC0)
    };
    assert_eq!(service.test_key_down(grave), TestKeyDown::SwitchMode);
    assert_eq!(service.key_down(grave), KeyDown::SwitchMode);
    service.mark_preserved_key(PRESERVED_ALT_GRAVE, true);
    assert_eq!(service.test_key_down(grave), TestKeyDown::Classify);
    assert_eq!(service.key_down(grave), KeyDown::Handle);
}

#[test]
fn mode_keys_are_logged_with_their_route() {
    let event = ModeKeyEvent {
        key_down: true,
        direct_alt_grave: true,
        virtual_key: 192,
        alt_pressed: true,
        control_pressed: false,
        shift_pressed: false,
        preserved_keys: 2,
        eaten: true,
    };
    assert_eq!(
        event.detail().unwrap(),
        "stage=key_down route=direct_alt_grave vk=192 alt=true ctrl=false shift=false \
         preserved_mask=2 eaten=true"
    );
    let event = ModeKeyEvent {
        key_down: false,
        direct_alt_grave: false,
        virtual_key: 0x19,
        alt_pressed: false,
        ..event
    };
    assert_eq!(
        event.detail().unwrap(),
        "stage=test_down route=key_sink vk=25 alt=false ctrl=false shift=false \
         preserved_mask=2 eaten=true"
    );
    assert_eq!(
        ModeKeyEvent {
            virtual_key: 0x41,
            ..event
        }
        .detail(),
        None
    );
}

#[test]
fn reserved_keys_are_told_apart() {
    assert_eq!(preserved_key_event(None, 9), PreservedKeyEvent::NullGuid);
    assert_eq!(preserved_key_event(Some(8), 9), PreservedKeyEvent::UnknownGuid);
    assert_eq!(preserved_key_event(Some(9), 9), PreservedKeyEvent::InputMode);
    assert_eq!(
        preserved_key_detail(PreservedKeyEvent::NullGuid, true, false),
        "matched=false reason=null_guid context=true"
    );
    assert_eq!(
        preserved_key_detail(PreservedKeyEvent::UnknownGuid, false, false),
        "matched=false reason=unknown_guid context=false"
    );
    assert_eq!(
        preserved_key_detail(PreservedKeyEvent::InputMode, true, true),
        "matched=true context=true eaten=true"
    );
}

#[test]
fn sessions_ask_for_the_access_they_need() {
    assert_eq!(session_flags(SessionKind::Read), 0x3);
    assert_eq!(session_flags(SessionKind::ReadWrite), 0x7);
    assert_eq!(session_flags(SessionKind::Detached), 0xA);
    assert_eq!(take_sync_result::<()>(0, None), Err(HostError::NotRun));
    assert_eq!(
        HostError::NotRun.message(),
        Some("synchronous TSF edit session completed without running its callback")
    );
    assert_eq!(take_detached_result(0x40300), Ok(()));
    assert_eq!(take_detached_result(-5), Err(HostError::Refused(-5)));
}

#[test]
fn text_is_set_with_its_first_part_marked() {
    let mut service = service();
    service.text_service.display_attribute_atom = Some(33);
    assert!(matches!(service.set_text("a", "b"), Ok(None)));
    service.composition_started(77);
    let plan = service.set_text("😀", "あ").unwrap().unwrap();
    assert_eq!((plan.tid, plan.context, plan.composition), (5, 11, 77));
    assert_eq!(
        plan.ops,
        [
            RangeOp::TakeRange,
            RangeOp::SetText(vec![0xD83D, 0xDE00, 0x3042]),
            RangeOp::TakePart,
            RangeOp::CollapsePartToStart,
            RangeOp::ExtendPart(2),
            RangeOp::MarkPart(33),
            RangeOp::CollapseToEnd,
            RangeOp::Select,
        ]
    );
    service.clear_display_attributes();
    let plan = service.shift_start("あい", "う").unwrap().unwrap();
    assert_eq!(
        plan.ops,
        [
            RangeOp::TakeRange,
            RangeOp::ClearAttribute,
            RangeOp::CollapseToStart,
            RangeOp::MoveStart(2),
            RangeOp::MoveCompositionStart,
            RangeOp::TakeRange,
            RangeOp::SetText(vec![0x3046]),
            RangeOp::CollapseToEnd,
            RangeOp::Select,
        ]
    );
    let plan = service.end_composition().unwrap().unwrap();
    assert_eq!(plan.ops.last(), Some(&RangeOp::EndComposition));
    service.text_service.context = None;
    assert_eq!(
        service.end_composition().unwrap_err(),
        HostError::Missing(MissingHandle::Context)
    );
}

#[test]
fn a_composition_is_started_once() {
    let mut service = service();
    assert_eq!(
        service.start_composition(),
        StartPlan::Open {
            tid: 5,
            context: 11,
        }
    );
    service.composition_started(77);
    assert_eq!(service.start_composition(), StartPlan::EndInstead);
    service.text_service.this = None;
    assert_eq!(
        service.start_composition(),
        StartPlan::Failed(HostError::Missing(MissingHandle::This))
    );
}

#[test]
fn position_updates_do_not_feed_themselves() {
    let mut service = service();
    service.composition_started(77);
    let now = 1_000_000_000;
    assert_eq!(
        service.update_pos(now),
        PositionUpdate::Request {
            tid: 5,
            context: 11,
            composition: 77,
        }
    );
    assert_eq!(service.update_pos(now), PositionUpdate::Skipped);
    assert!(!service.layout_changed(now));
    let mut completion = UpdatePosCompletion::new();
    completion.finish(None, now);
    assert!(completion.pending);
    completion.finish(Some(&mut service), now);
    assert!(!completion.pending);
    assert!(!service.layout_changed(now + 200_000_000));
    assert!(service.layout_changed(now + 200_000_001));
}

#[test]
fn every_position_update_is_released() {
    let now = 1_000_000_000;
    let mut service = service();
    assert_eq!(service.update_pos(now), PositionUpdate::Nothing);
    assert_eq!(service.update_pos(now), PositionUpdate::Nothing);
    assert!(!service.layout_changed(now + 200_000_000));
    assert!(service.layout_changed(now + 200_000_001));
    service.composition_started(77);
    service.text_service.context = None;
    let missing = PositionUpdate::Failed(HostError::Missing(MissingHandle::Context));
    assert_eq!(service.update_pos(now), missing);
    assert_eq!(service.update_pos(now), missing);
    service.text_service.context = Some(11);
    assert!(matches!(
        service.update_pos(now),
        PositionUpdate::Request { .. }
    ));
    assert_eq!(service.update_pos(now), PositionUpdate::Skipped);
    service.finish_position_update(now);
    assert!(matches!(
        service.update_pos(now),
        PositionUpdate::Request { .. }
    ));
}

#[test]
fn the_position_comes_from_the_composition_or_the_selection() {
    assert_eq!(position_source(Some(3)), PositionSource::Composition(3));
    assert_eq!(position_source(None), PositionSource::Selection);
    assert_eq!(caret_anchor(0, true, 1), None);
    assert_eq!(caret_anchor(1, false, 1), None);
    assert_eq!(caret_anchor(1, true, 1), Some(Anchor::Start));
    assert_eq!(caret_anchor(1, true, 2), Some(Anchor::End));
    let service = service();
    assert_eq!(
        service.update_indicator_pos(),
        Ok((5, 11, PositionSource::Selection))
    );
}

/// Searches the context in front of a composition over the given replies.
fn search(replies: Vec<ParentReply>) -> (u64, Vec<ParentEffect>) {
    let mut effects = Vec::new();
    let mut replies = replies.into_iter();
    let mut stage = ParentSearch::FindingDocument;
    loop {
        effects.push(stage.effect(11));
        match stage.resume(11, replies.next().unwrap()) {
            ParentNext::Found(context) => return (context, effects),
            ParentNext::Waiting(next) => stage = next,
        }
    }
}

#[test]
fn a_transitory_context_stands_for_its_parent() {
    let (context, effects) = search(vec![
        ParentReply::Object(1),
        ParentReply::Object(2),
        ParentReply::Status(TS_SS_TRANSITORY | 1),
        ParentReply::Object(3),
        ParentReply::Object(4),
        ParentReply::Object(5),
        ParentReply::Object(6),
        ParentReply::Object(7),
        ParentReply::Object(8),
    ]);
    assert_eq!(context, 8);
    assert_eq!(
        effects,
        [
            ParentEffect::DocumentOfContext(11),
            ParentEffect::TopOfDocument(1),
            ParentEffect::StatusOfContext(2),
            ParentEffect::CompartmentsOfDocument(1),
            ParentEffect::ParentCompartment(3),
            ParentEffect::ValueOfCompartment(4),
            ParentEffect::ObjectInValue(5),
            ParentEffect::DocumentOfObject(6),
            ParentEffect::TopOfDocument(7),
        ]
    );
}

#[test]
fn other_contexts_stand_for_themselves() {
    let (context, effects) = search(vec![
        ParentReply::Object(1),
        ParentReply::Object(2),
        ParentReply::Status(1),
        ParentReply::Object(9),
    ]);
    assert_eq!(context, 9);
    assert_eq!(effects.last(), Some(&ParentEffect::TopOfDocument(1)));
    assert_eq!(search(vec![ParentReply::Failed]).0, 11);
    let (context, _) = search(vec![
        ParentReply::Object(1),
        ParentReply::Failed,
        ParentReply::Failed,
    ]);
    assert_eq!(context, 11);
}

#[test]
fn the_text_in_front_is_read_back_from_the_composition() {
    assert_eq!(
        preceding_range(7),
        [
            RangeOp::CollapseToStart,
            RangeOp::MoveStart(-30),
            RangeOp::MoveEnd(-7),
        ]
    );
}

#[test]
fn utf16_comes_back_whole_or_with_replacements() {
    let units: Vec<u16> = "変換😀".encode_utf16().collect();
    assert_eq!(text_from_utf16(&units), "変換😀");
    assert_eq!(text_from_utf16(&[0xD83D, 0x41]), "\u{fffd}A");
    assert_eq!(text_from_utf16(&[0xDE00]), "\u{fffd}");
    assert_eq!(context_for_server(Some(&units), "確定"), "変換😀確定");
    assert_eq!(context_for_server(None, "確定"), "確定");
    for first in [0x41u16, 0xD7FF, 0xD800, 0xDBFF, 0xDC00, 0xDFFF, 0xE000] {
        for second in [0x41u16, 0xD800, 0xDC00, 0xDFFF, 0xFFFF] {
            let units = [first, second, 0x42];
            assert_eq!(text_from_utf16(&units), String::from_utf16_lossy(&units));
        }
    }
}

/// Updates the context, and returns what was sent and whether the update failed.
fn send_context(
    service: &TextServiceFactory,
    preceding: ContextReply,
    connected: bool,
) -> (Vec<String>, bool) {
    let mut preceding = Some(preceding);
    let mut sent = Vec::new();
    let mut next = service.update_context(7, "い");
    loop {
        match next {
            ContextNext::Finished { failed } => return (sent, failed),
            ContextNext::Waiting(update) => {
                let reply = match update.effect() {
                    ContextEffect::Parent(_) => ContextReply::Parent(ParentReply::Failed),
                    ContextEffect::ReadPreceding { tid, parent, ops } => {
                        assert_eq!((tid, parent), (5, 11));
                        assert_eq!(ops, preceding_range(7));
                        preceding.take().unwrap()
                    }
                    ContextEffect::SnapshotIpc => ContextReply::Ipc(connected),
                    ContextEffect::SetContext(context) => {
                        sent.push(context);
                        ContextReply::Done
                    }
                };
                next = update.resume(reply);
            }
        }
    }
}

#[test]
fn the_context_is_read_and_sent() {
    let read = || ContextReply::Preceding(Some(vec![0x3042]));
    assert_eq!(
        send_context(&service(), read(), true),
        (vec!["あい".to_owned()], false)
    );
    assert_eq!(
        send_context(&service(), ContextReply::Preceding(None), true),
        (vec!["い".to_owned()], false)
    );
    assert_eq!(send_context(&service(), read(), false), (vec![], false));
    assert_eq!(
        send_context(&service(), ContextReply::Failed, true),
        (vec![], true)
    );
}

#[test]
fn without_a_context_the_update_has_failed_at_once() {
    assert!(matches!(
        TextServiceFactory::new().update_context(0, "い"),
        ContextNext::Finished { failed: true }
    ));
}

#[test]
fn host_errors_have_their_messages() {
    assert_eq!(HostError::Refused(-1).message(), None);
    assert_eq!(
        HostError::Missing(MissingHandle::This).message(),
        Some("this is null")
    );
    assert_eq!(
        HostError::Missing(MissingHandle::Context).message(),
        Some("Context is null")
    );
    assert_eq!(MissingHandle::Context.message(), "Context is null");
}
