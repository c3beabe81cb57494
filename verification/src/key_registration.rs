//! Reserving the keys that switch the input mode, and giving them back.
//!
//! The service marks a key as its own before it asks the host for it, so that no
//! registration can go untracked; a key that the host refuses loses its mark,
//! because it may belong to another service.

use vstd::prelude::*;

use crate::key_handling::TextServiceFactory;
use crate::keys::{
    input_mode_preserved_keys, marked, preserved_key_at, PreservedKey, CONNECT_E_NOCONNECTION,
};
use crate::text::{decimal, decimal_notation, hex_notation, hex_word};
use crate::text_service::{HostError, MissingHandle, TextServiceView};

verus! {

/// What is done with the reserved keys.
#[derive(Clone, Copy, Debug, PartialEq, Eq, Structural)]
pub enum Registration {
    Preserve,
    Unpreserve,
}

/// Outside work on the reserved keys.
#[derive(Clone, Copy, Debug, PartialEq, Eq, Structural)]
pub enum RegistrationEffect {
    /// Find the host's keystroke manager.
    FindManager,
    /// Set or clear a mark in the service.
    SetMarker { marker: u8, owned: bool },
    /// Ask the host for a key.
    PreserveKey(PreservedKey),
    /// Give a key back to the host.
    UnpreserveKey(PreservedKey),
}

/// What came of work on the reserved keys.
#[derive(Clone, Copy, Debug, PartialEq, Eq, Structural)]
pub enum RegistrationReply {
    Done,
    /// The host refused, with this code.
    Refused(i32),
    /// The service's state could not be changed.
    Unavailable,
}

/// How the host answered for one key.
#[derive(Clone, Copy, Debug, PartialEq, Eq, Structural)]
pub enum KeyStatus {
    Done,
    AlreadyAbsent,
    Error(i32),
}

/// A line for the diagnostic log.
#[derive(Clone, Copy, Debug, PartialEq, Eq, Structural)]
pub struct KeyReport {
    pub key: PreservedKey,
    pub status: KeyStatus,
}

/// A code as an unsigned number.
pub open spec fn unsigned(code: i32) -> int {
    if code < 0 {
        code + 0x1_0000_0000
    } else {
        code as int
    }
}

fn unsigned_code(code: i32) -> (value: u32)
    ensures
        value == unsigned(code),
{
    (if code < 0 {
        code as i64 + 0x1_0000_0000
    } else {
        code as i64
    }) as u32
}

impl KeyReport {
    /// The text of this line.
    pub open spec fn text(self) -> Seq<char> {
        "vk="@ + decimal_notation(self.key.virtual_key as int) + " modifiers="@
            + decimal_notation(self.key.modifiers as int) + match self.status {
            KeyStatus::Done => " status=ok"@,
            KeyStatus::AlreadyAbsent => " status=already_absent"@,
            KeyStatus::Error(code) => " status=error hr=0x"@ + hex_notation(unsigned(code), 8),
        }
    }

    /// Writes the text of this line.
    pub fn detail(&self) -> (detail: String)
        ensures
            detail@ == self.text(),
    {
        let mut detail = "vk=".to_owned();
        detail.append(decimal(self.key.virtual_key as u64).as_str());
        detail.append(" modifiers=");
        detail.append(decimal(self.key.modifiers as u64).as_str());
        match self.status {
            KeyStatus::Done => {
                detail.append(" status=ok");
            },
            KeyStatus::AlreadyAbsent => {
                detail.append(" status=already_absent");
            },
            KeyStatus::Error(code) => {
                detail.append(" status=error hr=0x");
                detail.append(hex_word(unsigned_code(code)).as_str());
                assert(detail@ =~= self.text());
            },
        }
        detail
    }
}

/// What is waited for of the key being worked on.
#[derive(Clone, Copy, Debug, PartialEq, Eq, Structural)]
pub enum RegistrationStage {
    Finding,
    Marking,
    Registering,
    /// Clearing the mark of a key that was refused, with this code.
    Unmarking { code: i32 },
    Unregistering,
    /// Clearing the mark of a key that was given back, or found absent.
    Clearing { already_absent: bool },
}

/// Work on the reserved keys: the key whose turn it is, and the first refusal.
/// `registered` are the marks at the start.
#[derive(Clone, Copy, Debug, PartialEq, Eq, Structural)]
pub struct KeyRegistration {
    pub registration: Registration,
    pub registered: u8,
    pub index: usize,
    pub stage: RegistrationStage,
    pub first_error: Option<i32>,
}

/// What comes next.
#[derive(Clone, Copy, Debug, PartialEq, Eq)]
pub enum RegistrationNext {
    Waiting(KeyRegistration),
    Finished(Result<(), HostError>),
}

/// The result of work that met `first_error` first.
pub open spec fn outcome(first_error: Option<i32>) -> RegistrationNext {
    RegistrationNext::Finished(
        match first_error {
            Some(code) => Err(HostError::Refused(code)),
            None => Ok(()),
        },
    )
}

/// Whether a key needs work: it is to be reserved and is not, or the reverse.
pub open spec fn needs_work(registration: Registration, registered: u8, index: int) -> bool {
    (registered & preserved_key_at(index).0 == 0) == (registration == Registration::Preserve)
}

/// Goes on with the first key from `index` on that needs work.
pub open spec fn from_key(
    registration: Registration,
    registered: u8,
    index: int,
    first_error: Option<i32>,
) -> RegistrationNext
    decreases 2 - index,
{
    if index >= 2 {
        outcome(first_error)
    } else if needs_work(registration, registered, index) {
        RegistrationNext::Waiting(
            KeyRegistration {
                registration,
                registered,
                index: index as usize,
                stage: match registration {
                    Registration::Preserve => RegistrationStage::Marking,
                    Registration::Unpreserve => RegistrationStage::Unregistering,
                },
                first_error,
            },
        )
    } else {
        from_key(registration, registered, index + 1, first_error)
    }
}

impl KeyRegistration {
    /// One of the keys has its turn.
    pub open spec fn is_valid(self) -> bool {
        self.index < 2
    }

    /// The outside work that is waited for.
    pub open spec fn awaited(self) -> RegistrationEffect {
        let (marker, key) = preserved_key_at(self.index as int);
        match self.stage {
            RegistrationStage::Finding => RegistrationEffect::FindManager,
            RegistrationStage::Marking => RegistrationEffect::SetMarker { marker, owned: true },
            RegistrationStage::Registering => RegistrationEffect::PreserveKey(key),
            RegistrationStage::Unmarking { .. } => RegistrationEffect::SetMarker {
                marker,
                owned: false,
            },
            RegistrationStage::Unregistering => RegistrationEffect::UnpreserveKey(key),
            RegistrationStage::Clearing { .. } => RegistrationEffect::SetMarker {
                marker,
                owned: false,
            },
        }
    }

    /// The same work, waiting for something else.
    pub open spec fn at(self, stage: RegistrationStage) -> RegistrationNext {
        RegistrationNext::Waiting(KeyRegistration { stage, ..self })
    }

    /// The first refusal, where `code` is another one.
    pub open spec fn with_error(self, code: i32) -> Option<i32> {
        match self.first_error {
            Some(first) => Some(first),
            None => Some(code),
        }
    }

    /// Goes on with the next key.
    pub open spec fn onwards(self, first_error: Option<i32>) -> RegistrationNext {
        from_key(self.registration, self.registered, self.index + 1, first_error)
    }

    /// A line for the diagnostic log.
    pub open spec fn report(self, status: KeyStatus) -> Option<KeyReport> {
        Some(KeyReport { key: preserved_key_at(self.index as int).1, status })
    }

    /// Goes on after a reply.
    pub open spec fn resumed(self, reply: RegistrationReply) -> (
        Option<KeyReport>,
        RegistrationNext,
    ) {
        let unavailable = RegistrationNext::Finished(Err(HostError::Unavailable));
        match self.stage {
            RegistrationStage::Finding => match reply {
                RegistrationReply::Done => (
                    None,
                    from_key(self.registration, self.registered, 0, None),
                ),
                RegistrationReply::Refused(code) => (
                    None,
                    RegistrationNext::Finished(Err(HostError::Refused(code))),
                ),
                RegistrationReply::Unavailable => (None, unavailable),
            },
            RegistrationStage::Marking => if reply is Done {
                (None, self.at(RegistrationStage::Registering))
            } else {
                (None, unavailable)
            },
            RegistrationStage::Registering => match reply {
                RegistrationReply::Done => (
                    self.report(KeyStatus::Done),
                    self.onwards(self.first_error),
                ),
                RegistrationReply::Refused(code) => (
                    None,
                    self.at(RegistrationStage::Unmarking { code }),
                ),
                RegistrationReply::Unavailable => (None, unavailable),
            },
            RegistrationStage::Unmarking { code } => (
                self.report(KeyStatus::Error(code)),
                self.onwards(self.with_error(code)),
            ),
            RegistrationStage::Unregistering => match reply {
                RegistrationReply::Done => (
                    None,
                    self.at(RegistrationStage::Clearing { already_absent: false }),
                ),
                RegistrationReply::Refused(code) => if code == CONNECT_E_NOCONNECTION {
                    (None, self.at(RegistrationStage::Clearing { already_absent: true }))
                } else {
                    (self.report(KeyStatus::Error(code)), self.onwards(self.with_error(code)))
                },
                RegistrationReply::Unavailable => (None, unavailable),
            },
            RegistrationStage::Clearing { already_absent } => if reply is Done {
                (
                    self.report(
                        if already_absent {
                            KeyStatus::AlreadyAbsent
                        } else {
                            KeyStatus::Done
                        },
                    ),
                    self.onwards(self.first_error),
                )
            } else {
                (None, unavailable)
            },
        }
    }

    /// Returns the outside work that is waited for.
    pub fn effect(&self) -> (effect: RegistrationEffect)
        requires
            self.is_valid(),
        ensures
            effect == self.awaited(),
    {
        let (marker, key) = input_mode_preserved_keys()[self.index];
        match self.stage {
            RegistrationStage::Finding => RegistrationEffect::FindManager,
            RegistrationStage::Marking => RegistrationEffect::SetMarker { marker, owned: true },
            RegistrationStage::Registering => RegistrationEffect::PreserveKey(key),
            RegistrationStage::Unmarking { .. } => RegistrationEffect::SetMarker {
                marker,
                owned: false,
            },
            RegistrationStage::Unregistering => RegistrationEffect::UnpreserveKey(key),
            RegistrationStage::Clearing { .. } => RegistrationEffect::SetMarker {
                marker,
                owned: false,
            },
        }
    }

    fn key_report(&self, status: KeyStatus) -> (report: Option<KeyReport>)
        requires
            self.is_valid(),
        ensures
            report == self.report(status),
    {
        let (_, key) = input_mode_preserved_keys()[self.index];
        Some(KeyReport { key, status })
    }

    fn next_key(&self, first_error: Option<i32>) -> (next: RegistrationNext)
        requires
            self.is_valid(),
        ensures
            next == self.onwards(first_error),
            next matches RegistrationNext::Waiting(next) ==> next.is_valid(),
    {
        next_key_from(self.registration, self.registered, self.index + 1, first_error)
    }

    fn keep_error(&self, code: i32) -> (first_error: Option<i32>)
        ensures
            first_error == self.with_error(code),
    {
        match self.first_error {
            Some(first) => Some(first),
            None => Some(code),
        }
    }

    /// Goes on after a reply. Every key has its turn, whatever becomes of the
    /// others; the first refusal is the result.
    pub fn resume(self, reply: RegistrationReply) -> (stepped: (
        Option<KeyReport>,
        RegistrationNext,
    ))
        requires
            self.is_valid(),
        ensures
            stepped == self.resumed(reply),
            stepped.1 matches RegistrationNext::Waiting(next) ==> next.is_valid(),
    {
        let unavailable = RegistrationNext::Finished(Err(HostError::Unavailable));
        match self.stage {
            RegistrationStage::Finding => match reply {
                RegistrationReply::Done => (
                    None,
                    next_key_from(self.registration, self.registered, 0, None),
                ),
                RegistrationReply::Refused(code) => (
                    None,
                    RegistrationNext::Finished(Err(HostError::Refused(code))),
                ),
                RegistrationReply::Unavailable => (None, unavailable),
            },
            RegistrationStage::Marking => match reply {
                RegistrationReply::Done => (
                    None,
                    RegistrationNext::Waiting(
                        KeyRegistration { stage: RegistrationStage::Registering, ..self },
                    ),
                ),
                _ => (None, unavailable),
            },
            RegistrationStage::Registering => match reply {
                RegistrationReply::Done => (
                    self.key_report(KeyStatus::Done),
                    self.next_key(self.first_error),
                ),
                RegistrationReply::Refused(code) => (
                    None,
                    RegistrationNext::Waiting(
                        KeyRegistration { stage: RegistrationStage::Unmarking { code }, ..self },
                    ),
                ),
                RegistrationReply::Unavailable => (None, unavailable),
            },
            RegistrationStage::Unmarking { code } => (
                self.key_report(KeyStatus::Error(code)),
                self.next_key(self.keep_error(code)),
            ),
            RegistrationStage::Unregistering => match reply {
                RegistrationReply::Done => (
                    None,
                    RegistrationNext::Waiting(
                        KeyRegistration {
                            stage: RegistrationStage::Clearing { already_absent: false },
                            ..self
                        },
                    ),
                ),
                RegistrationReply::Refused(code) => {
                    if code == CONNECT_E_NOCONNECTION {
                        (
                            None,
                            RegistrationNext::Waiting(
                                KeyRegistration {
                                    stage: RegistrationStage::Clearing { already_absent: true },
                                    ..self
                                },
                            ),
                        )
                    } else {
                        (
                            self.key_report(KeyStatus::Error(code)),
                            self.next_key(self.keep_error(code)),
                        )
                    }
                },
                RegistrationReply::Unavailable => (None, unavailable),
            },
            RegistrationStage::Clearing { already_absent } => match reply {
                RegistrationReply::Done => (
                    self.key_report(
                        if already_absent {
                            KeyStatus::AlreadyAbsent
                        } else {
                            KeyStatus::Done
                        },
                    ),
                    self.next_key(self.first_error),
                ),
                _ => (None, unavailable),
            },
        }
    }
}

fn next_key_from(
    registration: Registration,
    registered: u8,
    index: usize,
    first_error: Option<i32>,
) -> (next: RegistrationNext)
    requires
        index <= 2,
    ensures
        next == from_key(registration, registered, index as int, first_error),
        next matches RegistrationNext::Waiting(next) ==> next.is_valid(),
    decreases 2 - index,
{
    if index >= 2 {
        return RegistrationNext::Finished(
            match first_error {
                Some(code) => Err(HostError::Refused(code)),
                None => Ok(()),
            },
        );
    }
    let (marker, _) = input_mode_preserved_keys()[index];
    if (registered & marker == 0) == (registration == Registration::Preserve) {
        RegistrationNext::Waiting(
            KeyRegistration {
                registration,
                registered,
                index,
                stage: match registration {
                    Registration::Preserve => RegistrationStage::Marking,
                    Registration::Unpreserve => RegistrationStage::Unregistering,
                },
                first_error,
            },
        )
    } else {
        next_key_from(registration, registered, index + 1, first_error)
    }
}

fn find_manager(registration: Registration, registered: u8) -> (next: RegistrationNext)
    ensures
        next == finding(registration, registered),
{
    RegistrationNext::Waiting(
        KeyRegistration {
            registration,
            registered,
            index: 0,
            stage: RegistrationStage::Finding,
            first_error: None,
        },
    )
}

impl TextServiceFactory {
    /// Begins to reserve the keys that are not marked as reserved.
    pub fn preserve_input_mode_keys(&self) -> (next: RegistrationNext)
        ensures
            next == registration_begun(Registration::Preserve, self@),
            next matches RegistrationNext::Waiting(next) ==> next.is_valid(),
    {
        match self.text_service.thread_mgr() {
            Ok(_) => find_manager(
                Registration::Preserve,
                self.text_service.preserved_input_mode_keys,
            ),
            Err(missing) => RegistrationNext::Finished(Err(HostError::Missing(missing))),
        }
    }

    /// Begins to give back the keys that are marked as reserved.
    pub fn unpreserve_input_mode_keys(&self) -> (next: RegistrationNext)
        ensures
            next == registration_begun(Registration::Unpreserve, self@),
            next matches RegistrationNext::Waiting(next) ==> next.is_valid(),
    {
        match self.text_service.thread_mgr() {
            Ok(_) => if self.text_service.preserved_input_mode_keys == 0 {
                RegistrationNext::Finished(Ok(()))
            } else {
                find_manager(
                    Registration::Unpreserve,
                    self.text_service.preserved_input_mode_keys,
                )
            },
            Err(missing) => RegistrationNext::Finished(Err(HostError::Missing(missing))),
        }
    }
}

/// Work that waits for the keystroke manager.
pub open spec fn finding(registration: Registration, registered: u8) -> RegistrationNext {
    RegistrationNext::Waiting(
        KeyRegistration {
            registration,
            registered,
            index: 0,
            stage: RegistrationStage::Finding,
            first_error: None,
        },
    )
}

/// How work on the reserved keys of a service begins. There is nothing to give
/// back where no key is marked.
pub open spec fn registration_begun(
    registration: Registration,
    service: TextServiceView,
) -> RegistrationNext {
    if service.thread_mgr is None {
        RegistrationNext::Finished(Err(HostError::Missing(MissingHandle::ThreadMgr)))
    } else if registration == Registration::Unpreserve && service.preserved_input_mode_keys == 0 {
        RegistrationNext::Finished(Ok(()))
    } else {
        finding(registration, service.preserved_input_mode_keys)
    }
}

/// Without a keystroke manager nothing is marked, asked for or reported.
pub proof fn nothing_happens_without_a_manager(work: KeyRegistration, reply: RegistrationReply)
    requires
        work.stage == RegistrationStage::Finding,
        !(reply is Done),
    ensures
        work.resumed(reply).0 is None,
        work.resumed(reply).1 is Finished,
        work.resumed(reply).1 != RegistrationNext::Finished(Ok(())),
{
}

/// A key that the host refuses loses its mark before the refusal is reported.
pub proof fn a_refusal_is_reported_after_the_mark_is_cleared(
    work: KeyRegistration,
    code: i32,
    reply: RegistrationReply,
)
    requires
        work.stage == RegistrationStage::Registering,
    ensures
        ({
            let (report, next) = work.resumed(RegistrationReply::Refused(code));
            let marker = preserved_key_at(work.index as int).0;
            &&& report is None
            &&& next matches RegistrationNext::Waiting(unmarking) && {
                &&& unmarking.awaited() == RegistrationEffect::SetMarker { marker, owned: false }
                &&& unmarking.resumed(reply).0 == work.report(KeyStatus::Error(code))
            }
        }),
{
}

/// The marks in the service after outside work has been answered.
pub open spec fn marks_after(
    mask: u8,
    effect: RegistrationEffect,
    reply: RegistrationReply,
) -> u8 {
    match effect {
        RegistrationEffect::SetMarker { marker, owned } => if reply is Done {
            marked(mask, marker, owned)
        } else {
            mask
        },
        _ => mask,
    }
}

/// The marks tell which keys the host holds for the service, at any point of the
/// work: `held` is what the host holds. A key that the host holds is always
/// marked, and giving back a held key is never forgotten.
pub open spec fn every_held_key_is_marked(held: u8, mask: u8) -> bool {
    held & !mask == 0
}

/// What the host holds after outside work has been answered.
pub open spec fn held_after(held: u8, work: KeyRegistration, reply: RegistrationReply) -> u8 {
    let (marker, _) = preserved_key_at(work.index as int);
    match work.awaited() {
        RegistrationEffect::PreserveKey(_) => if reply is Done {
            held | marker
        } else {
            held
        },
        RegistrationEffect::UnpreserveKey(_) => if reply is Done || reply
            == RegistrationReply::Refused(CONNECT_E_NOCONNECTION) {
            held & !marker
        } else {
            held
        },
        _ => held,
    }
}

/// The key being worked on: it is marked while it is asked for, and the host
/// does not hold it while its mark is cleared.
pub open spec fn is_tracked(work: KeyRegistration, held: u8, mask: u8) -> bool {
    let (marker, _) = preserved_key_at(work.index as int);
    &&& every_held_key_is_marked(held, mask)
    &&& work.stage == RegistrationStage::Registering ==> mask & marker != 0 && held & marker == 0
    &&& (work.stage is Unmarking || work.stage is Clearing) ==> held & marker == 0
    &&& work.stage == RegistrationStage::Finding ==> work.index == 0 && mask == work.registered
    &&& work.stage == RegistrationStage::Marking ==> held & marker == 0
}

/// The keys after the one being worked on are as the work found them.
pub open spec fn later_keys_untouched(work: KeyRegistration, held: u8) -> bool {
    work.index == 0 && work.registration == Registration::Preserve && work.registered
        & preserved_key_at(1).0 == 0 ==> held & preserved_key_at(1).0 == 0
}

/// No registration goes untracked: whatever the host and the service's state
/// answer, a key that the host holds for the service stays marked.
pub proof fn no_registration_goes_untracked(
    work: KeyRegistration,
    held: u8,
    mask: u8,
    reply: RegistrationReply,
)
    requires
        work.is_valid(),
        is_tracked(work, held, mask),
        later_keys_untouched(work, held),
    ensures
        ({
            let mask_after = marks_after(mask, work.awaited(), reply);
            let held_after = held_after(held, work, reply);
            &&& every_held_key_is_marked(held_after, mask_after)
            &&& work.resumed(reply).1 matches RegistrationNext::Waiting(next) ==> {
                &&& is_tracked(next, held_after, mask_after)
                &&& later_keys_untouched(next, held_after)
            }
        }),
{
    reveal_with_fuel(from_key, 3);
    assert(held & !mask == 0 && mask & 1u8 == 0 ==> held & 1u8 == 0) by (bit_vector);
    assert(held & !mask == 0 && mask & 2u8 == 0 ==> held & 2u8 == 0) by (bit_vector);
    assert(forall|held: u8, mask: u8, marker: u8| #![auto]
        held & !mask == 0 && mask & marker != 0 && (marker == 1 || marker == 2) ==> (held | marker)
            & !mask == 0) by (bit_vector);
    assert(forall|held: u8, mask: u8, marker: u8| #![auto]
        held & !mask == 0 ==> held & !(mask | marker) == 0) by (bit_vector);
    assert(forall|held: u8, mask: u8, marker: u8| #![auto]
        held & !mask == 0 ==> (held & !marker) & !mask == 0) by (bit_vector);
    assert(forall|held: u8, mask: u8, marker: u8| #![auto]
        held & !mask == 0 && held & marker == 0 ==> held & !(mask & !marker) == 0) by (bit_vector);
    assert(forall|held: u8, marker: u8| #![auto] (held & !marker) & marker == 0) by (bit_vector);
    assert(forall|mask: u8| #![auto] (mask | 1u8) & 1u8 != 0) by (bit_vector);
    assert(forall|mask: u8| #![auto] (mask | 2u8) & 2u8 != 0) by (bit_vector);
    assert(forall|held: u8| #![auto] (held | 1u8) & 2u8 == held & 2u8) by (bit_vector);
    assert(forall|held: u8| #![auto] held & 2u8 == 0 ==> (held & !1u8) & 2u8 == 0) by (bit_vector);
}

/// Work on the reserved keys begins tracked where every key that the host holds
/// is marked.
pub proof fn registration_begins_tracked(
    registration: Registration,
    service: TextServiceView,
    held: u8,
)
    requires
        every_held_key_is_marked(held, service.preserved_input_mode_keys),
    ensures
        registration_begun(registration, service) matches RegistrationNext::Waiting(work) ==> {
            &&& work.is_valid()
            &&& is_tracked(work, held, service.preserved_input_mode_keys)
            &&& later_keys_untouched(work, held)
        },
{
    reveal_with_fuel(from_key, 3);
    let mask = service.preserved_input_mode_keys;
    assert(held & !mask == 0 && mask & 1u8 == 0 ==> held & 1u8 == 0) by (bit_vector);
    assert(held & !mask == 0 && mask & 2u8 == 0 ==> held & 2u8 == 0) by (bit_vector);
}

/// Both keys are reserved one after the other, each marked before the host is asked
/// for it.
pub proof fn keys_are_marked_before_they_are_asked_for(work: KeyRegistration)
    requires
        work.registration == Registration::Preserve,
        work.registered == 0,
        work.stage == RegistrationStage::Finding,
    ensures
        ({
            let done = RegistrationReply::Done;
            let first = work.resumed(done).1->Waiting_0;
            let second = first.resumed(done).1->Waiting_0;
            let (report_1, next) = second.resumed(done);
            let third = next->Waiting_0;
            let fourth = third.resumed(done).1->Waiting_0;
            let (report_2, last) = fourth.resumed(done);
            let grave = PreservedKey { virtual_key: 0xc0, modifiers: 1 };
            let kanji = PreservedKey { virtual_key: 0x19, modifiers: 1024 };
            &&& work.awaited() == RegistrationEffect::FindManager
            &&& first.awaited() == RegistrationEffect::SetMarker { marker: 1, owned: true }
            &&& second.awaited() == RegistrationEffect::PreserveKey(grave)
            &&& third.awaited() == RegistrationEffect::SetMarker { marker: 2, owned: true }
            &&& fourth.awaited() == RegistrationEffect::PreserveKey(kanji)
            &&& last == RegistrationNext::Finished(Ok(()))
            &&& report_1 == Some(KeyReport { key: grave, status: KeyStatus::Done })
            &&& report_2 == Some(KeyReport { key: kanji, status: KeyStatus::Done })
        }),
{
    reveal_with_fuel(from_key, 3);
    assert(0u8 & 1u8 == 0 && 0u8 & 2u8 == 0) by (bit_vector);
}

/// Both keys are given back one after the other, each unmarked once the host has
/// given it up.
pub proof fn keys_are_unmarked_after_they_are_given_back(work: KeyRegistration)
    requires
        work.registration == Registration::Unpreserve,
        work.registered == 3,
        work.stage == RegistrationStage::Finding,
    ensures
        ({
            let done = RegistrationReply::Done;
            let first = work.resumed(done).1->Waiting_0;
            let second = first.resumed(done).1->Waiting_0;
            let (report_1, next) = second.resumed(done);
            let third = next->Waiting_0;
            let fourth = third.resumed(done).1->Waiting_0;
            let (report_2, last) = fourth.resumed(done);
            let grave = PreservedKey { virtual_key: 0xc0, modifiers: 1 };
            let kanji = PreservedKey { virtual_key: 0x19, modifiers: 1024 };
            &&& first.awaited() == RegistrationEffect::UnpreserveKey(grave)
            &&& second.awaited() == RegistrationEffect::SetMarker { marker: 1, owned: false }
            &&& third.awaited() == RegistrationEffect::UnpreserveKey(kanji)
            &&& fourth.awaited() == RegistrationEffect::SetMarker { marker: 2, owned: false }
            &&& last == RegistrationNext::Finished(Ok(()))
            &&& report_1 == Some(KeyReport { key: grave, status: KeyStatus::Done })
            &&& report_2 == Some(KeyReport { key: kanji, status: KeyStatus::Done })
        }),
{
    reveal_with_fuel(from_key, 3);
    assert(3u8 & 1u8 != 0 && 3u8 & 2u8 != 0) by (bit_vector);
}

/// A key whose mark is as it should be is left alone: the first key that needs work
/// has its turn, and where none does the work is done.
pub proof fn only_keys_that_need_it_are_worked_on(registered: u8, first_error: Option<i32>)
    ensures
        registered & 1 != 0 && registered & 2 != 0 ==> from_key(
            Registration::Preserve,
            registered,
            0,
            None,
        ) == RegistrationNext::Finished(Ok(())),
        registered & 1 != 0 && registered & 2 == 0 ==> ({
            let next = from_key(Registration::Preserve, registered, 0, first_error);
            &&& next is Waiting
            &&& next->Waiting_0.index == 1
            &&& next->Waiting_0.awaited() == RegistrationEffect::SetMarker {
                marker: 2,
                owned: true,
            }
        }),
        registered & 1 == 0 && registered & 2 != 0 ==> ({
            let next = from_key(Registration::Unpreserve, registered, 0, first_error);
            &&& next is Waiting
            &&& next->Waiting_0.index == 1
            &&& next->Waiting_0.awaited() == RegistrationEffect::UnpreserveKey(
                PreservedKey { virtual_key: 0x19, modifiers: 1024 },
            )
        }),
{
    reveal_with_fuel(from_key, 3);
}

/// A refusal does not keep the other key from its turn, and the first refusal is the
/// result. A key that the host does not know when it is given back counts as given
/// back.
pub proof fn a_refusal_does_not_stop_the_work(
    work: KeyRegistration,
    code: i32,
    later: i32,
)
    requires
        work.registration == Registration::Unpreserve,
        work.registered == 3,
        work.index == 0,
        work.stage == RegistrationStage::Unregistering,
        work.first_error is None,
        code != -0x7ffb_fe00,
        later != -0x7ffb_fe00,
    ensures
        ({
            let (report, next) = work.resumed(RegistrationReply::Refused(code));
            let second = next->Waiting_0;
            let absent = work.resumed(RegistrationReply::Refused(-0x7ffb_fe00i32)).1->Waiting_0;
            let grave = PreservedKey { virtual_key: 0xc0, modifiers: 1 };
            &&& report == Some(KeyReport { key: grave, status: KeyStatus::Error(code) })
            &&& next is Waiting
            &&& second.awaited() == RegistrationEffect::UnpreserveKey(
                PreservedKey { virtual_key: 0x19, modifiers: 1024 },
            )
            &&& second.resumed(RegistrationReply::Refused(later)).1 == RegistrationNext::Finished(
                Err(HostError::Refused(code)),
            )
            &&& absent.awaited() == RegistrationEffect::SetMarker { marker: 1, owned: false }
            &&& absent.resumed(RegistrationReply::Done).0 == Some(
                KeyReport { key: grave, status: KeyStatus::AlreadyAbsent },
            )
        }),
{
    reveal_with_fuel(from_key, 3);
    assert(3u8 & 1u8 != 0 && 3u8 & 2u8 != 0) by (bit_vector);
}

} // verus!
