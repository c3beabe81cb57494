//! The host's compartments that hold the input mode.
//!
//! Two compartments make up the mode: one tells whether the keyboard is open,
//! the other how it converts. The service listens to both, reduces them to a
//! mode, and writes them when the user asks for a mode.

use vstd::prelude::*;

use crate::input_mode::InputMode;
use crate::key_handling::TextServiceFactory;
use crate::text_service::{HostError, MissingHandle, TextServiceView};

verus! {

/// The conversion bit for native input.
pub const TF_CONVERSIONMODE_NATIVE: u32 = 1;

/// The conversion value of hiragana: native, full shape, typed in Latin letters.
pub const HIRAGANA_CONVERSION_MODE: i32 = 25;

/// The name of the compartment that tells whether the keyboard is open.
pub const GUID_COMPARTMENT_KEYBOARD_OPENCLOSE: u128 = 0x58273aad_01bb_4164_95c6_755ba0b5162d;

/// The name of the compartment that tells how the keyboard converts.
pub const GUID_COMPARTMENT_KEYBOARD_INPUTMODE_CONVERSION: u128 =
    0xccf05dd8_4a87_11d7_a6e2_00065b84435c;

/// A compartment that the input mode is made of.
#[derive(Clone, Copy, Debug, PartialEq, Eq, Structural)]
pub enum Compartment {
    OpenClose,
    Conversion,
}

impl Compartment {
    /// The name of the compartment.
    pub open spec fn name(self) -> u128 {
        match self {
            Compartment::OpenClose => GUID_COMPARTMENT_KEYBOARD_OPENCLOSE,
            Compartment::Conversion => GUID_COMPARTMENT_KEYBOARD_INPUTMODE_CONVERSION,
        }
    }

    /// Returns the name of the compartment.
    pub fn guid(self) -> (guid: u128)
        ensures
            guid == self.name(),
    {
        match self {
            Compartment::OpenClose => GUID_COMPARTMENT_KEYBOARD_OPENCLOSE,
            Compartment::Conversion => GUID_COMPARTMENT_KEYBOARD_INPUTMODE_CONVERSION,
        }
    }
}

/// Tells whether a compartment belongs to the input mode.
pub fn is_input_mode_compartment(guid: u128) -> (belongs: bool)
    ensures
        belongs == (guid == Compartment::OpenClose.name() || guid
            == Compartment::Conversion.name()),
{
    guid == GUID_COMPARTMENT_KEYBOARD_OPENCLOSE || guid
        == GUID_COMPARTMENT_KEYBOARD_INPUTMODE_CONVERSION
}

/// A value for one of the compartments.
#[derive(Clone, Copy, Debug, PartialEq, Eq, Structural)]
pub enum CompartmentUpdate {
    Conversion(i32),
    OpenClose(i32),
}

impl CompartmentUpdate {
    /// The compartment and its value.
    pub open spec fn target(self) -> (Compartment, i32) {
        match self {
            CompartmentUpdate::Conversion(value) => (Compartment::Conversion, value),
            CompartmentUpdate::OpenClose(value) => (Compartment::OpenClose, value),
        }
    }

    /// Returns the compartment and its value.
    pub fn write(self) -> (write: (Compartment, i32))
        ensures
            write == self.target(),
    {
        match self {
            CompartmentUpdate::Conversion(value) => (Compartment::Conversion, value),
            CompartmentUpdate::OpenClose(value) => (Compartment::OpenClose, value),
        }
    }
}

/// The values that a mode stands for, in the order in which they are written:
/// the keyboard is opened only once it converts to hiragana, and closing it
/// leaves the conversion alone.
pub open spec fn updates_for(mode: InputMode) -> Seq<CompartmentUpdate> {
    match mode {
        InputMode::Latin => seq![CompartmentUpdate::OpenClose(0)],
        InputMode::Kana => seq![
            CompartmentUpdate::Conversion(HIRAGANA_CONVERSION_MODE),
            CompartmentUpdate::OpenClose(1),
        ],
    }
}

/// Returns the values that a mode stands for, in the order in which they are
/// written.
pub fn compartment_updates(mode: InputMode) -> (updates: Vec<CompartmentUpdate>)
    ensures
        updates@ == updates_for(mode),
{
    match mode {
        InputMode::Latin => vec![CompartmentUpdate::OpenClose(0)],
        InputMode::Kana => vec![
            CompartmentUpdate::Conversion(HIRAGANA_CONVERSION_MODE),
            CompartmentUpdate::OpenClose(1),
        ],
    }
}

/// The mode that the compartments stand for: kana where the keyboard is open and
/// converts natively. An empty compartment counts as closed, or as hiragana.
pub open spec fn resolved_mode(open_close: Option<i32>, conversion_mode: Option<i32>) -> InputMode {
    let open = open_close.unwrap_or(0) != 0;
    let conversion = conversion_mode.unwrap_or(HIRAGANA_CONVERSION_MODE) as u32;
    if open && conversion & TF_CONVERSIONMODE_NATIVE != 0 {
        InputMode::Kana
    } else {
        InputMode::Latin
    }
}

/// Reduces the compartments to a mode.
pub fn input_mode_from_compartments(
    open_close: Option<i32>,
    conversion_mode: Option<i32>,
) -> (mode: InputMode)
    ensures
        mode == resolved_mode(open_close, conversion_mode),
{
    let open = match open_close {
        Some(value) => value != 0,
        None => false,
    };
    let conversion: u32 = match conversion_mode {
        Some(value) => value as u32,
        None => HIRAGANA_CONVERSION_MODE as u32,
    };
    if open && conversion & TF_CONVERSIONMODE_NATIVE != 0 {
        InputMode::Kana
    } else {
        InputMode::Latin
    }
}

/// The compartments after a value was written: open or closed, and conversion.
pub open spec fn written(
    values: (Option<i32>, Option<i32>),
    update: CompartmentUpdate,
) -> (Option<i32>, Option<i32>) {
    match update {
        CompartmentUpdate::Conversion(value) => (values.0, Some(value)),
        CompartmentUpdate::OpenClose(value) => (Some(value), values.1),
    }
}

/// The compartments after all of some values were written.
pub open spec fn all_written(
    values: (Option<i32>, Option<i32>),
    updates: Seq<CompartmentUpdate>,
) -> (Option<i32>, Option<i32>)
    decreases updates.len(),
{
    if updates.len() == 0 {
        values
    } else {
        written(all_written(values, updates.drop_last()), updates.last())
    }
}

/// Writing the values of a mode and reading the compartments gives that mode
/// back, whatever they held before; closing the keyboard leaves the conversion
/// as it was.
pub proof fn a_written_mode_reads_back(values: (Option<i32>, Option<i32>), mode: InputMode)
    ensures
        ({
            let (open_close, conversion) = all_written(values, updates_for(mode));
            &&& resolved_mode(open_close, conversion) == mode
            &&& mode == InputMode::Latin ==> conversion == values.1
        }),
{
    reveal_with_fuel(all_written, 3);
    let updates = updates_for(mode);
    assert(updates.drop_last() =~= if mode == InputMode::Kana {
        seq![CompartmentUpdate::Conversion(HIRAGANA_CONVERSION_MODE)]
    } else {
        Seq::empty()
    });
    assert(updates.drop_last().len() > 0 ==> updates.drop_last().drop_last() =~= Seq::empty());
    assert((25i32 as u32) & 1u32 != 0) by (bit_vector);
}

/// Outside work on the compartments, and on what the service keeps of them.
#[derive(Clone, Copy, Debug, PartialEq, Eq, Structural)]
pub enum CompartmentEffect {
    /// Reach the host's compartments.
    Find,
    /// Listen to a compartment.
    Advise(Compartment),
    /// Stop listening to a compartment.
    Unadvise(Compartment, u32),
    /// Keep both cookies in the service.
    StoreCookies { open_close: Option<u32>, conversion: Option<u32> },
    /// Keep one cookie in the service.
    RetainOpenClose(u32),
    /// Drop a cookie from the service, where it still keeps this one.
    ClearCookie(Compartment, u32),
    Read(Compartment),
    Write(Compartment, i32),
    /// Change the mode of the service.
    StoreMode(InputMode),
    UpdateLanguageBar,
    /// Find out whether there is a connection to the server.
    SnapshotIpc,
    /// Show the mode in the candidate window.
    ShowMode(InputMode),
    /// Note whether compartments are being written.
    GuardWrites(bool),
}

/// What came of work on the compartments.
#[derive(Clone, Copy, Debug, PartialEq, Eq, Structural)]
pub enum CompartmentReply {
    Done,
    Failed(HostError),
    Cookie(u32),
    Value(Option<i32>),
    /// The mode was changed, or was the same before.
    Changed(bool),
    Ipc(bool),
}

impl CompartmentReply {
    /// Why the work failed. A reply of the wrong kind counts as a failure.
    pub open spec fn failure(self) -> HostError {
        match self {
            CompartmentReply::Failed(error) => error,
            _ => HostError::Unavailable,
        }
    }

    pub(crate) fn error(self) -> (error: HostError)
        ensures
            error == self.failure(),
    {
        match self {
            CompartmentReply::Failed(error) => error,
            _ => HostError::Unavailable,
        }
    }
}

/// Listening to the compartments: what is waited for.
#[allow(inconsistent_fields)]
#[derive(Clone, Copy, Debug, PartialEq, Eq, Structural)]
pub enum Advising {
    /// `has_sink` tells whether the service has an object to listen with.
    Finding { has_sink: bool },
    AdvisingOpenClose,
    AdvisingConversion { open_close: u32 },
    /// The second compartment refused: stop listening to the first.
    RollingBack { open_close: u32, error: HostError },
    /// The first could not be stopped either: keep its cookie for later.
    Retaining { open_close: u32, error: HostError },
    Storing { open_close: u32, conversion: u32 },
    /// The cookies could not be kept: stop listening to the first,
    UndoingOpenClose { open_close: u32, conversion: u32, error: HostError },
    /// then to the second,
    UndoingConversion { live: Option<u32>, conversion: u32, error: HostError },
    /// and keep the cookies of what could not be stopped.
    RetainingLive { open_close: Option<u32>, conversion: Option<u32>, error: HostError },
}

/// What listening to the compartments comes to.
#[derive(Clone, Copy, Debug, PartialEq, Eq)]
pub enum AdvisingNext {
    Waiting(Advising),
    Finished(Result<(), HostError>),
}

/// Goes on once both compartments have been asked to stop.
pub open spec fn retained(
    open_close: Option<u32>,
    conversion: Option<u32>,
    error: HostError,
) -> AdvisingNext {
    if open_close is Some || conversion is Some {
        AdvisingNext::Waiting(Advising::RetainingLive { open_close, conversion, error })
    } else {
        AdvisingNext::Finished(Err(error))
    }
}

impl Advising {
    /// The outside work that is waited for.
    pub open spec fn awaited(self) -> CompartmentEffect {
        match self {
            Advising::Finding { .. } => CompartmentEffect::Find,
            Advising::AdvisingOpenClose => CompartmentEffect::Advise(Compartment::OpenClose),
            Advising::AdvisingConversion { .. } => CompartmentEffect::Advise(
                Compartment::Conversion,
            ),
            Advising::RollingBack { open_close, .. } => CompartmentEffect::Unadvise(
                Compartment::OpenClose,
                open_close,
            ),
            Advising::Retaining { open_close, .. } => CompartmentEffect::RetainOpenClose(
                open_close,
            ),
            Advising::Storing { open_close, conversion } => CompartmentEffect::StoreCookies {
                open_close: Some(open_close),
                conversion: Some(conversion),
            },
            Advising::UndoingOpenClose { open_close, .. } => CompartmentEffect::Unadvise(
                Compartment::OpenClose,
                open_close,
            ),
            Advising::UndoingConversion { conversion, .. } => CompartmentEffect::Unadvise(
                Compartment::Conversion,
                conversion,
            ),
            Advising::RetainingLive { open_close, conversion, .. } => {
                CompartmentEffect::StoreCookies { open_close, conversion }
            },
        }
    }

    /// Goes on after a reply.
    pub open spec fn resumed(self, reply: CompartmentReply) -> AdvisingNext {
        let failure = reply.failure();
        match self {
            Advising::Finding { has_sink } => if reply !is Done {
                AdvisingNext::Finished(Err(failure))
            } else if !has_sink {
                AdvisingNext::Finished(Err(HostError::Missing(MissingHandle::This)))
            } else {
                AdvisingNext::Waiting(Advising::AdvisingOpenClose)
            },
            Advising::AdvisingOpenClose => match reply {
                CompartmentReply::Cookie(open_close) => AdvisingNext::Waiting(
                    Advising::AdvisingConversion { open_close },
                ),
                _ => AdvisingNext::Finished(Err(failure)),
            },
            Advising::AdvisingConversion { open_close } => match reply {
                CompartmentReply::Cookie(conversion) => AdvisingNext::Waiting(
                    Advising::Storing { open_close, conversion },
                ),
                _ => AdvisingNext::Waiting(Advising::RollingBack { open_close, error: failure }),
            },
            Advising::RollingBack { open_close, error } => if reply is Done {
                AdvisingNext::Finished(Err(error))
            } else {
                AdvisingNext::Waiting(Advising::Retaining { open_close, error })
            },
            Advising::Retaining { error, .. } => AdvisingNext::Finished(Err(error)),
            Advising::Storing { open_close, conversion } => if reply is Done {
                AdvisingNext::Finished(Ok(()))
            } else {
                AdvisingNext::Waiting(
                    Advising::UndoingOpenClose { open_close, conversion, error: failure },
                )
            },
            Advising::UndoingOpenClose { open_close, conversion, error } => AdvisingNext::Waiting(
                Advising::UndoingConversion {
                    live: if reply is Done {
                        None
                    } else {
                        Some(open_close)
                    },
                    conversion,
                    error,
                },
            ),
            Advising::UndoingConversion { live, conversion, error } => retained(
                live,
                if reply is Done {
                    None
                } else {
                    Some(conversion)
                },
                error,
            ),
            Advising::RetainingLive { error, .. } => AdvisingNext::Finished(Err(error)),
        }
    }

    /// Returns the outside work that is waited for.
    pub fn effect(&self) -> (effect: CompartmentEffect)
        ensures
            effect == self.awaited(),
    {
        match *self {
            Advising::Finding { .. } => CompartmentEffect::Find,
            Advising::AdvisingOpenClose => CompartmentEffect::Advise(Compartment::OpenClose),
            Advising::AdvisingConversion { .. } => CompartmentEffect::Advise(
                Compartment::Conversion,
            ),
            Advising::RollingBack { open_close, .. } => CompartmentEffect::Unadvise(
                Compartment::OpenClose,
                open_close,
            ),
            Advising::Retaining { open_close, .. } => CompartmentEffect::RetainOpenClose(
                open_close,
            ),
            Advising::Storing { open_close, conversion } => CompartmentEffect::StoreCookies {
                open_close: Some(open_close),
                conversion: Some(conversion),
            },
            Advising::UndoingOpenClose { open_close, .. } => CompartmentEffect::Unadvise(
                Compartment::OpenClose,
                open_close,
            ),
            Advising::UndoingConversion { conversion, .. } => CompartmentEffect::Unadvise(
                Compartment::Conversion,
                conversion,
            ),
            Advising::RetainingLive { open_close, conversion, .. } => {
                CompartmentEffect::StoreCookies { open_close, conversion }
            },
        }
    }

    /// Goes on after a reply. A registration that fails half-way is undone, and
    /// what cannot be undone is kept for a later attempt.
    pub fn resume(self, reply: CompartmentReply) -> (next: AdvisingNext)
        ensures
            next == self.resumed(reply),
    {
        let done = matches!(reply, CompartmentReply::Done);
        match self {
            Advising::Finding { has_sink } => if !done {
                AdvisingNext::Finished(Err(reply.error()))
            } else if !has_sink {
                AdvisingNext::Finished(Err(HostError::Missing(MissingHandle::This)))
            } else {
                AdvisingNext::Waiting(Advising::AdvisingOpenClose)
            },
            Advising::AdvisingOpenClose => match reply {
                CompartmentReply::Cookie(open_close) => AdvisingNext::Waiting(
                    Advising::AdvisingConversion { open_close },
                ),
                _ => AdvisingNext::Finished(Err(reply.error())),
            },
            Advising::AdvisingConversion { open_close } => match reply {
                CompartmentReply::Cookie(conversion) => AdvisingNext::Waiting(
                    Advising::Storing { open_close, conversion },
                ),
                _ => AdvisingNext::Waiting(
                    Advising::RollingBack { open_close, error: reply.error() },
                ),
            },
            Advising::RollingBack { open_close, error } => if done {
                AdvisingNext::Finished(Err(error))
            } else {
                AdvisingNext::Waiting(Advising::Retaining { open_close, error })
            },
            Advising::Retaining { error, .. } => AdvisingNext::Finished(Err(error)),
            Advising::Storing { open_close, conversion } => if done {
                AdvisingNext::Finished(Ok(()))
            } else {
                AdvisingNext::Waiting(
                    Advising::UndoingOpenClose { open_close, conversion, error: reply.error() },
                )
            },
            Advising::UndoingOpenClose { open_close, conversion, error } => AdvisingNext::Waiting(
                Advising::UndoingConversion {
                    live: if done {
                        None
                    } else {
                        Some(open_close)
                    },
                    conversion,
                    error,
                },
            ),
            Advising::UndoingConversion { live, conversion, error } => {
                let conversion = if done {
                    None
                } else {
                    Some(conversion)
                };
                if live.is_some() || conversion.is_some() {
                    AdvisingNext::Waiting(
                        Advising::RetainingLive { open_close: live, conversion, error },
                    )
                } else {
                    AdvisingNext::Finished(Err(error))
                }
            },
            Advising::RetainingLive { error, .. } => AdvisingNext::Finished(Err(error)),
        }
    }
}

/// The sinks that the host calls, and the cookies that the service keeps.
pub struct Sinks {
    pub live_open_close: Option<u32>,
    pub live_conversion: Option<u32>,
    pub kept_open_close: Option<u32>,
    pub kept_conversion: Option<u32>,
}

impl Sinks {
    /// The sinks and cookies after outside work has been answered.
    pub open spec fn after(self, effect: CompartmentEffect, reply: CompartmentReply) -> Sinks {
        match effect {
            CompartmentEffect::Advise(compartment) => match (compartment, reply) {
                (Compartment::OpenClose, CompartmentReply::Cookie(cookie)) => Sinks {
                    live_open_close: Some(cookie),
                    ..self
                },
                (Compartment::Conversion, CompartmentReply::Cookie(cookie)) => Sinks {
                    live_conversion: Some(cookie),
                    ..self
                },
                _ => self,
            },
            CompartmentEffect::Unadvise(compartment, cookie) => if reply is Done {
                match compartment {
                    Compartment::OpenClose => Sinks { live_open_close: None, ..self },
                    Compartment::Conversion => Sinks { live_conversion: None, ..self },
                }
            } else {
                self
            },
            CompartmentEffect::StoreCookies { open_close, conversion } => if reply is Done {
                Sinks { kept_open_close: open_close, kept_conversion: conversion, ..self }
            } else {
                self
            },
            CompartmentEffect::RetainOpenClose(cookie) => if reply is Done {
                Sinks { kept_open_close: Some(cookie), ..self }
            } else {
                self
            },
            CompartmentEffect::ClearCookie(compartment, cookie) => if reply is Done {
                match compartment {
                    Compartment::OpenClose => Sinks {
                        kept_open_close: if self.kept_open_close == Some(cookie) {
                            None
                        } else {
                            self.kept_open_close
                        },
                        ..self
                    },
                    Compartment::Conversion => Sinks {
                        kept_conversion: if self.kept_conversion == Some(cookie) {
                            None
                        } else {
                            self.kept_conversion
                        },
                        ..self
                    },
                }
            } else {
                self
            },
            _ => self,
        }
    }

    /// Every sink that the host calls has its cookie kept in the service.
    pub open spec fn all_kept(self) -> bool {
        &&& self.live_open_close is Some ==> self.kept_open_close == self.live_open_close
        &&& self.live_conversion is Some ==> self.kept_conversion == self.live_conversion
    }
}

/// What listening to the compartments knows of the sinks: it holds the cookies
/// of those that the host calls.
pub open spec fn knows(advising: Advising, sinks: Sinks) -> bool {
    match advising {
        Advising::Finding { .. } | Advising::AdvisingOpenClose => sinks.live_open_close is None
            && sinks.live_conversion is None,
        Advising::AdvisingConversion { open_close } | Advising::RollingBack { open_close, .. }
        | Advising::Retaining { open_close, .. } => sinks.live_open_close == Some(open_close)
            && sinks.live_conversion is None,
        Advising::Storing { open_close, conversion } => sinks.live_open_close == Some(open_close)
            && sinks.live_conversion == Some(conversion),
        Advising::UndoingOpenClose { open_close, conversion, .. } => sinks.live_open_close == Some(
            open_close,
        ) && sinks.live_conversion == Some(conversion),
        Advising::UndoingConversion { live, conversion, .. } => sinks.live_open_close == live
            && sinks.live_conversion == Some(conversion),
        Advising::RetainingLive { open_close, conversion, .. } => sinks.live_open_close
            == open_close && sinks.live_conversion == conversion,
    }
}

/// Listening to the compartments loses no sink: at its end the service keeps the
/// cookie of every sink that the host calls, unless the service's state was
/// unavailable to the last attempt to keep them.
pub proof fn advising_loses_no_sink(advising: Advising, sinks: Sinks, reply: CompartmentReply)
    requires
        knows(advising, sinks),
    ensures
        match advising.resumed(reply) {
            AdvisingNext::Waiting(next) => knows(next, sinks.after(advising.awaited(), reply)),
            AdvisingNext::Finished(result) => {
                let after = sinks.after(advising.awaited(), reply);
                &&& result is Ok ==> after.all_kept() && after.live_open_close is Some
                    && after.live_conversion is Some
                &&& ((advising is Retaining || advising is RetainingLive) && reply !is Done)
                    || after.all_kept()
            },
        },
{
}

/// No longer listening to the compartments: whose turn it is, and the first
/// failure. `clearing` tells that its sink is gone and its cookie is dropped.
#[derive(Clone, Copy, Debug, PartialEq, Eq, Structural)]
pub struct Unadvising {
    pub open_close: Option<u32>,
    pub conversion: Option<u32>,
    pub stage: UnadvisingStage,
    pub first_error: Option<HostError>,
}

/// What is waited for.
#[derive(Clone, Copy, Debug, PartialEq, Eq, Structural)]
pub enum UnadvisingStage {
    Finding,
    Stopping(Compartment, u32),
    Clearing(Compartment, u32),
}

/// What no longer listening comes to.
#[derive(Clone, Copy, Debug, PartialEq, Eq)]
pub enum UnadvisingNext {
    Waiting(Unadvising),
    Finished(Result<(), HostError>),
}

impl Unadvising {
    /// The outside work that is waited for.
    pub open spec fn awaited(self) -> CompartmentEffect {
        match self.stage {
            UnadvisingStage::Finding => CompartmentEffect::Find,
            UnadvisingStage::Stopping(compartment, cookie) => CompartmentEffect::Unadvise(
                compartment,
                cookie,
            ),
            UnadvisingStage::Clearing(compartment, cookie) => CompartmentEffect::ClearCookie(
                compartment,
                cookie,
            ),
        }
    }

    /// Goes on with the first compartment that has a cookie.
    pub open spec fn open_close_next(self) -> UnadvisingNext {
        match self.open_close {
            Some(cookie) => UnadvisingNext::Waiting(
                Unadvising {
                    stage: UnadvisingStage::Stopping(Compartment::OpenClose, cookie),
                    ..self
                },
            ),
            None => self.conversion_next(),
        }
    }

    /// Goes on with the second compartment.
    pub open spec fn conversion_next(self) -> UnadvisingNext {
        match self.conversion {
            Some(cookie) => UnadvisingNext::Waiting(
                Unadvising {
                    stage: UnadvisingStage::Stopping(Compartment::Conversion, cookie),
                    ..self
                },
            ),
            None => self.finished(),
        }
    }

    /// The first failure, if any, is the result.
    pub open spec fn finished(self) -> UnadvisingNext {
        UnadvisingNext::Finished(
            match self.first_error {
                Some(error) => Err(error),
                None => Ok(()),
            },
        )
    }

    /// The same work after a failure.
    pub open spec fn failed(self, error: HostError) -> Unadvising {
        Unadvising {
            first_error: Some(
                match self.first_error {
                    Some(first) => first,
                    None => error,
                },
            ),
            ..self
        }
    }

    /// Goes on after a compartment has had its turn.
    pub open spec fn after(self, compartment: Compartment) -> UnadvisingNext {
        match compartment {
            Compartment::OpenClose => self.conversion_next(),
            Compartment::Conversion => self.finished(),
        }
    }

    /// Goes on after a reply.
    pub open spec fn resumed(self, reply: CompartmentReply) -> UnadvisingNext {
        match self.stage {
            UnadvisingStage::Finding => if reply is Done {
                self.open_close_next()
            } else {
                UnadvisingNext::Finished(Err(reply.failure()))
            },
            UnadvisingStage::Stopping(compartment, cookie) => if reply is Done {
                UnadvisingNext::Waiting(
                    Unadvising { stage: UnadvisingStage::Clearing(compartment, cookie), ..self },
                )
            } else {
                self.failed(reply.failure()).after(compartment)
            },
            UnadvisingStage::Clearing(compartment, _) => if reply is Done {
                self.after(compartment)
            } else {
                self.failed(reply.failure()).after(compartment)
            },
        }
    }

    /// Returns the outside work that is waited for.
    pub fn effect(&self) -> (effect: CompartmentEffect)
        ensures
            effect == self.awaited(),
    {
        match self.stage {
            UnadvisingStage::Finding => CompartmentEffect::Find,
            UnadvisingStage::Stopping(compartment, cookie) => CompartmentEffect::Unadvise(
                compartment,
                cookie,
            ),
            UnadvisingStage::Clearing(compartment, cookie) => CompartmentEffect::ClearCookie(
                compartment,
                cookie,
            ),
        }
    }

    fn end(self) -> (next: UnadvisingNext)
        ensures
            next == self.finished(),
    {
        UnadvisingNext::Finished(
            match self.first_error {
                Some(error) => Err(error),
                None => Ok(()),
            },
        )
    }

    fn stop_conversion(self) -> (next: UnadvisingNext)
        ensures
            next == self.conversion_next(),
    {
        match self.conversion {
            Some(cookie) => UnadvisingNext::Waiting(
                Unadvising {
                    stage: UnadvisingStage::Stopping(Compartment::Conversion, cookie),
                    ..self
                },
            ),
            None => self.end(),
        }
    }

    fn go_on(self, compartment: Compartment) -> (next: UnadvisingNext)
        ensures
            next == self.after(compartment),
    {
        match compartment {
            Compartment::OpenClose => self.stop_conversion(),
            Compartment::Conversion => self.end(),
        }
    }

    fn fail(self, error: HostError) -> (failed: Unadvising)
        ensures
            failed == self.failed(error),
    {
        Unadvising {
            first_error: Some(
                match self.first_error {
                    Some(first) => first,
                    None => error,
                },
            ),
            ..self
        }
    }

    /// Goes on after a reply. Both compartments have their turn, and a cookie is
    /// dropped only once its sink is gone.
    pub fn resume(self, reply: CompartmentReply) -> (next: UnadvisingNext)
        ensures
            next == self.resumed(reply),
    {
        let done = matches!(reply, CompartmentReply::Done);
        match self.stage {
            UnadvisingStage::Finding => if !done {
                UnadvisingNext::Finished(Err(reply.error()))
            } else {
                match self.open_close {
                    Some(cookie) => UnadvisingNext::Waiting(
                        Unadvising {
                            stage: UnadvisingStage::Stopping(Compartment::OpenClose, cookie),
                            ..self
                        },
                    ),
                    None => self.stop_conversion(),
                }
            },
            UnadvisingStage::Stopping(compartment, cookie) => if done {
                UnadvisingNext::Waiting(
                    Unadvising { stage: UnadvisingStage::Clearing(compartment, cookie), ..self },
                )
            } else {
                self.fail(reply.error()).go_on(compartment)
            },
            UnadvisingStage::Clearing(compartment, _) => if done {
                self.go_on(compartment)
            } else {
                self.fail(reply.error()).go_on(compartment)
            },
        }
    }
}

/// What no longer listening knows of the sinks: a cookie that is being dropped
/// belongs to a sink that is gone, and every cookie not yet worked on is kept.
pub open spec fn stops(work: Unadvising, sinks: Sinks) -> bool {
    &&& sinks.all_kept()
    &&& match work.stage {
        UnadvisingStage::Clearing(Compartment::OpenClose, _) => sinks.live_open_close is None,
        UnadvisingStage::Clearing(Compartment::Conversion, _) => sinks.live_conversion is None,
        _ => true,
    }
}

/// No longer listening drops no cookie of a sink that the host still calls, so
/// that a failed attempt can be repeated.
pub proof fn unadvising_keeps_what_is_live(
    work: Unadvising,
    sinks: Sinks,
    reply: CompartmentReply,
)
    requires
        stops(work, sinks),
    ensures
        sinks.after(work.awaited(), reply).all_kept(),
        work.resumed(reply) matches UnadvisingNext::Waiting(next) ==> stops(
            next,
            sinks.after(work.awaited(), reply),
        ),
{
}

impl TextServiceView {
    /// Begins to listen to the compartments, which are those of the thread manager.
    pub open spec fn advising_begun(self) -> AdvisingNext {
        if self.thread_mgr is None {
            AdvisingNext::Finished(Err(HostError::Missing(MissingHandle::ThreadMgr)))
        } else {
            AdvisingNext::Waiting(Advising::Finding { has_sink: self.this is Some })
        }
    }

    /// How no longer listening begins. Where no cookie is kept there is nothing to
    /// do.
    pub open spec fn unadvising_begun(self) -> UnadvisingNext {
        if self.open_close_cookie is None && self.conversion_mode_cookie is None {
            UnadvisingNext::Finished(Ok(()))
        } else if self.thread_mgr is None {
            UnadvisingNext::Finished(Err(HostError::Missing(MissingHandle::ThreadMgr)))
        } else {
            UnadvisingNext::Waiting(
                Unadvising {
                    open_close: self.open_close_cookie,
                    conversion: self.conversion_mode_cookie,
                    stage: UnadvisingStage::Finding,
                    first_error: None,
                },
            )
        }
    }
}

impl TextServiceFactory {
    /// Returns the thread manager, whose compartments hold the mode, and the id that
    /// they are written under.
    pub fn input_mode_compartment_mgr(&self) -> (found: Result<(u64, u32), HostError>)
        ensures
            found == match self@.thread_mgr {
                Some(thread_mgr) => Ok((thread_mgr, self@.tid)),
                None => Err(HostError::Missing(MissingHandle::ThreadMgr)),
            },
    {
        match self.text_service.thread_mgr() {
            Ok(thread_mgr) => Ok((thread_mgr, self.text_service.tid)),
            Err(missing) => Err(HostError::Missing(missing)),
        }
    }

    /// Begins to listen to the compartments.
    pub fn advise_input_mode_compartments(&self) -> (next: AdvisingNext)
        ensures
            next == self@.advising_begun(),
    {
        match self.input_mode_compartment_mgr() {
            Ok(_) => AdvisingNext::Waiting(
                Advising::Finding { has_sink: self.text_service.this.is_some() },
            ),
            Err(error) => AdvisingNext::Finished(Err(error)),
        }
    }

    /// Begins to stop listening to the compartments.
    pub fn unadvise_input_mode_compartments(&self) -> (next: UnadvisingNext)
        ensures
            next == self@.unadvising_begun(),
    {
        let open_close = self.text_service.open_close_cookie;
        let conversion = self.text_service.conversion_mode_cookie;
        if open_close.is_none() && conversion.is_none() {
            return UnadvisingNext::Finished(Ok(()));
        }
        match self.input_mode_compartment_mgr() {
            Ok(_) => UnadvisingNext::Waiting(
                Unadvising {
                    open_close,
                    conversion,
                    stage: UnadvisingStage::Finding,
                    first_error: None,
                },
            ),
            Err(error) => UnadvisingNext::Finished(Err(error)),
        }
    }

    /// Keeps both cookies.
    pub fn store_compartment_cookies(&mut self, open_close: Option<u32>, conversion: Option<u32>)
        ensures
            final(self)@ == (TextServiceView {
                open_close_cookie: open_close,
                conversion_mode_cookie: conversion,
                ..old(self)@
            }),
    {
        self.text_service.open_close_cookie = open_close;
        self.text_service.conversion_mode_cookie = conversion;
    }

    /// Drops a cookie, where it is the one kept for its compartment.
    pub fn clear_compartment_cookie(&mut self, compartment: Compartment, cookie: u32)
        ensures
            final(self)@ == match compartment {
                Compartment::OpenClose => if old(self)@.open_close_cookie == Some(cookie) {
                    TextServiceView { open_close_cookie: None, ..old(self)@ }
                } else {
                    old(self)@
                },
                Compartment::Conversion => if old(self)@.conversion_mode_cookie == Some(cookie) {
                    TextServiceView { conversion_mode_cookie: None, ..old(self)@ }
                } else {
                    old(self)@
                },
            },
    {
        match compartment {
            Compartment::OpenClose => if self.text_service.open_close_cookie == Some(cookie) {
                self.text_service.open_close_cookie = None;
            },
            Compartment::Conversion => {
                if self.text_service.conversion_mode_cookie == Some(cookie) {
                    self.text_service.conversion_mode_cookie = None;
                }
            },
        }
    }

    /// Changes the mode, and tells whether it was another one before.
    pub fn store_mode(&mut self, mode: InputMode) -> (changed: bool)
        ensures
            changed == (old(self)@.mode != mode),
            final(self)@ == (TextServiceView { mode, ..old(self)@ }),
    {
        let changed = self.text_service.mode != mode;
        self.text_service.mode = mode;
        changed
    }
}

/// The mode is kana exactly where the keyboard is open and the lowest bit of its
/// conversion is set. A keyboard that says nothing is closed, and a conversion that
/// is not there counts as hiragana.
pub proof fn only_an_open_native_keyboard_is_kana(open: i32, conversion: i32)
    ensures
        resolved_mode(None, Some(conversion)) == InputMode::Latin,
        resolved_mode(None, None) == InputMode::Latin,
        resolved_mode(Some(0), Some(conversion)) == InputMode::Latin,
        resolved_mode(Some(0), None) == InputMode::Latin,
        open != 0 ==> resolved_mode(Some(open), None) == InputMode::Kana,
        open != 0 ==> (resolved_mode(Some(open), Some(conversion)) == InputMode::Kana <==> conversion
            % 2 != 0),
{
    assert((25i32 as u32) & 1u32 != 0) by (bit_vector);
    assert(((conversion as u32) & 1u32 != 0) <==> (conversion % 2 != 0)) by (bit_vector);
}

/// Kana is written as a conversion to hiragana and then an open keyboard, Latin as
/// a closed keyboard and nothing else.
pub proof fn a_mode_is_written_as_its_values(mode: InputMode)
    ensures
        updates_for(InputMode::Latin) == seq![CompartmentUpdate::OpenClose(0)],
        updates_for(InputMode::Kana) == seq![
            CompartmentUpdate::Conversion(25),
            CompartmentUpdate::OpenClose(1),
        ],
        CompartmentUpdate::OpenClose(1).target() == (Compartment::OpenClose, 1i32),
        CompartmentUpdate::Conversion(25).target() == (Compartment::Conversion, 25i32),
        Compartment::OpenClose.name() != Compartment::Conversion.name(),
{
}

/// Listening begins with the compartment that opens the keyboard, goes on to the
/// other one, and keeps the cookies of both. Where the other one refuses, the first
/// is stopped with its own cookie, and the refusal is the result.
pub proof fn both_compartments_are_listened_to(open_close: u32, conversion: u32, error: HostError)
    ensures
        ({
            let first = Advising::Finding { has_sink: true };
            let second = first.resumed(CompartmentReply::Done)->Waiting_0;
            let third = second.resumed(CompartmentReply::Cookie(open_close))->Waiting_0;
            let fourth = third.resumed(CompartmentReply::Cookie(conversion))->Waiting_0;
            let undone = third.resumed(CompartmentReply::Failed(error))->Waiting_0;
            &&& first.awaited() == CompartmentEffect::Find
            &&& second.awaited() == CompartmentEffect::Advise(Compartment::OpenClose)
            &&& third.awaited() == CompartmentEffect::Advise(Compartment::Conversion)
            &&& fourth.awaited() == CompartmentEffect::StoreCookies {
                open_close: Some(open_close),
                conversion: Some(conversion),
            }
            &&& fourth.resumed(CompartmentReply::Done) == AdvisingNext::Finished(Ok(()))
            &&& undone.awaited() == CompartmentEffect::Unadvise(Compartment::OpenClose, open_close)
            &&& undone.resumed(CompartmentReply::Done) == AdvisingNext::Finished(Err(error))
            &&& (Advising::Finding { has_sink: false }).resumed(CompartmentReply::Done)
                == AdvisingNext::Finished(Err(HostError::Missing(MissingHandle::This)))
            &&& first.resumed(CompartmentReply::Failed(error)) == AdvisingNext::Finished(Err(error))
            &&& second.resumed(CompartmentReply::Failed(error)) == AdvisingNext::Finished(
                Err(error),
            )
        }),
{
}

/// Where the cookies cannot be kept, both compartments are stopped, and those that
/// cannot be stopped have their cookies kept; the first failure is the result.
pub proof fn what_cannot_be_stopped_is_kept(
    open_close: u32,
    conversion: u32,
    error: HostError,
    first_reply: CompartmentReply,
    second_reply: CompartmentReply,
)
    ensures
        ({
            let storing = Advising::Storing { open_close, conversion };
            let first = storing.resumed(CompartmentReply::Failed(error))->Waiting_0;
            let second = first.resumed(first_reply)->Waiting_0;
            let last = second.resumed(second_reply);
            &&& first.awaited() == CompartmentEffect::Unadvise(Compartment::OpenClose, open_close)
            &&& second.awaited() == CompartmentEffect::Unadvise(
                Compartment::Conversion,
                conversion,
            )
            &&& first_reply is Done && second_reply is Done ==> last == AdvisingNext::Finished(
                Err(error),
            )
            &&& !(first_reply is Done) || !(second_reply is Done) ==> last is Waiting
                && last->Waiting_0.awaited() == CompartmentEffect::StoreCookies {
                open_close: if first_reply is Done {
                    None
                } else {
                    Some(open_close)
                },
                conversion: if second_reply is Done {
                    None
                } else {
                    Some(conversion)
                },
            } && last->Waiting_0.resumed(first_reply) == AdvisingNext::Finished(Err(error))
        }),
{
}

/// Both compartments have their turn when listening stops, each with its own cookie,
/// and a cookie is dropped only once its compartment has been stopped. A failure of
/// the first does not keep the second from its turn, and the first failure is the
/// result.
pub proof fn both_compartments_are_stopped(
    work: Unadvising,
    open_close: u32,
    conversion: u32,
    error: HostError,
    later: HostError,
)
    requires
        work == (Unadvising {
            open_close: Some(open_close),
            conversion: Some(conversion),
            stage: UnadvisingStage::Finding,
            first_error: None,
        }),
    ensures
        ({
            let done = CompartmentReply::Done;
            let first = work.resumed(done)->Waiting_0;
            let cleared = first.resumed(done)->Waiting_0;
            let second = cleared.resumed(done)->Waiting_0;
            let dropped = second.resumed(done)->Waiting_0;
            let skipped = first.resumed(CompartmentReply::Failed(error))->Waiting_0;
            &&& work.awaited() == CompartmentEffect::Find
            &&& first.awaited() == CompartmentEffect::Unadvise(Compartment::OpenClose, open_close)
            &&& cleared.awaited() == CompartmentEffect::ClearCookie(
                Compartment::OpenClose,
                open_close,
            )
            &&& second.awaited() == CompartmentEffect::Unadvise(Compartment::Conversion, conversion)
            &&& dropped.awaited() == CompartmentEffect::ClearCookie(
                Compartment::Conversion,
                conversion,
            )
            &&& dropped.resumed(done) == UnadvisingNext::Finished(Ok(()))
            &&& skipped.awaited() == CompartmentEffect::Unadvise(
                Compartment::Conversion,
                conversion,
            )
            &&& skipped.resumed(CompartmentReply::Failed(later)) == UnadvisingNext::Finished(
                Err(error),
            )
            &&& second.resumed(CompartmentReply::Failed(later)) == UnadvisingNext::Finished(
                Err(later),
            )
        }),
{
}

/// Listening to the compartments, and no longer listening, takes the thread manager,
/// whose compartments they are. To stop takes it only where something is listened to.
pub proof fn the_compartments_are_the_thread_managers(service: TextServiceView)
    ensures
        service.thread_mgr is None ==> service.advising_begun() == AdvisingNext::Finished(
            Err(HostError::Missing(MissingHandle::ThreadMgr)),
        ),
        service.thread_mgr is Some ==> {
            &&& service.advising_begun() is Waiting
            &&& service.advising_begun()->Waiting_0.awaited() == CompartmentEffect::Find
            &&& service.this is None ==> service.advising_begun()->Waiting_0.resumed(
                CompartmentReply::Done,
            ) == AdvisingNext::Finished(Err(HostError::Missing(MissingHandle::This)))
        },
        service.open_close_cookie is None && service.conversion_mode_cookie is None
            ==> service.unadvising_begun() == UnadvisingNext::Finished(Ok(())),
        service.open_close_cookie is Some || service.conversion_mode_cookie is Some ==> {
            &&& service.thread_mgr is None ==> service.unadvising_begun()
                == UnadvisingNext::Finished(Err(HostError::Missing(MissingHandle::ThreadMgr)))
            &&& service.thread_mgr is Some ==> {
                &&& service.unadvising_begun() is Waiting
                &&& service.unadvising_begun()->Waiting_0.awaited() == CompartmentEffect::Find
                &&& service.unadvising_begun()->Waiting_0.open_close == service.open_close_cookie
                &&& service.unadvising_begun()->Waiting_0.conversion
                    == service.conversion_mode_cookie
                &&& service.unadvising_begun()->Waiting_0.first_error is None
            }
        },
{
}

} // verus!
