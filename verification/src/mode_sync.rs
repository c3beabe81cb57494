//! Keeping the service, the compartments and the user's wish in step.

use vstd::prelude::*;

use crate::compartments::{
    compartment_updates, input_mode_from_compartments, is_input_mode_compartment, resolved_mode,
    updates_for, Advising, AdvisingNext, Compartment, CompartmentEffect, CompartmentReply,
    Unadvising, UnadvisingNext, GUID_COMPARTMENT_KEYBOARD_OPENCLOSE, HIRAGANA_CONVERSION_MODE,
};
use crate::input_mode::InputMode;
use crate::key_handling::TextServiceFactory;
use crate::text::{bool_name, bool_text, decimal_notation, decimal_signed};
use crate::text_service::{
    next_pending_input_mode_transition, pending_after, HostError, MissingHandle, TextServiceView,
};

verus! {

/// Giving the service a mode: what is waited for.
#[derive(Clone, Copy, Debug, PartialEq, Eq, Structural)]
pub enum ApplyStage {
    Storing,
    UpdatingLanguageBar,
    FindingServer,
    ShowingMode,
}

/// Giving the service a mode. `force_notification` asks for the notices even
/// where the mode was the same before.
#[derive(Clone, Copy, Debug, PartialEq, Eq, Structural)]
pub struct ApplyMode {
    pub mode: InputMode,
    pub force_notification: bool,
    pub stage: ApplyStage,
}

/// What giving the service a mode comes to.
#[derive(Clone, Copy, Debug, PartialEq, Eq)]
pub enum ApplyNext {
    Waiting(ApplyMode),
    Finished(Result<(), HostError>),
}

impl ApplyMode {
    /// Begins to give the service a mode.
    pub open spec fn begun(mode: InputMode, force_notification: bool) -> ApplyMode {
        ApplyMode { mode, force_notification, stage: ApplyStage::Storing }
    }

    /// The outside work that is waited for.
    pub open spec fn awaited(self) -> CompartmentEffect {
        match self.stage {
            ApplyStage::Storing => CompartmentEffect::StoreMode(self.mode),
            ApplyStage::UpdatingLanguageBar => CompartmentEffect::UpdateLanguageBar,
            ApplyStage::FindingServer => CompartmentEffect::SnapshotIpc,
            ApplyStage::ShowingMode => CompartmentEffect::ShowMode(self.mode),
        }
    }

    /// Goes on after a reply. Only the change of the service itself can fail:
    /// the notices are best effort.
    pub open spec fn resumed(self, reply: CompartmentReply) -> ApplyNext {
        match self.stage {
            ApplyStage::Storing => match reply {
                CompartmentReply::Changed(changed) => if changed || self.force_notification {
                    ApplyNext::Waiting(
                        ApplyMode { stage: ApplyStage::UpdatingLanguageBar, ..self },
                    )
                } else {
                    ApplyNext::Finished(Ok(()))
                },
                _ => ApplyNext::Finished(Err(reply.failure())),
            },
            ApplyStage::UpdatingLanguageBar => ApplyNext::Waiting(
                ApplyMode { stage: ApplyStage::FindingServer, ..self },
            ),
            ApplyStage::FindingServer => if reply == CompartmentReply::Ipc(true) {
                ApplyNext::Waiting(ApplyMode { stage: ApplyStage::ShowingMode, ..self })
            } else {
                ApplyNext::Finished(Ok(()))
            },
            ApplyStage::ShowingMode => ApplyNext::Finished(Ok(())),
        }
    }

    /// Returns the outside work that is waited for.
    pub fn effect(&self) -> (effect: CompartmentEffect)
        ensures
            effect == self.awaited(),
    {
        match self.stage {
            ApplyStage::Storing => CompartmentEffect::StoreMode(self.mode),
            ApplyStage::UpdatingLanguageBar => CompartmentEffect::UpdateLanguageBar,
            ApplyStage::FindingServer => CompartmentEffect::SnapshotIpc,
            ApplyStage::ShowingMode => CompartmentEffect::ShowMode(self.mode),
        }
    }

    /// Goes on after a reply.
    pub fn resume(self, reply: CompartmentReply) -> (next: ApplyNext)
        ensures
            next == self.resumed(reply),
    {
        match self.stage {
            ApplyStage::Storing => match reply {
                CompartmentReply::Changed(changed) => if changed || self.force_notification {
                    ApplyNext::Waiting(
                        ApplyMode { stage: ApplyStage::UpdatingLanguageBar, ..self },
                    )
                } else {
                    ApplyNext::Finished(Ok(()))
                },
                _ => ApplyNext::Finished(Err(reply.error())),
            },
            ApplyStage::UpdatingLanguageBar => ApplyNext::Waiting(
                ApplyMode { stage: ApplyStage::FindingServer, ..self },
            ),
            ApplyStage::FindingServer => match reply {
                CompartmentReply::Ipc(true) => ApplyNext::Waiting(
                    ApplyMode { stage: ApplyStage::ShowingMode, ..self },
                ),
                _ => ApplyNext::Finished(Ok(())),
            },
            ApplyStage::ShowingMode => ApplyNext::Finished(Ok(())),
        }
    }
}

/// What a mode command came to.
#[derive(Clone, Copy, Debug, PartialEq, Eq, Structural)]
pub enum ModeResult {
    Done(InputMode),
    ApplyError,
    WriteError(InputMode),
    SyncError,
    WriteAndSyncError,
}

/// A line for the diagnostic log.
#[derive(Clone, Copy, Debug, PartialEq, Eq, Structural)]
pub enum ModeReport {
    Normalized { changed: bool },
    State { open_close: Option<i32>, conversion: Option<i32>, mode: InputMode },
    Request(InputMode),
    Result { requested: InputMode, result: ModeResult },
    Change(Compartment),
}

/// The name of a mode.
pub open spec fn mode_name(mode: InputMode) -> Seq<char> {
    match mode {
        InputMode::Latin => "Latin"@,
        InputMode::Kana => "Kana"@,
    }
}

fn mode_text(mode: InputMode) -> (text: &'static str)
    ensures
        text@ == mode_name(mode),
{
    match mode {
        InputMode::Latin => "Latin",
        InputMode::Kana => "Kana",
    }
}

/// The notation of a compartment's value.
pub open spec fn value_name(value: Option<i32>) -> Seq<char> {
    match value {
        Some(value) => "Some("@ + decimal_notation(value as int) + ")"@,
        None => "None"@,
    }
}

fn value_text(value: Option<i32>) -> (text: String)
    ensures
        text@ == value_name(value),
{
    match value {
        Some(value) => {
            let mut text = "Some(".to_owned();
            text.append(decimal_signed(value as i64).as_str());
            text.append(")");
            text
        },
        None => "None".to_owned(),
    }
}

impl ModeReport {
    /// The name of the event.
    pub open spec fn event_name(self) -> Seq<char> {
        match self {
            ModeReport::Normalized { .. } => "compartment_normalize"@,
            ModeReport::State { .. } => "compartment_state"@,
            ModeReport::Request(_) => "mode_request"@,
            ModeReport::Result { .. } => "mode_result"@,
            ModeReport::Change(_) => "compartment_change"@,
        }
    }

    /// Returns the name of the event.
    pub fn event(&self) -> (name: &'static str)
        ensures
            name@ == self.event_name(),
    {
        match self {
            ModeReport::Normalized { .. } => "compartment_normalize",
            ModeReport::State { .. } => "compartment_state",
            ModeReport::Request(_) => "mode_request",
            ModeReport::Result { .. } => "mode_result",
            ModeReport::Change(_) => "compartment_change",
        }
    }

    /// The text of this line.
    pub open spec fn text(self) -> Seq<char> {
        match self {
            ModeReport::Normalized { changed } => "conversion="@ + decimal_notation(
                HIRAGANA_CONVERSION_MODE as int,
            ) + " changed="@ + bool_name(changed),
            ModeReport::State { open_close, conversion, mode } => "open_close="@ + value_name(
                open_close,
            ) + " conversion="@ + value_name(conversion) + " resolved="@ + mode_name(mode),
            ModeReport::Request(mode) => "requested="@ + mode_name(mode),
            ModeReport::Result { requested, result } => {
                let request = "requested="@ + mode_name(requested);
                match result {
                    ModeResult::Done(actual) => request + " actual="@ + mode_name(actual)
                        + " status=ok"@,
                    ModeResult::ApplyError => request + " status=apply_error"@,
                    ModeResult::WriteError(actual) => request + " actual="@ + mode_name(actual)
                        + " status=write_error"@,
                    ModeResult::SyncError => request + " status=sync_error"@,
                    ModeResult::WriteAndSyncError => request + " status=write_and_sync_error"@,
                }
            },
            ModeReport::Change(compartment) => "kind="@ + match compartment {
                Compartment::OpenClose => "open_close"@,
                Compartment::Conversion => "conversion"@,
            },
        }
    }

    /// Writes the text of this line.
    pub fn detail(&self) -> (detail: String)
        ensures
            detail@ == self.text(),
    {
        match *self {
            ModeReport::Normalized { changed } => {
                let mut detail = "conversion=".to_owned();
                detail.append(decimal_signed(HIRAGANA_CONVERSION_MODE as i64).as_str());
                detail.append(" changed=");
                detail.append(bool_text(changed));
                detail
            },
            ModeReport::State { open_close, conversion, mode } => {
                let mut detail = "open_close=".to_owned();
                detail.append(value_text(open_close).as_str());
                detail.append(" conversion=");
                detail.append(value_text(conversion).as_str());
                detail.append(" resolved=");
                detail.append(mode_text(mode));
                detail
            },
            ModeReport::Request(mode) => {
                let mut detail = "requested=".to_owned();
                detail.append(mode_text(mode));
                detail
            },
            ModeReport::Result { requested, result } => {
                let mut detail = "requested=".to_owned();
                detail.append(mode_text(requested));
                match result {
                    ModeResult::Done(actual) => {
                        detail.append(" actual=");
                        detail.append(mode_text(actual));
                        detail.append(" status=ok");
                    },
                    ModeResult::ApplyError => {
                        detail.append(" status=apply_error");
                    },
                    ModeResult::WriteError(actual) => {
                        detail.append(" actual=");
                        detail.append(mode_text(actual));
                        detail.append(" status=write_error");
                    },
                    ModeResult::SyncError => {
                        detail.append(" status=sync_error");
                    },
                    ModeResult::WriteAndSyncError => {
                        detail.append(" status=write_and_sync_error");
                    },
                }
                detail
            },
            ModeReport::Change(compartment) => {
                let mut detail = "kind=".to_owned();
                detail.append(
                    match compartment {
                        Compartment::OpenClose => "open_close",
                        Compartment::Conversion => "conversion",
                    },
                );
                detail
            },
        }
    }
}

/// Reading the mode from the compartments: what is waited for.
#[derive(Clone, Copy, Debug, PartialEq, Eq, Structural)]
pub enum SyncStage {
    Finding,
    ReadingOpenClose,
    ReadingConversion { open_close: Option<i32> },
    Applying(ApplyMode),
}

/// Reading the mode from the compartments and giving it to the service.
#[derive(Clone, Copy, Debug, PartialEq, Eq, Structural)]
pub struct SyncMode {
    pub force_notification: bool,
    pub stage: SyncStage,
}

/// What reading the mode comes to.
#[derive(Clone, Copy, Debug, PartialEq, Eq)]
pub enum SyncNext {
    Waiting(SyncMode),
    Finished(Result<InputMode, HostError>),
}

impl SyncMode {
    /// Begins to read the mode.
    pub open spec fn begun(force_notification: bool) -> SyncMode {
        SyncMode { force_notification, stage: SyncStage::Finding }
    }

    /// The outside work that is waited for.
    pub open spec fn awaited(self) -> CompartmentEffect {
        match self.stage {
            SyncStage::Finding => CompartmentEffect::Find,
            SyncStage::ReadingOpenClose => CompartmentEffect::Read(Compartment::OpenClose),
            SyncStage::ReadingConversion { .. } => CompartmentEffect::Read(Compartment::Conversion),
            SyncStage::Applying(apply) => apply.awaited(),
        }
    }

    /// Goes on after a reply.
    pub open spec fn resumed(self, reply: CompartmentReply) -> (Option<ModeReport>, SyncNext) {
        let failed = (None, SyncNext::Finished(Err(reply.failure())));
        match self.stage {
            SyncStage::Finding => if reply is Done {
                (
                    None,
                    SyncNext::Waiting(SyncMode { stage: SyncStage::ReadingOpenClose, ..self }),
                )
            } else {
                failed
            },
            SyncStage::ReadingOpenClose => match reply {
                CompartmentReply::Value(open_close) => (
                    None,
                    SyncNext::Waiting(
                        SyncMode { stage: SyncStage::ReadingConversion { open_close }, ..self },
                    ),
                ),
                _ => failed,
            },
            SyncStage::ReadingConversion { open_close } => match reply {
                CompartmentReply::Value(conversion) => {
                    let mode = resolved_mode(open_close, conversion);
                    (
                        Some(ModeReport::State { open_close, conversion, mode }),
                        SyncNext::Waiting(
                            SyncMode {
                                stage: SyncStage::Applying(
                                    ApplyMode::begun(mode, self.force_notification),
                                ),
                                ..self
                            },
                        ),
                    )
                },
                _ => failed,
            },
            SyncStage::Applying(apply) => (
                None,
                match apply.resumed(reply) {
                    ApplyNext::Waiting(apply) => SyncNext::Waiting(
                        SyncMode { stage: SyncStage::Applying(apply), ..self },
                    ),
                    ApplyNext::Finished(Ok(_)) => SyncNext::Finished(Ok(apply.mode)),
                    ApplyNext::Finished(Err(error)) => SyncNext::Finished(Err(error)),
                },
            ),
        }
    }

    /// Returns the outside work that is waited for.
    pub fn effect(&self) -> (effect: CompartmentEffect)
        ensures
            effect == self.awaited(),
    {
        match &self.stage {
            SyncStage::Finding => CompartmentEffect::Find,
            SyncStage::ReadingOpenClose => CompartmentEffect::Read(Compartment::OpenClose),
            SyncStage::ReadingConversion { .. } => CompartmentEffect::Read(Compartment::Conversion),
            SyncStage::Applying(apply) => apply.effect(),
        }
    }

    /// Goes on after a reply.
    pub fn resume(self, reply: CompartmentReply) -> (stepped: (Option<ModeReport>, SyncNext))
        ensures
            stepped == self.resumed(reply),
    {
        match self.stage {
            SyncStage::Finding => match reply {
                CompartmentReply::Done => (
                    None,
                    SyncNext::Waiting(SyncMode { stage: SyncStage::ReadingOpenClose, ..self }),
                ),
                _ => (None, SyncNext::Finished(Err(reply.error()))),
            },
            SyncStage::ReadingOpenClose => match reply {
                CompartmentReply::Value(open_close) => (
                    None,
                    SyncNext::Waiting(
                        SyncMode { stage: SyncStage::ReadingConversion { open_close }, ..self },
                    ),
                ),
                _ => (None, SyncNext::Finished(Err(reply.error()))),
            },
            SyncStage::ReadingConversion { open_close } => match reply {
                CompartmentReply::Value(conversion) => {
                    let mode = input_mode_from_compartments(open_close, conversion);
                    (
                        Some(ModeReport::State { open_close, conversion, mode }),
                        SyncNext::Waiting(
                            SyncMode {
                                stage: SyncStage::Applying(
                                    ApplyMode {
                                        mode,
                                        force_notification: self.force_notification,
                                        stage: ApplyStage::Storing,
                                    },
                                ),
                                ..self
                            },
                        ),
                    )
                },
                _ => (None, SyncNext::Finished(Err(reply.error()))),
            },
            SyncStage::Applying(apply) => {
                let mode = apply.mode;
                (
                    None,
                    match apply.resume(reply) {
                        ApplyNext::Waiting(apply) => SyncNext::Waiting(
                            SyncMode { stage: SyncStage::Applying(apply), ..self },
                        ),
                        ApplyNext::Finished(Ok(_)) => SyncNext::Finished(Ok(mode)),
                        ApplyNext::Finished(Err(error)) => SyncNext::Finished(Err(error)),
                    },
                )
            },
        }
    }
}

/// Writing a mode to the compartments: what is waited for.
#[derive(Clone, Copy, Debug, PartialEq, Eq, Structural)]
pub enum WriteStage {
    /// The service itself changes first, before the host can call back.
    Applying(ApplyMode),
    Finding,
    Guarding,
    Reading { index: usize },
    Writing { index: usize },
    Unguarding { error: Option<HostError> },
    Syncing { sync: SyncMode, error: Option<HostError> },
}

/// Writing a mode to the compartments.
#[derive(Clone, Copy, Debug, PartialEq, Eq, Structural)]
pub struct WriteMode {
    pub requested: InputMode,
    pub stage: WriteStage,
}

/// What writing a mode comes to: the mode that the compartments hold in the end.
#[derive(Clone, Copy, Debug, PartialEq, Eq)]
pub enum WriteNext {
    Waiting(WriteMode),
    Finished(Result<InputMode, HostError>),
}

impl WriteMode {
    /// Begins to write a mode.
    pub open spec fn begun(requested: InputMode) -> WriteMode {
        WriteMode { requested, stage: WriteStage::Applying(ApplyMode::begun(requested, false)) }
    }

    /// The index is that of a value to be written.
    pub open spec fn is_valid(self) -> bool {
        match self.stage {
            WriteStage::Reading { index } => index < updates_for(self.requested).len(),
            WriteStage::Writing { index } => index < updates_for(self.requested).len(),
            _ => true,
        }
    }

    /// The outside work that is waited for.
    pub open spec fn awaited(self) -> CompartmentEffect {
        let updates = updates_for(self.requested);
        match self.stage {
            WriteStage::Applying(apply) => apply.awaited(),
            WriteStage::Finding => CompartmentEffect::Find,
            WriteStage::Guarding => CompartmentEffect::GuardWrites(true),
            WriteStage::Reading { index } => CompartmentEffect::Read(
                updates[index as int].target().0,
            ),
            WriteStage::Writing { index } => CompartmentEffect::Write(
                updates[index as int].target().0,
                updates[index as int].target().1,
            ),
            WriteStage::Unguarding { .. } => CompartmentEffect::GuardWrites(false),
            WriteStage::Syncing { sync, .. } => sync.awaited(),
        }
    }

    /// The same work, waiting for something else.
    pub open spec fn at(self, stage: WriteStage) -> (Option<ModeReport>, WriteNext) {
        (None, WriteNext::Waiting(WriteMode { stage, ..self }))
    }

    /// Goes on with the next value, or takes back the guard after the last one.
    pub open spec fn after_value(self, index: usize) -> (Option<ModeReport>, WriteNext) {
        if index + 1 < updates_for(self.requested).len() {
            self.at(WriteStage::Reading { index: (index + 1) as usize })
        } else {
            self.at(WriteStage::Unguarding { error: None })
        }
    }

    /// The end, with a line for the log.
    pub open spec fn ends(
        self,
        result: ModeResult,
        outcome: Result<InputMode, HostError>,
    ) -> (Option<ModeReport>, WriteNext) {
        (
            Some(ModeReport::Result { requested: self.requested, result }),
            WriteNext::Finished(outcome),
        )
    }

    /// Goes on after a reply.
    pub open spec fn resumed(self, reply: CompartmentReply) -> (Option<ModeReport>, WriteNext) {
        let failure = reply.failure();
        let failed = (None, WriteNext::Finished(Err(failure)));
        match self.stage {
            WriteStage::Applying(apply) => match apply.resumed(reply) {
                ApplyNext::Waiting(apply) => self.at(WriteStage::Applying(apply)),
                ApplyNext::Finished(Ok(_)) => self.at(WriteStage::Finding),
                ApplyNext::Finished(Err(error)) => self.ends(ModeResult::ApplyError, Err(error)),
            },
            WriteStage::Finding => if reply is Done {
                self.at(WriteStage::Guarding)
            } else {
                failed
            },
            WriteStage::Guarding => if reply is Done {
                self.at(WriteStage::Reading { index: 0 })
            } else {
                failed
            },
            WriteStage::Reading { index } => match reply {
                CompartmentReply::Value(value) => if value == Some(
                    updates_for(self.requested)[index as int].target().1,
                ) {
                    self.after_value(index)
                } else {
                    self.at(WriteStage::Writing { index })
                },
                _ => self.at(WriteStage::Unguarding { error: Some(failure) }),
            },
            WriteStage::Writing { index } => if reply is Done {
                self.after_value(index)
            } else {
                self.at(WriteStage::Unguarding { error: Some(failure) })
            },
            WriteStage::Unguarding { error } => if reply is Done {
                self.at(WriteStage::Syncing { sync: SyncMode::begun(false), error })
            } else {
                failed
            },
            WriteStage::Syncing { sync, error } => {
                let (report, next) = sync.resumed(reply);
                match next {
                    SyncNext::Waiting(sync) => (
                        report,
                        self.at(WriteStage::Syncing { sync, error }).1,
                    ),
                    SyncNext::Finished(Ok(mode)) => match error {
                        None => self.ends(ModeResult::Done(mode), Ok(mode)),
                        Some(error) => self.ends(ModeResult::WriteError(mode), Err(error)),
                    },
                    SyncNext::Finished(Err(sync_error)) => match error {
                        None => self.ends(ModeResult::SyncError, Err(sync_error)),
                        Some(error) => self.ends(ModeResult::WriteAndSyncError, Err(error)),
                    },
                }
            },
        }
    }

    /// Returns the outside work that is waited for.
    pub fn effect(&self) -> (effect: CompartmentEffect)
        requires
            self.is_valid(),
        ensures
            effect == self.awaited(),
    {
        match &self.stage {
            WriteStage::Applying(apply) => apply.effect(),
            WriteStage::Finding => CompartmentEffect::Find,
            WriteStage::Guarding => CompartmentEffect::GuardWrites(true),
            WriteStage::Reading { index } => {
                let (compartment, _) = compartment_updates(self.requested)[*index].write();
                CompartmentEffect::Read(compartment)
            },
            WriteStage::Writing { index } => {
                let (compartment, value) = compartment_updates(self.requested)[*index].write();
                CompartmentEffect::Write(compartment, value)
            },
            WriteStage::Unguarding { .. } => CompartmentEffect::GuardWrites(false),
            WriteStage::Syncing { sync, .. } => sync.effect(),
        }
    }

    fn go_to(self, stage: WriteStage) -> (stepped: (Option<ModeReport>, WriteNext))
        ensures
            stepped == self.at(stage),
    {
        (None, WriteNext::Waiting(WriteMode { stage, ..self }))
    }

    fn finish_value(self, index: usize) -> (stepped: (Option<ModeReport>, WriteNext))
        requires
            index < updates_for(self.requested).len(),
        ensures
            stepped == self.after_value(index),
    {
        if index + 1 < compartment_updates(self.requested).len() {
            self.go_to(WriteStage::Reading { index: index + 1 })
        } else {
            self.go_to(WriteStage::Unguarding { error: None })
        }
    }

    fn end(self, result: ModeResult, outcome: Result<InputMode, HostError>) -> (stepped: (
        Option<ModeReport>,
        WriteNext,
    ))
        ensures
            stepped == self.ends(result, outcome),
    {
        (
            Some(ModeReport::Result { requested: self.requested, result }),
            WriteNext::Finished(outcome),
        )
    }

    /// Goes on after a reply. Notices that come while the values are being
    /// written are ignored, and the compartments are read back at the end, also
    /// where a value could not be written.
    pub fn resume(self, reply: CompartmentReply) -> (stepped: (Option<ModeReport>, WriteNext))
        requires
            self.is_valid(),
        ensures
            stepped == self.resumed(reply),
            stepped.1 matches WriteNext::Waiting(next) ==> next.is_valid(),
    {
        let done = matches!(reply, CompartmentReply::Done);
        match self.stage {
            WriteStage::Applying(apply) => match apply.resume(reply) {
                ApplyNext::Waiting(apply) => self.go_to(WriteStage::Applying(apply)),
                ApplyNext::Finished(Ok(_)) => self.go_to(WriteStage::Finding),
                ApplyNext::Finished(Err(error)) => self.end(ModeResult::ApplyError, Err(error)),
            },
            WriteStage::Finding => if done {
                self.go_to(WriteStage::Guarding)
            } else {
                (None, WriteNext::Finished(Err(reply.error())))
            },
            WriteStage::Guarding => if done {
                self.go_to(WriteStage::Reading { index: 0 })
            } else {
                (None, WriteNext::Finished(Err(reply.error())))
            },
            WriteStage::Reading { index } => match reply {
                CompartmentReply::Value(value) => {
                    let (_, wanted) = compartment_updates(self.requested)[index].write();
                    if value == Some(wanted) {
                        self.finish_value(index)
                    } else {
                        self.go_to(WriteStage::Writing { index })
                    }
                },
                _ => self.go_to(WriteStage::Unguarding { error: Some(reply.error()) }),
            },
            WriteStage::Writing { index } => if done {
                self.finish_value(index)
            } else {
                self.go_to(WriteStage::Unguarding { error: Some(reply.error()) })
            },
            WriteStage::Unguarding { error } => if done {
                self.go_to(
                    WriteStage::Syncing {
                        sync: SyncMode { force_notification: false, stage: SyncStage::Finding },
                        error,
                    },
                )
            } else {
                (None, WriteNext::Finished(Err(reply.error())))
            },
            WriteStage::Syncing { sync, error } => {
                let (report, next) = sync.resume(reply);
                match next {
                    SyncNext::Waiting(sync) => (
                        report,
                        WriteNext::Waiting(
                            WriteMode { stage: WriteStage::Syncing { sync, error }, ..self },
                        ),
                    ),
                    SyncNext::Finished(Ok(mode)) => match error {
                        None => self.end(ModeResult::Done(mode), Ok(mode)),
                        Some(error) => self.end(ModeResult::WriteError(mode), Err(error)),
                    },
                    SyncNext::Finished(Err(sync_error)) => match error {
                        None => self.end(ModeResult::SyncError, Err(sync_error)),
                        Some(error) => self.end(ModeResult::WriteAndSyncError, Err(error)),
                    },
                }
            },
        }
    }
}

/// Whether the guard over the compartments is set at a point of the work.
pub open spec fn is_guarded(stage: WriteStage) -> bool {
    stage is Reading || stage is Writing || stage is Unguarding
}

/// Whether the guard is set after outside work has been answered.
pub open spec fn guard_after(
    guarded: bool,
    effect: CompartmentEffect,
    reply: CompartmentReply,
) -> bool {
    match effect {
        CompartmentEffect::GuardWrites(guard) => if reply is Done {
            guard
        } else {
            guarded
        },
        _ => guarded,
    }
}

/// Values are written only under the guard, and the guard is taken back before
/// the compartments are read, whether the values could be written or not. It
/// stays set only where the service's state could not be changed.
pub proof fn writes_are_guarded(work: WriteMode, reply: CompartmentReply)
    requires
        work.is_valid(),
    ensures
        work.awaited() is Write ==> is_guarded(work.stage),
        ({
            let guarded = guard_after(is_guarded(work.stage), work.awaited(), reply);
            match work.resumed(reply).1 {
                WriteNext::Waiting(next) => guarded == is_guarded(next.stage),
                WriteNext::Finished(_) => guarded ==> work.stage is Unguarding && reply !is Done,
            }
        }),
{
}

/// A mode command succeeds only with the mode that the compartments were read to
/// hold after all values were written.
pub proof fn success_means_written_and_read_back(
    work: WriteMode,
    reply: CompartmentReply,
    mode: InputMode,
)
    requires
        work.is_valid(),
        work.resumed(reply).1 == WriteNext::Finished(Ok(mode)),
    ensures
        work.stage matches WriteStage::Syncing { sync, error: None } && sync.resumed(reply).1
            == SyncNext::Finished(Ok(mode)),
{
}

/// Beginning to follow the compartments: what is waited for.
#[derive(Clone, Copy, Debug, PartialEq, Eq, Structural)]
pub enum ActivateStage {
    Advising(Advising),
    Finding,
    Reading,
    Writing,
    Syncing(SyncMode),
    /// The compartments could not be followed: stop listening to them.
    CleaningUp { work: Unadvising, error: HostError },
}

/// What beginning to follow the compartments comes to.
#[derive(Clone, Copy, Debug, PartialEq, Eq)]
pub enum ActivateNext {
    Waiting(ActivateStage),
    Finished(Result<(), HostError>),
}

impl ActivateStage {
    /// The outside work that is waited for.
    pub open spec fn awaited(self) -> CompartmentEffect {
        match self {
            ActivateStage::Advising(advising) => advising.awaited(),
            ActivateStage::Finding => CompartmentEffect::Find,
            ActivateStage::Reading => CompartmentEffect::Read(Compartment::Conversion),
            ActivateStage::Writing => CompartmentEffect::Write(
                Compartment::Conversion,
                HIRAGANA_CONVERSION_MODE,
            ),
            ActivateStage::Syncing(sync) => sync.awaited(),
            ActivateStage::CleaningUp { work, .. } => work.awaited(),
        }
    }

    /// Returns the outside work that is waited for.
    pub fn effect(&self) -> (effect: CompartmentEffect)
        ensures
            effect == self.awaited(),
    {
        match self {
            ActivateStage::Advising(advising) => advising.effect(),
            ActivateStage::Finding => CompartmentEffect::Find,
            ActivateStage::Reading => CompartmentEffect::Read(Compartment::Conversion),
            ActivateStage::Writing => CompartmentEffect::Write(
                Compartment::Conversion,
                HIRAGANA_CONVERSION_MODE,
            ),
            ActivateStage::Syncing(sync) => sync.effect(),
            ActivateStage::CleaningUp { work, .. } => work.effect(),
        }
    }
}

/// Goes on from listening to the compartments to following them.
pub open spec fn advised(advising: AdvisingNext) -> ActivateNext {
    match advising {
        AdvisingNext::Waiting(advising) => ActivateNext::Waiting(ActivateStage::Advising(advising)),
        AdvisingNext::Finished(Ok(_)) => ActivateNext::Waiting(ActivateStage::Finding),
        AdvisingNext::Finished(Err(error)) => ActivateNext::Finished(Err(error)),
    }
}

fn after_advising(advising: AdvisingNext) -> (next: ActivateNext)
    ensures
        next == advised(advising),
{
    match advising {
        AdvisingNext::Waiting(advising) => ActivateNext::Waiting(ActivateStage::Advising(advising)),
        AdvisingNext::Finished(Ok(_)) => ActivateNext::Waiting(ActivateStage::Finding),
        AdvisingNext::Finished(Err(error)) => ActivateNext::Finished(Err(error)),
    }
}

impl TextServiceView {
    /// Stops listening to the compartments after a failure to follow them.
    pub open spec fn compartments_abandoned(self, error: HostError) -> ActivateNext {
        match self.unadvising_begun() {
            UnadvisingNext::Waiting(work) => ActivateNext::Waiting(
                ActivateStage::CleaningUp { work, error },
            ),
            UnadvisingNext::Finished(_) => ActivateNext::Finished(Err(error)),
        }
    }

    /// Reads the mode once the conversion is known to be hiragana.
    pub open spec fn conversion_normalized(self, changed: bool) -> (
        Option<ModeReport>,
        ActivateNext,
    ) {
        (
            Some(ModeReport::Normalized { changed }),
            ActivateNext::Waiting(ActivateStage::Syncing(SyncMode::begun(true))),
        )
    }

    /// Goes on beginning to follow the compartments after a reply. The conversion
    /// may be left over from another service, so it is made hiragana; whether the
    /// keyboard is open is left to the host.
    pub open spec fn compartments_resumed(
        self,
        stage: ActivateStage,
        reply: CompartmentReply,
    ) -> (Option<ModeReport>, ActivateNext) {
        let abandoned = (None, self.compartments_abandoned(reply.failure()));
        match stage {
            ActivateStage::Advising(advising) => (None, advised(advising.resumed(reply))),
            ActivateStage::Finding => if reply is Done {
                (None, ActivateNext::Waiting(ActivateStage::Reading))
            } else {
                abandoned
            },
            ActivateStage::Reading => match reply {
                CompartmentReply::Value(value) => if value == Some(HIRAGANA_CONVERSION_MODE) {
                    self.conversion_normalized(false)
                } else {
                    (None, ActivateNext::Waiting(ActivateStage::Writing))
                },
                _ => abandoned,
            },
            ActivateStage::Writing => if reply is Done {
                self.conversion_normalized(true)
            } else {
                abandoned
            },
            ActivateStage::Syncing(sync) => {
                let (report, next) = sync.resumed(reply);
                (
                    report,
                    match next {
                        SyncNext::Waiting(sync) => ActivateNext::Waiting(
                            ActivateStage::Syncing(sync),
                        ),
                        SyncNext::Finished(Ok(_)) => ActivateNext::Finished(Ok(())),
                        SyncNext::Finished(Err(error)) => self.compartments_abandoned(error),
                    },
                )
            },
            ActivateStage::CleaningUp { work, error } => (
                None,
                match work.resumed(reply) {
                    UnadvisingNext::Waiting(work) => ActivateNext::Waiting(
                        ActivateStage::CleaningUp { work, error },
                    ),
                    UnadvisingNext::Finished(_) => ActivateNext::Finished(Err(error)),
                },
            ),
        }
    }
}

/// What is done about a notice that a compartment has changed.
#[derive(Clone, Copy, Debug, PartialEq, Eq, Structural)]
pub enum CompartmentChange {
    /// The notice names no compartment.
    NullGuid,
    Ignored,
    /// The mode is read again. `previous` is the mode before.
    Sync { compartment: Compartment, previous: InputMode },
}

impl TextServiceFactory {
    /// Begins to follow the compartments.
    pub fn activate_input_mode_compartments(&self) -> (next: ActivateNext)
        ensures
            next == advised(self@.advising_begun()),
    {
        after_advising(self.advise_input_mode_compartments())
    }

    fn abandon_compartments(&self, error: HostError) -> (next: ActivateNext)
        ensures
            next == self@.compartments_abandoned(error),
    {
        match self.unadvise_input_mode_compartments() {
            UnadvisingNext::Waiting(work) => ActivateNext::Waiting(
                ActivateStage::CleaningUp { work, error },
            ),
            UnadvisingNext::Finished(_) => ActivateNext::Finished(Err(error)),
        }
    }

    fn read_mode_after_normalizing(&self, changed: bool) -> (stepped: (
        Option<ModeReport>,
        ActivateNext,
    ))
        ensures
            stepped == self@.conversion_normalized(changed),
    {
        (
            Some(ModeReport::Normalized { changed }),
            ActivateNext::Waiting(
                ActivateStage::Syncing(
                    SyncMode { force_notification: true, stage: SyncStage::Finding },
                ),
            ),
        )
    }

    /// Goes on beginning to follow the compartments after a reply.
    pub fn resume_compartments(&self, stage: ActivateStage, reply: CompartmentReply) -> (stepped: (
        Option<ModeReport>,
        ActivateNext,
    ))
        ensures
            stepped == self@.compartments_resumed(stage, reply),
    {
        let done = matches!(reply, CompartmentReply::Done);
        match stage {
            ActivateStage::Advising(advising) => (None, after_advising(advising.resume(reply))),
            ActivateStage::Finding => if done {
                (None, ActivateNext::Waiting(ActivateStage::Reading))
            } else {
                (None, self.abandon_compartments(reply.error()))
            },
            ActivateStage::Reading => match reply {
                CompartmentReply::Value(value) => if value == Some(HIRAGANA_CONVERSION_MODE) {
                    self.read_mode_after_normalizing(false)
                } else {
                    (None, ActivateNext::Waiting(ActivateStage::Writing))
                },
                _ => (None, self.abandon_compartments(reply.error())),
            },
            ActivateStage::Writing => if done {
                self.read_mode_after_normalizing(true)
            } else {
                (None, self.abandon_compartments(reply.error()))
            },
            ActivateStage::Syncing(sync) => {
                let (report, next) = sync.resume(reply);
                (
                    report,
                    match next {
                        SyncNext::Waiting(sync) => ActivateNext::Waiting(
                            ActivateStage::Syncing(sync),
                        ),
                        SyncNext::Finished(Ok(_)) => ActivateNext::Finished(Ok(())),
                        SyncNext::Finished(Err(error)) => self.abandon_compartments(error),
                    },
                )
            },
            ActivateStage::CleaningUp { work, error } => (
                None,
                match work.resume(reply) {
                    UnadvisingNext::Waiting(work) => ActivateNext::Waiting(
                        ActivateStage::CleaningUp { work, error },
                    ),
                    UnadvisingNext::Finished(_) => ActivateNext::Finished(Err(error)),
                },
            ),
        }
    }

    /// Begins to give the service a mode.
    pub fn apply_input_mode(&self, mode: InputMode, force_notification: bool) -> (apply: ApplyMode)
        ensures
            apply == ApplyMode::begun(mode, force_notification),
    {
        ApplyMode { mode, force_notification, stage: ApplyStage::Storing }
    }

    /// Begins to read the mode from the compartments, which are those of the thread
    /// manager.
    pub fn sync_input_mode_from_compartments(&self, force_notification: bool) -> (next: SyncNext)
        ensures
            next == if self@.thread_mgr is None {
                SyncNext::Finished(Err(HostError::Missing(MissingHandle::ThreadMgr)))
            } else {
                SyncNext::Waiting(SyncMode::begun(force_notification))
            },
    {
        match self.input_mode_compartment_mgr() {
            Ok(_) => SyncNext::Waiting(SyncMode { force_notification, stage: SyncStage::Finding }),
            Err(error) => SyncNext::Finished(Err(error)),
        }
    }

    /// Begins to write a mode to the compartments.
    pub fn set_input_mode_compartments(&self, requested: InputMode) -> (begun: (
        ModeReport,
        WriteMode,
    ))
        ensures
            begun == (ModeReport::Request(requested), WriteMode::begun(requested)),
            begun.1.is_valid(),
    {
        (
            ModeReport::Request(requested),
            WriteMode {
                requested,
                stage: WriteStage::Applying(self.apply_input_mode(requested, false)),
            },
        )
    }

    /// Notes whether compartments are being written.
    pub fn guard_writes(&mut self, in_progress: bool)
        ensures
            final(self)@ == (TextServiceView {
                compartment_write_in_progress: in_progress,
                ..old(self)@
            }),
    {
        self.text_service.compartment_write_in_progress = in_progress;
    }

    /// Decides what is done about a notice that a compartment has changed.
    /// Nothing is written from a notice, and notices that the service's own
    /// writes cause are ignored.
    pub fn compartment_changed(&self, guid: Option<u128>) -> (change: CompartmentChange)
        ensures
            change == match guid {
                None => CompartmentChange::NullGuid,
                Some(guid) => if guid != Compartment::OpenClose.name() && guid
                    != Compartment::Conversion.name() {
                    CompartmentChange::Ignored
                } else if self@.compartment_write_in_progress {
                    CompartmentChange::Ignored
                } else {
                    CompartmentChange::Sync {
                        compartment: if guid == Compartment::OpenClose.name() {
                            Compartment::OpenClose
                        } else {
                            Compartment::Conversion
                        },
                        previous: self@.mode,
                    }
                },
            },
    {
        let guid: u128 = match guid {
            Some(guid) => guid,
            None => return CompartmentChange::NullGuid,
        };
        if !is_input_mode_compartment(guid) || self.text_service.compartment_write_in_progress {
            return CompartmentChange::Ignored;
        }
        CompartmentChange::Sync {
            compartment: if guid == GUID_COMPARTMENT_KEYBOARD_OPENCLOSE {
                Compartment::OpenClose
            } else {
                Compartment::Conversion
            },
            previous: self.text_service.mode,
        }
    }

    /// Notes a mode change from outside: a composition in progress has to be
    /// ended at the next key.
    pub fn finish_compartment_change(&mut self, previous: InputMode, mode: InputMode)
        ensures
            final(self)@ == if previous == mode {
                old(self)@
            } else {
                TextServiceView {
                    pending_input_mode_transition: pending_after(
                        old(self)@.pending_input_mode_transition,
                        previous,
                        mode,
                        old(self)@.composition.is_active(),
                    ),
                    ..old(self)@
                }
            },
    {
        if previous != mode {
            let active = self.text_service.composition.is_active();
            self.text_service.pending_input_mode_transition = next_pending_input_mode_transition(
                self.text_service.pending_input_mode_transition,
                previous,
                mode,
                active,
            );
        }
    }
}

/// Beginning to follow the compartments fails only after the service has tried
/// to stop listening to them: a failure past the registration goes on to the
/// clean-up wherever a cookie is kept and the thread manager is there to take it,
/// and reports the first failure.
pub proof fn a_failed_start_is_cleaned_up(
    service: TextServiceView,
    stage: ActivateStage,
    reply: CompartmentReply,
    error: HostError,
)
    requires
        !(stage is Advising) && !(stage is CleaningUp),
        service.open_close_cookie is Some || service.conversion_mode_cookie is Some,
        service.thread_mgr is Some,
    ensures
        service.compartments_resumed(stage, reply).1 != ActivateNext::Finished(Err(error)),
{
}

/// A mode is given to the service first. The language bar and the window are told
/// only where it has changed, or where the notices are asked for, and with the mode
/// that was given; nothing that comes of them matters.
pub proof fn a_mode_is_given_before_it_is_told(
    mode: InputMode,
    forced: bool,
    changed: bool,
    error: HostError,
    bar_reply: CompartmentReply,
    window_reply: CompartmentReply,
)
    ensures
        ({
            let first = ApplyMode::begun(mode, forced);
            let next = first.resumed(CompartmentReply::Changed(changed));
            let bar = next->Waiting_0;
            let finding = bar.resumed(bar_reply)->Waiting_0;
            let window = finding.resumed(CompartmentReply::Ipc(true))->Waiting_0;
            &&& first.awaited() == CompartmentEffect::StoreMode(mode)
            &&& first.resumed(CompartmentReply::Failed(error)) == ApplyNext::Finished(Err(error))
            &&& !changed && !forced ==> next == ApplyNext::Finished(Ok(()))
            &&& changed || forced ==> {
                &&& next is Waiting
                &&& bar.awaited() == CompartmentEffect::UpdateLanguageBar
                &&& bar.resumed(bar_reply) is Waiting
                &&& finding.awaited() == CompartmentEffect::SnapshotIpc
                &&& finding.resumed(CompartmentReply::Ipc(false)) == ApplyNext::Finished(Ok(()))
                &&& finding.resumed(CompartmentReply::Ipc(true)) is Waiting
                &&& window.awaited() == CompartmentEffect::ShowMode(mode)
                &&& window.resumed(window_reply) == ApplyNext::Finished(Ok(()))
            }
        }),
{
}

/// The mode is read from both compartments, given to the service, and returned.
/// Where one of them cannot be read, the service keeps its mode.
pub proof fn the_mode_is_read_from_both_compartments(
    forced: bool,
    open_close: Option<i32>,
    conversion: Option<i32>,
    error: HostError,
)
    ensures
        ({
            let mode = resolved_mode(open_close, conversion);
            let first = SyncMode::begun(forced);
            let second = first.resumed(CompartmentReply::Done).1->Waiting_0;
            let third = second.resumed(CompartmentReply::Value(open_close)).1->Waiting_0;
            let (report, next) = third.resumed(CompartmentReply::Value(conversion));
            let fourth = next->Waiting_0;
            &&& first.awaited() == CompartmentEffect::Find
            &&& second.awaited() == CompartmentEffect::Read(Compartment::OpenClose)
            &&& third.awaited() == CompartmentEffect::Read(Compartment::Conversion)
            &&& report == Some(ModeReport::State { open_close, conversion, mode })
            &&& next is Waiting
            &&& fourth.awaited() == CompartmentEffect::StoreMode(mode)
            &&& !forced ==> fourth.resumed(CompartmentReply::Changed(false)).1
                == SyncNext::Finished(Ok(mode))
            &&& forced ==> fourth.resumed(CompartmentReply::Changed(false)).1 is Waiting
            &&& second.resumed(CompartmentReply::Failed(error)).1 == SyncNext::Finished(Err(error))
            &&& third.resumed(CompartmentReply::Failed(error)).1 == SyncNext::Finished(Err(error))
        }),
{
}

/// Writing kana opens the keyboard only behind the conversion: each value is read,
/// and written only where it is another one; then the guard is taken back and the
/// compartments are read.
pub proof fn kana_is_written_value_by_value(
    held_conversion: Option<i32>,
    held_open: Option<i32>,
)
    requires
        held_conversion != Some(25i32),
        held_open != Some(1i32),
    ensures
        ({
            let done = CompartmentReply::Done;
            let first = WriteMode::begun(InputMode::Kana);
            let finding = first.resumed(CompartmentReply::Changed(false)).1->Waiting_0;
            let guarding = finding.resumed(done).1->Waiting_0;
            let reading = guarding.resumed(done).1->Waiting_0;
            let writing = reading.resumed(CompartmentReply::Value(held_conversion)).1->Waiting_0;
            let opening = writing.resumed(done).1->Waiting_0;
            let skipped = reading.resumed(CompartmentReply::Value(Some(25))).1->Waiting_0;
            let opened = opening.resumed(CompartmentReply::Value(held_open)).1->Waiting_0;
            let ended = opened.resumed(done).1->Waiting_0;
            let already = opening.resumed(CompartmentReply::Value(Some(1))).1->Waiting_0;
            let syncing = ended.resumed(done).1->Waiting_0;
            &&& first.awaited() == CompartmentEffect::StoreMode(InputMode::Kana)
            &&& finding.awaited() == CompartmentEffect::Find
            &&& guarding.awaited() == CompartmentEffect::GuardWrites(true)
            &&& reading.awaited() == CompartmentEffect::Read(Compartment::Conversion)
            &&& writing.awaited() == CompartmentEffect::Write(Compartment::Conversion, 25)
            &&& opening.awaited() == CompartmentEffect::Read(Compartment::OpenClose)
            &&& skipped == opening
            &&& opened.awaited() == CompartmentEffect::Write(Compartment::OpenClose, 1)
            &&& ended.awaited() == CompartmentEffect::GuardWrites(false)
            &&& already == ended
            &&& syncing.awaited() == CompartmentEffect::Find && syncing.stage is Syncing
        }),
{
}

/// Writing Latin closes the keyboard and leaves the conversion alone.
pub proof fn latin_only_closes_the_keyboard(held_open: Option<i32>)
    requires
        held_open != Some(0i32),
    ensures
        ({
            let done = CompartmentReply::Done;
            let first = WriteMode::begun(InputMode::Latin);
            let finding = first.resumed(CompartmentReply::Changed(false)).1->Waiting_0;
            let guarding = finding.resumed(done).1->Waiting_0;
            let reading = guarding.resumed(done).1->Waiting_0;
            let writing = reading.resumed(CompartmentReply::Value(held_open)).1->Waiting_0;
            let ended = writing.resumed(done).1->Waiting_0;
            let already = reading.resumed(CompartmentReply::Value(Some(0))).1->Waiting_0;
            &&& first.awaited() == CompartmentEffect::StoreMode(InputMode::Latin)
            &&& reading.awaited() == CompartmentEffect::Read(Compartment::OpenClose)
            &&& writing.awaited() == CompartmentEffect::Write(Compartment::OpenClose, 0)
            &&& ended.awaited() == CompartmentEffect::GuardWrites(false)
            &&& already == ended
        }),
{
}

/// A value that cannot be read or written ends the writing, but not the work: the
/// guard is taken back, the compartments are read, and the failure is the result,
/// also where they cannot be read.
pub proof fn a_failed_write_is_reported_after_reading_back(
    work: WriteMode,
    mode: InputMode,
    error: HostError,
    later: HostError,
)
    requires
        work.stage is Reading || work.stage is Writing,
    ensures
        ({
            let failed = work.resumed(CompartmentReply::Failed(error)).1->Waiting_0;
            let syncing = failed.resumed(CompartmentReply::Done).1->Waiting_0;
            let read = WriteMode {
                stage: WriteStage::Syncing {
                    sync: SyncMode {
                        force_notification: false,
                        stage: SyncStage::Applying(ApplyMode::begun(mode, false)),
                    },
                    error: Some(error),
                },
                ..work
            };
            &&& failed.awaited() == CompartmentEffect::GuardWrites(false)
            &&& syncing.awaited() == CompartmentEffect::Find && syncing.stage is Syncing
            &&& syncing.resumed(CompartmentReply::Failed(later)).1 == WriteNext::Finished(
                Err(error),
            )
            &&& read.resumed(CompartmentReply::Changed(false)) == (
                Some(
                    ModeReport::Result {
                        requested: work.requested,
                        result: ModeResult::WriteError(mode),
                    },
                ),
                WriteNext::Finished(Err::<InputMode, HostError>(error)),
            )
        }),
{
}

/// Following the compartments begins with a conversion to hiragana, written only
/// where it is another one, and then reads the mode and asks for the notices. The
/// keyboard is neither opened nor closed.
pub proof fn a_start_makes_the_conversion_hiragana(
    service: TextServiceView,
    held: Option<i32>,
)
    requires
        held != Some(25i32),
    ensures
        ({
            let done = CompartmentReply::Done;
            let (_, next) = service.compartments_resumed(ActivateStage::Finding, done);
            let reading = next->Waiting_0;
            let (report, kept) = service.compartments_resumed(
                reading,
                CompartmentReply::Value(Some(25)),
            );
            let (_, other) = service.compartments_resumed(reading, CompartmentReply::Value(held));
            let writing = other->Waiting_0;
            let (written, synced) = service.compartments_resumed(writing, done);
            &&& reading.awaited() == CompartmentEffect::Read(Compartment::Conversion)
            &&& writing.awaited() == CompartmentEffect::Write(Compartment::Conversion, 25)
            &&& report == Some(ModeReport::Normalized { changed: false })
            &&& written == Some(ModeReport::Normalized { changed: true })
            &&& kept == synced
            &&& synced matches ActivateNext::Waiting(ActivateStage::Syncing(sync))
                && sync.force_notification && sync.awaited() == CompartmentEffect::Find
        }),
{
}

/// A report tells the modes by their names, as they were asked for and as they are, and
/// how the request ended.
pub proof fn a_mode_report_tells_what_was_asked_for_and_what_came(
    requested: InputMode,
    actual: InputMode,
)
    ensures
        ({
            let name = |mode: InputMode|
                if mode is Latin {
                    "Latin"@
                } else {
                    "Kana"@
                };
            let asked = "requested="@ + name(requested);
            let report = |result: ModeResult| (ModeReport::Result { requested, result }).text();
            &&& ModeReport::Request(requested).text() == asked
            &&& report(ModeResult::Done(actual)) == asked + " actual="@ + name(actual)
                + " status=ok"@
            &&& report(ModeResult::WriteError(actual)) == asked + " actual="@ + name(actual)
                + " status=write_error"@
            &&& report(ModeResult::ApplyError) == asked + " status=apply_error"@
            &&& report(ModeResult::SyncError) == asked + " status=sync_error"@
            &&& report(ModeResult::WriteAndSyncError) == asked + " status=write_and_sync_error"@
        }),
{
}

/// A report tells the values of the compartments, where there are any, and the mode that
/// they stand for; and each kind of report is an event of its own.
pub proof fn a_state_report_tells_both_values(
    open_close: i32,
    conversion: i32,
    mode: InputMode,
    changed: bool,
    result: ModeResult,
)
    ensures
        ({
            let name = if mode is Latin {
                "Latin"@
            } else {
                "Kana"@
            };
            let state = |first: Option<i32>, second: Option<i32>|
                ModeReport::State { open_close: first, conversion: second, mode };
            let opened = "Some("@ + decimal_notation(open_close as int) + ")"@;
            let converted = "Some("@ + decimal_notation(conversion as int) + ")"@;
            &&& state(Some(open_close), Some(conversion)).text() == "open_close="@ + opened
                + " conversion="@ + converted + " resolved="@ + name
            &&& state(None, Some(conversion)).text() == "open_close="@ + "None"@ + " conversion="@
                + converted + " resolved="@ + name
            &&& state(Some(open_close), None).text() == "open_close="@ + opened + " conversion="@
                + "None"@ + " resolved="@ + name
            &&& state(None, None).event_name() == "compartment_state"@
            &&& ModeReport::Change(Compartment::OpenClose).text() == "kind="@ + "open_close"@
            &&& ModeReport::Change(Compartment::Conversion).text() == "kind="@ + "conversion"@
            &&& ModeReport::Change(Compartment::Conversion).event_name() == "compartment_change"@
            &&& ModeReport::Request(mode).event_name() == "mode_request"@
            &&& (ModeReport::Result { requested: mode, result }).event_name() == "mode_result"@
            &&& (ModeReport::Normalized { changed }).event_name() == "compartment_normalize"@
            &&& (ModeReport::Normalized { changed }).text() == "conversion="@ + decimal_notation(
                25,
            ) + " changed="@ + if changed {
                "true"@
            } else {
                "false"@
            }
        }),
{
}

} // verus!
