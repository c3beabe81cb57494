//! The keys that the service reserves, and the events of the keyboard.

use vstd::prelude::*;

use crate::key_handling::TextServiceFactory;
use crate::text::{bool_name, bool_text, decimal, decimal_notation};
use crate::text_service::{
    BackspaceRepeatState, TextServiceView, BACKSPACE_REPEAT_COALESCE_WINDOW,
};

verus! {

/// Virtual key of Backspace.
pub const VK_BACK: u32 = 0x08;

/// Virtual key of the Kanji key.
pub const VK_KANJI: u32 = 0x19;

/// Virtual key of the grave accent on a 101-key keyboard.
pub const VK_OEM_3: u32 = 0xC0;

/// The Alt modifier of a reserved key.
pub const TF_MOD_ALT: u32 = 1;

/// A reserved key that ignores modifiers.
pub const TF_MOD_IGNORE_ALL_MODIFIER: u32 = 1024;

/// The bit of a key message that tells that the key was down before.
pub const PREVIOUS_KEY_STATE_BIT: usize = 0x4000_0000;

/// The mark of the reserved key Alt and grave accent.
pub const PRESERVED_ALT_GRAVE: u8 = 1;

/// The mark of the reserved Kanji key.
pub const PRESERVED_KANJI: u8 = 2;

/// The code of an unregistration that finds nothing registered.
pub const CONNECT_E_NOCONNECTION: i32 = -0x7ffb_fe00;

/// A key that the host hands to the service before anybody else.
#[derive(Clone, Copy, Debug, PartialEq, Eq, Structural)]
pub struct PreservedKey {
    pub virtual_key: u32,
    pub modifiers: u32,
}

/// The mark and the key of each reserved key: one for 101-key keyboards, one
/// for Japanese ones.
pub open spec fn preserved_key_at(index: int) -> (u8, PreservedKey) {
    if index == 0 {
        (PRESERVED_ALT_GRAVE, PreservedKey { virtual_key: VK_OEM_3, modifiers: TF_MOD_ALT })
    } else {
        (
            PRESERVED_KANJI,
            PreservedKey { virtual_key: VK_KANJI, modifiers: TF_MOD_IGNORE_ALL_MODIFIER },
        )
    }
}

/// Returns the mark and the key of each reserved key.
pub fn input_mode_preserved_keys() -> (keys: [(u8, PreservedKey); 2])
    ensures
        forall|i: int| 0 <= i < 2 ==> #[trigger] keys[i] == preserved_key_at(i),
{
    [
        (PRESERVED_ALT_GRAVE, PreservedKey { virtual_key: VK_OEM_3, modifiers: TF_MOD_ALT }),
        (
            PRESERVED_KANJI,
            PreservedKey { virtual_key: VK_KANJI, modifiers: TF_MOD_IGNORE_ALL_MODIFIER },
        ),
    ]
}

/// Tells whether a key message repeats a key that was down before.
pub fn is_key_repeat(lparam: isize) -> (repeat: bool)
    ensures
        repeat == ((lparam as usize) & PREVIOUS_KEY_STATE_BIT != 0),
{
    (lparam as usize) & PREVIOUS_KEY_STATE_BIT != 0
}

/// Tells whether a key is Backspace.
pub fn is_backspace(wparam: usize) -> (backspace: bool)
    ensures
        backspace == (wparam == VK_BACK),
{
    wparam == VK_BACK as usize
}

/// Tells whether a key is claimed so that a clean-up can be done with it.
pub fn should_claim_pending_cleanup(has_context: bool, has_pending_cleanup: bool) -> (claim: bool)
    ensures
        claim == (has_context && has_pending_cleanup),
{
    has_context && has_pending_cleanup
}

/// Tells whether a reserved key is the one that switches the input mode.
pub fn is_input_mode_preserved_key(guid: u128, input_mode_key: u128) -> (matches: bool)
    ensures
        matches == (guid == input_mode_key),
{
    guid == input_mode_key
}

/// The set of marks with one of them set or cleared.
pub open spec fn marked(mask: u8, marker: u8, owned: bool) -> u8 {
    if owned {
        mask | marker
    } else {
        mask & !marker
    }
}

/// Sets or clears the mark of a reserved key.
pub fn with_preserved_key(mask: u8, marker: u8, owned: bool) -> (next: u8)
    ensures
        next == marked(mask, marker, owned),
{
    if owned {
        mask | marker
    } else {
        mask & !marker
    }
}

/// Whether Alt and grave accent, seen as an ordinary key, switches the mode.
pub open spec fn is_direct_alt_grave(
    wparam: usize,
    alt_pressed: bool,
    control_pressed: bool,
    preserved_keys: u8,
) -> bool {
    wparam == VK_OEM_3 && alt_pressed && !control_pressed && preserved_keys & PRESERVED_ALT_GRAVE
        == 0
}

/// Tells whether Alt and grave accent, seen as an ordinary key, switches the
/// mode. It does not where the key is reserved: some hosts report a reserved key
/// twice, and one press must not switch twice.
pub fn should_use_direct_alt_grave(
    wparam: usize,
    alt_pressed: bool,
    control_pressed: bool,
    preserved_keys: u8,
) -> (direct: bool)
    ensures
        direct == is_direct_alt_grave(wparam, alt_pressed, control_pressed, preserved_keys),
{
    wparam == VK_OEM_3 as usize && alt_pressed && !control_pressed && preserved_keys
        & PRESERVED_ALT_GRAVE == 0
}

/// Whether a key may appear in the diagnostic log: only keys that switch the
/// input mode do.
pub open spec fn is_loggable_key(wparam: usize, alt_pressed: bool) -> bool {
    wparam == 0x15 || wparam == 0x16 || wparam == 0x19 || wparam == 0x1A || wparam == 0xF0
        || wparam == 0xF2 || wparam == 0xF3 || wparam == 0xF4 || (wparam == VK_OEM_3
        && alt_pressed)
}

/// Tells whether a key may appear in the diagnostic log.
pub fn should_log_input_mode_key(wparam: usize, alt_pressed: bool) -> (log: bool)
    ensures
        log == is_loggable_key(wparam, alt_pressed),
{
    wparam == 0x15 || wparam == 0x16 || wparam == 0x19 || wparam == 0x1A || wparam == 0xF0
        || wparam == 0xF2 || wparam == 0xF3 || wparam == 0xF4 || (wparam == VK_OEM_3 as usize
        && alt_pressed)
}

/// Ordinary typing never reaches the diagnostic log: letters, digits, space,
/// backspace and enter are no loggable keys.
pub proof fn ordinary_keys_are_not_logged(wparam: usize, alt_pressed: bool)
    requires
        0x30 <= wparam <= 0x5A || wparam == 0x20 || wparam == 0x08 || wparam == 0x0D,
    ensures
        !is_loggable_key(wparam, alt_pressed),
{
}

/// Where the event of a mode key was seen.
#[derive(Clone, Copy, Debug, PartialEq, Eq, Structural)]
pub struct ModeKeyEvent {
    pub key_down: bool,
    pub direct_alt_grave: bool,
    pub virtual_key: usize,
    pub alt_pressed: bool,
    pub control_pressed: bool,
    pub shift_pressed: bool,
    pub preserved_keys: u8,
    pub eaten: bool,
}

impl ModeKeyEvent {
    /// The line about this event in the diagnostic log.
    pub open spec fn text(self) -> Seq<char> {
        "stage="@ + (if self.key_down {
            "key_down"@
        } else {
            "test_down"@
        }) + " route="@ + (if self.direct_alt_grave {
            "direct_alt_grave"@
        } else {
            "key_sink"@
        }) + " vk="@ + decimal_notation(self.virtual_key as int) + " alt="@ + bool_name(
            self.alt_pressed,
        ) + " ctrl="@ + bool_name(self.control_pressed) + " shift="@ + bool_name(
            self.shift_pressed,
        ) + " preserved_mask="@ + decimal_notation(self.preserved_keys as int) + " eaten="@
            + bool_name(self.eaten)
    }

    /// Writes the line about this event in the diagnostic log, unless the key may
    /// not appear there.
    pub fn detail(&self) -> (detail: Option<String>)
        ensures
            match detail {
                Some(detail) => is_loggable_key(self.virtual_key, self.alt_pressed) && detail@
                    == self.text(),
                None => !is_loggable_key(self.virtual_key, self.alt_pressed),
            },
    {
        if !should_log_input_mode_key(self.virtual_key, self.alt_pressed) {
            return None;
        }
        let mut detail = "stage=".to_owned();
        detail.append(
            if self.key_down {
                "key_down"
            } else {
                "test_down"
            },
        );
        detail.append(" route=");
        detail.append(
            if self.direct_alt_grave {
                "direct_alt_grave"
            } else {
                "key_sink"
            },
        );
        detail.append(" vk=");
        detail.append(decimal(self.virtual_key as u64).as_str());
        detail.append(" alt=");
        detail.append(bool_text(self.alt_pressed));
        detail.append(" ctrl=");
        detail.append(bool_text(self.control_pressed));
        detail.append(" shift=");
        detail.append(bool_text(self.shift_pressed));
        detail.append(" preserved_mask=");
        detail.append(decimal(self.preserved_keys as u64).as_str());
        detail.append(" eaten=");
        detail.append(bool_text(self.eaten));
        Some(detail)
    }
}

/// A key event, with what the keyboard shows at that moment.
#[derive(Clone, Copy, Debug, PartialEq, Eq, Structural)]
pub struct KeyEvent {
    pub has_context: bool,
    pub wparam: usize,
    pub lparam: isize,
    pub alt_pressed: bool,
    pub control_pressed: bool,
    pub now: u64,
}

impl KeyEvent {
    /// Whether the event is a queued repeat of Backspace.
    pub open spec fn is_queued_backspace(self, repeats: BackspaceRepeatState) -> bool {
        self.wparam == VK_BACK && repeats.defers(
            (self.lparam as usize) & PREVIOUS_KEY_STATE_BIT != 0,
            self.now,
        )
    }

    /// Whether the event switches the mode directly.
    pub open spec fn switches_mode(self, preserved_keys: u8) -> bool {
        is_direct_alt_grave(
            self.wparam,
            self.alt_pressed,
            self.control_pressed,
            preserved_keys,
        )
    }
}

/// Whether the service would handle a key.
#[derive(Clone, Copy, Debug, PartialEq, Eq, Structural)]
pub enum TestKeyDown {
    /// A queued repeat of Backspace: it is claimed even where its predecessor
    /// has ended the composition, so that the host does not delete what was
    /// committed.
    Suppress,
    /// Claimed for a clean-up that is owed.
    ClaimForCleanup,
    /// Claimed to switch the mode.
    SwitchMode,
    /// The answer to the key decides.
    Classify,
}

/// What is done with a key.
#[derive(Clone, Copy, Debug, PartialEq, Eq, Structural)]
pub enum KeyDown {
    Suppress,
    SwitchMode,
    Handle,
}

impl TextServiceView {
    /// Whether the service would handle a key.
    pub open spec fn key_tested(self, event: KeyEvent) -> TestKeyDown {
        if event.is_queued_backspace(self.backspace_repeat_state) {
            TestKeyDown::Suppress
        } else if event.has_context && (self.pending_composition_cleanup
            || self.pending_input_mode_transition is Some) {
            TestKeyDown::ClaimForCleanup
        } else if event.has_context && event.switches_mode(self.preserved_input_mode_keys) {
            TestKeyDown::SwitchMode
        } else {
            TestKeyDown::Classify
        }
    }

    /// What is done with a key.
    pub open spec fn key_pressed(self, event: KeyEvent) -> KeyDown {
        if event.is_queued_backspace(self.backspace_repeat_state) {
            KeyDown::Suppress
        } else if event.switches_mode(self.preserved_input_mode_keys) {
            KeyDown::SwitchMode
        } else {
            KeyDown::Handle
        }
    }

    /// The service after a key has been handled: a Backspace that was eaten starts
    /// a batch.
    pub open spec fn key_noted(self, wparam: usize, eaten: bool, now: u64) -> TextServiceView {
        if eaten && wparam == VK_BACK {
            TextServiceView {
                backspace_repeat_state: BackspaceRepeatState {
                    last_batch_started_at: Some(now),
                    ..self.backspace_repeat_state
                },
                ..self
            }
        } else {
            self
        }
    }
}

/// A key is taken up as it was announced: repeats that are suppressed in the test
/// are suppressed when they come, and a key that was claimed to switch the mode
/// switches it.
pub proof fn keys_are_taken_up_as_announced(service: TextServiceView, event: KeyEvent)
    ensures
        service.key_tested(event) is Suppress <==> service.key_pressed(event) is Suppress,
        service.key_tested(event) is SwitchMode ==> service.key_pressed(event) is SwitchMode,
{
}

/// Queued repeats of a Backspace that was eaten do not reach the host while the
/// window lasts, whatever has become of the composition in between: the service
/// claims them in the test, and does nothing when they come.
pub proof fn queued_repeats_do_not_reach_the_host(
    service: TextServiceView,
    later: TextServiceView,
    now: u64,
    event: KeyEvent,
)
    requires
        later.backspace_repeat_state == service.key_noted(
            VK_BACK as usize,
            true,
            now,
        ).backspace_repeat_state,
        event.wparam == VK_BACK,
        (event.lparam as usize) & PREVIOUS_KEY_STATE_BIT != 0,
        event.now - now < BACKSPACE_REPEAT_COALESCE_WINDOW,
    ensures
        later.key_tested(event) is Suppress,
        later.key_pressed(event) is Suppress,
{
}

impl TextServiceFactory {
    /// Decides whether the service would handle a key.
    pub fn test_key_down(&self, event: KeyEvent) -> (decision: TestKeyDown)
        ensures
            decision == self@.key_tested(event),
    {
        let service = &self.text_service;
        if is_backspace(event.wparam) && service.backspace_repeat_state.should_defer(
            is_key_repeat(event.lparam),
            event.now,
        ) {
            return TestKeyDown::Suppress;
        }
        if should_claim_pending_cleanup(event.has_context, self.has_pending_key_cleanup()) {
            return TestKeyDown::ClaimForCleanup;
        }
        if event.has_context && should_use_direct_alt_grave(
            event.wparam,
            event.alt_pressed,
            event.control_pressed,
            service.preserved_input_mode_keys,
        ) {
            return TestKeyDown::SwitchMode;
        }
        TestKeyDown::Classify
    }

    /// Decides what is done with a key.
    pub fn key_down(&self, event: KeyEvent) -> (decision: KeyDown)
        ensures
            decision == self@.key_pressed(event),
    {
        let service = &self.text_service;
        if is_backspace(event.wparam) && service.backspace_repeat_state.should_defer(
            is_key_repeat(event.lparam),
            event.now,
        ) {
            return KeyDown::Suppress;
        }
        if should_use_direct_alt_grave(
            event.wparam,
            event.alt_pressed,
            event.control_pressed,
            service.preserved_input_mode_keys,
        ) {
            KeyDown::SwitchMode
        } else {
            KeyDown::Handle
        }
    }

    /// Notes that a key has been handled: a Backspace that was eaten starts a
    /// batch.
    pub fn finish_key_down(&mut self, wparam: usize, eaten: bool, now: u64)
        ensures
            final(self)@ == old(self)@.key_noted(wparam, eaten, now),
    {
        if eaten && is_backspace(wparam) {
            self.text_service.backspace_repeat_state.mark_batch_started(now);
        }
    }

    /// Sets or clears the mark of a reserved key.
    pub fn mark_preserved_key(&mut self, marker: u8, owned: bool)
        ensures
            final(self)@ == (TextServiceView {
                preserved_input_mode_keys: marked(
                    old(self)@.preserved_input_mode_keys,
                    marker,
                    owned,
                ),
                ..old(self)@
            }),
    {
        self.text_service.preserved_input_mode_keys = with_preserved_key(
            self.text_service.preserved_input_mode_keys,
            marker,
            owned,
        );
    }
}

/// What a reserved key that the host reports is taken for.
#[derive(Clone, Copy, Debug, PartialEq, Eq, Structural)]
pub enum PreservedKeyEvent {
    NullGuid,
    UnknownGuid,
    InputMode,
}

/// Finds out what a reserved key that the host reports is.
pub fn preserved_key_event(guid: Option<u128>, input_mode_key: u128) -> (event: PreservedKeyEvent)
    ensures
        event == match guid {
            None => PreservedKeyEvent::NullGuid,
            Some(guid) => if guid == input_mode_key {
                PreservedKeyEvent::InputMode
            } else {
                PreservedKeyEvent::UnknownGuid
            },
        },
{
    match guid {
        None => PreservedKeyEvent::NullGuid,
        Some(guid) => if is_input_mode_preserved_key(guid, input_mode_key) {
            PreservedKeyEvent::InputMode
        } else {
            PreservedKeyEvent::UnknownGuid
        },
    }
}

/// The line about a reserved key in the diagnostic log.
pub open spec fn preserved_key_text(
    event: PreservedKeyEvent,
    has_context: bool,
    eaten: bool,
) -> Seq<char> {
    match event {
        PreservedKeyEvent::NullGuid => "matched=false reason=null_guid context="@ + bool_name(
            has_context,
        ),
        PreservedKeyEvent::UnknownGuid => "matched=false reason=unknown_guid context="@
            + bool_name(has_context),
        PreservedKeyEvent::InputMode => "matched=true context="@ + bool_name(has_context)
            + " eaten="@ + bool_name(eaten),
    }
}

/// Writes the line about a reserved key in the diagnostic log.
pub fn preserved_key_detail(event: PreservedKeyEvent, has_context: bool, eaten: bool) -> (detail:
    String)
    ensures
        detail@ == preserved_key_text(event, has_context, eaten),
{
    let mut detail = match event {
        PreservedKeyEvent::NullGuid => "matched=false reason=null_guid context=",
        PreservedKeyEvent::UnknownGuid => "matched=false reason=unknown_guid context=",
        PreservedKeyEvent::InputMode => "matched=true context=",
    }.to_owned();
    detail.append(bool_text(has_context));
    if event == PreservedKeyEvent::InputMode {
        detail.append(" eaten=");
        detail.append(bool_text(eaten));
    }
    detail
}

/// Two keys are reserved for the input mode: Alt and the grave accent on 101-key
/// keyboards, and the Kanji key with whatever modifiers on Japanese ones. Each has a
/// mark of its own.
pub proof fn two_keys_are_reserved(mask: u8)
    ensures
        preserved_key_at(0) == (1u8, PreservedKey { virtual_key: 0xc0, modifiers: 1 }),
        preserved_key_at(1) == (2u8, PreservedKey { virtual_key: 0x19, modifiers: 1024 }),
        marked(mask, 1, true) & 1 == 1,
        marked(mask, 1, true) & 2 == mask & 2,
        marked(mask, 1, false) & 1 == 0,
        marked(mask, 1, false) & 2 == mask & 2,
        marked(mask, 2, true) & 2 == 2,
        marked(mask, 2, true) & 1 == mask & 1,
        marked(mask, 2, false) & 2 == 0,
        marked(mask, 2, false) & 1 == mask & 1,
{
    assert((mask | 1u8) & 1u8 == 1 && (mask | 1u8) & 2u8 == mask & 2u8 && (mask & !1u8) & 1u8 == 0
        && (mask & !1u8) & 2u8 == mask & 2u8) by (bit_vector);
    assert((mask | 2u8) & 2u8 == 2 && (mask | 2u8) & 1u8 == mask & 1u8 && (mask & !2u8) & 2u8 == 0
        && (mask & !2u8) & 1u8 == mask & 1u8) by (bit_vector);
}

/// Alt and the grave accent switch the mode as an ordinary key exactly where Alt is
/// down, Control is not, and the key is not reserved: one press never switches
/// twice.
pub proof fn alt_grave_switches_once(event: KeyEvent, preserved_keys: u8)
    ensures
        event.switches_mode(preserved_keys) <==> event.wparam == 0xc0 && event.alt_pressed
            && !event.control_pressed && preserved_keys & 1 == 0,
        !event.switches_mode(marked(preserved_keys, preserved_key_at(0).0, true)),
{
    assert((preserved_keys | 1u8) & 1u8 != 0) by (bit_vector);
}

/// A key is claimed in this order: a queued repeat of Backspace is swallowed; with a
/// context, a key is taken for a clean-up that is owed, or for the mode; any other
/// key is judged by its answer.
pub proof fn keys_are_claimed_in_order(service: TextServiceView, event: KeyEvent)
    ensures
        ({
            let is_queued = event.wparam == 0x08 && (event.lparam as usize)
                & PREVIOUS_KEY_STATE_BIT != 0
                && service.backspace_repeat_state.last_batch_started_at is Some && event.now
                < service.backspace_repeat_state.last_batch_started_at->0 + 80_000_000;
            let is_owed = service.pending_composition_cleanup
                || service.pending_input_mode_transition is Some;
            let switches = event.wparam == 0xc0 && event.alt_pressed && !event.control_pressed
                && service.preserved_input_mode_keys & 1 == 0;
            &&& service.key_tested(event) is Suppress <==> is_queued
            &&& service.key_tested(event) is ClaimForCleanup <==> !is_queued && event.has_context
                && is_owed
            &&& service.key_tested(event) is SwitchMode <==> !is_queued && event.has_context
                && !is_owed && switches
            &&& service.key_pressed(event) is Suppress <==> is_queued
            &&& service.key_pressed(event) is SwitchMode <==> !is_queued && switches
            &&& service.key_pressed(event) is Handle <==> !is_queued && !switches
        }),
{
}

/// A Backspace that was eaten starts the window for its repeats; a Backspace that
/// went to the host, and any other key, changes nothing.
pub proof fn an_eaten_backspace_starts_the_window(
    service: TextServiceView,
    wparam: usize,
    eaten: bool,
    now: u64,
)
    ensures
        ({
            let after = service.key_noted(wparam, eaten, now);
            let repeats = after.backspace_repeat_state;
            &&& eaten && wparam == 0x08 ==> repeats.last_batch_started_at == Some(now)
            &&& !(eaten && wparam == 0x08) ==> after == service
            &&& repeats.pending_count == service.backspace_repeat_state.pending_count
            &&& after == (TextServiceView { backspace_repeat_state: repeats, ..service })
        }),
{
}

/// The keys that may appear in the diagnostic log are those of the input mode, and
/// the grave accent only with Alt.
pub proof fn only_mode_keys_are_logged(wparam: usize, alt_pressed: bool)
    ensures
        is_loggable_key(wparam, alt_pressed) <==> {
            ||| 0x15 <= wparam <= 0x16
            ||| 0x19 <= wparam <= 0x1a
            ||| wparam == 0xf0
            ||| 0xf2 <= wparam <= 0xf4
            ||| wparam == 0xc0 && alt_pressed
        },
{
}

/// The line about a mode key tells every part of the event under its name: at which
/// of the two calls it was seen, the route that it took, the key, the three modifiers,
/// the keys that are reserved, and whether it was eaten.
pub proof fn a_mode_key_line_tells_every_part(event: ModeKeyEvent)
    ensures
        ({
            let word = |value: bool|
                if value {
                    "true"@
                } else {
                    "false"@
                };
            let stage = if event.key_down {
                "key_down"@
            } else {
                "test_down"@
            };
            let route = if event.direct_alt_grave {
                "direct_alt_grave"@
            } else {
                "key_sink"@
            };
            event.text() == "stage="@ + stage + " route="@ + route + " vk="@ + decimal_notation(
                event.virtual_key as int,
            ) + " alt="@ + word(event.alt_pressed) + " ctrl="@ + word(event.control_pressed)
                + " shift="@ + word(event.shift_pressed) + " preserved_mask="@ + decimal_notation(
                event.preserved_keys as int,
            ) + " eaten="@ + word(event.eaten)
        }),
{
}

/// The line about a reserved key tells whether the key is one of this service, and why
/// not, whether there was a context, and, of a key of this service, whether it was eaten.
pub proof fn a_reserved_key_line_tells_what_was_found(has_context: bool, eaten: bool)
    ensures
        ({
            let word = |value: bool|
                if value {
                    "true"@
                } else {
                    "false"@
                };
            &&& preserved_key_text(PreservedKeyEvent::NullGuid, has_context, eaten)
                == "matched=false reason=null_guid context="@ + word(has_context)
            &&& preserved_key_text(PreservedKeyEvent::UnknownGuid, has_context, eaten)
                == "matched=false reason=unknown_guid context="@ + word(has_context)
            &&& preserved_key_text(PreservedKeyEvent::InputMode, has_context, eaten)
                == "matched=true context="@ + word(has_context) + " eaten="@ + word(eaten)
        }),
{
}

} // verus!
