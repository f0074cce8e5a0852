//! The interactive parcel list: its state, and how a key press, a mouse
//! scroll or an update message changes it. Drawing the screen, reading
//! events and saving files are left to the caller, which performs the
//! effects that each step asks for.

use vstd::prelude::*;
use crate::models::{
    carrier_name, detected_carrier, display_name_of, parcel_delivered, Carrier, Config, Parcel,
    WaybarSelection,
};
use crate::storage::{index_of_tracking, lemma_identified_in_range, tracking_index};
use crate::text::{
    decimal, lowercase_of, owned, pop_char, push_char, split_at_first_space, split_first_space,
    to_lowercase, trim, trimmed,
};

verus! {

/// What the text field at the bottom is being used for.
#[derive(Clone, Copy, PartialEq, Eq, Debug, Structural)]
pub enum InputMode {
    Add,
    Rename,
}

/// A key that was pressed.
#[derive(Clone, Copy, PartialEq, Eq, Debug, Structural)]
pub enum Key {
    Char(char),
    Esc,
    Backspace,
    Enter,
    Up,
    Down,
    PageUp,
    PageDown,
    Home,
    End,
    Other,
}

/// Something that happened at the terminal.
#[derive(Clone, Copy, PartialEq, Eq, Debug, Structural)]
pub enum Event {
    /// A key press.
    Key(Key),
    /// The mouse wheel turned up.
    ScrollUp,
    /// The mouse wheel turned down.
    ScrollDown,
    /// Anything else (a key release, a resize, ...).
    Other,
}

/// A message from the background update.
pub enum Command {
    /// An update of this many parcels starts.
    Start(usize),
    /// The parcel at this index is being fetched.
    ItemStart(usize),
    /// The parcel at this index was fetched: its new value, and the error
    /// message when fetching failed.
    ItemDone(usize, Box<Parcel>, Option<String>),
    /// The update is over.
    Complete,
}

/// What the caller should do after a step.
#[derive(Clone, Copy, PartialEq, Eq, Debug, Structural)]
pub struct Effects {
    /// Write the parcel list.
    pub save_parcels: bool,
    /// Write the bar selection (see `App::apply_selection`).
    pub save_selection: bool,
    /// Start a background update.
    pub start_update: bool,
}

/// The state of the interactive list.
pub struct App {
    pub parcels: Vec<Parcel>,
    /// The highlighted row.
    pub selected: Option<usize>,
    /// The id of the parcel that leads the bar.
    pub selected_id: Option<String>,
    pub show_details: bool,
    pub details_scroll: usize,
    pub message: Option<String>,
    pub quit: bool,
    pub launch_setup: bool,
    pub is_updating: bool,
    pub parcels_to_update: usize,
    pub parcels_updated: usize,
    pub updating_index: Option<usize>,
    pub spinner_tick: usize,
    pub row_errors: Vec<Option<String>>,
    pub input_mode: Option<InputMode>,
    pub input_buffer: String,
}

// ---------------------------------------------------------------------------
// Specifications of the steps
// ---------------------------------------------------------------------------

/// No effect asked.
pub open spec fn no_effects() -> Effects {
    Effects { save_parcels: false, save_selection: false, start_update: false }
}

/// The message shown is `m`.
pub open spec fn message_is(a: App, m: Seq<char>) -> bool {
    a.message matches Some(x) && x@ == m
}

/// Every row has no error, for `n` rows.
pub open spec fn clear_errors(errs: Seq<Option<String>>, n: int) -> bool {
    errs.len() == n && forall|i: int| 0 <= i < n ==> (#[trigger] errs[i]) is None
}

/// `a - b`, or 0 when `b` is larger.
pub open spec fn sat_sub(a: usize, b: usize) -> usize {
    if a >= b {
        (a - b) as usize
    } else {
        0
    }
}

/// `a + b`, or the largest `usize` when that overflows.
pub open spec fn sat_add(a: usize, b: usize) -> usize {
    if a + b <= usize::MAX {
        (a + b) as usize
    } else {
        usize::MAX
    }
}

/// The row above, wrapping to the last; the first row when none is highlighted.
pub open spec fn previous_row(selected: Option<usize>, len: usize) -> usize {
    match selected {
        Some(i) => if i == 0 {
            sat_sub(len, 1)
        } else {
            (i - 1) as usize
        },
        None => 0,
    }
}

/// The row below, wrapping to the first; the first row when none is highlighted.
pub open spec fn next_row(selected: Option<usize>, len: usize) -> usize {
    match selected {
        Some(i) => if i >= sat_sub(len, 1) {
            0
        } else {
            (i + 1) as usize
        },
        None => 0,
    }
}

/// The text field is closed and empty.
pub open spec fn input_closed(b: App) -> bool {
    b.input_mode is None && b.input_buffer@.len() == 0
}

/// Pressing Enter while adding a parcel: the field holds
/// `<tracking> [description]`.
pub open spec fn add_step(a: App, b: App, fx: Effects) -> bool {
    let t = trimmed(a.input_buffer@);
    let parts = split_at_first_space(t);
    let tracking = trimmed(parts.0);
    let description = match parts.1 {
        Some(x) => trimmed(x),
        None => ""@,
    };
    let n = a.parcels@.len();
    &&& input_closed(b)
    &&& if t.len() == 0 || tracking.len() == 0 || tracking_index(a.parcels@, tracking) is Some {
        &&& b == App { message: b.message, input_mode: b.input_mode, input_buffer: b.input_buffer, ..a }
        &&& fx == no_effects()
        &&& message_is(
            b,
            if t.len() == 0 {
                "Add cancelled"@
            } else if tracking.len() == 0 {
                "Usage: <tracking> [description]"@
            } else {
                "Tracking number already exists"@
            },
        )
    } else {
        let p = b.parcels@.last();
        &&& b == App {
            parcels: b.parcels,
            row_errors: b.row_errors,
            selected: b.selected,
            message: b.message,
            input_mode: b.input_mode,
            input_buffer: b.input_buffer,
            ..a
        }
        &&& b.parcels@.len() == n + 1
        &&& b.parcels@.drop_last() == a.parcels@
        &&& p.tracking_number@ == tracking
        &&& p.description@ == (if description.len() == 0 { tracking } else { description })
        &&& p.carrier@ == lowercase_of(carrier_name(detected_carrier(tracking)))
        &&& p.tracking_info is None
        &&& p.last_updated is None
        &&& exists|ms: nat| p.id@ == decimal(ms)
        &&& clear_errors(b.row_errors@, (n + 1) as int)
        &&& b.selected == (if a.selected is None { Some(0usize) } else { a.selected })
        &&& message_is(b, "Parcel added"@)
        &&& fx == Effects { save_parcels: true, ..no_effects() }
    }
}

/// Pressing Enter while renaming: the highlighted parcel takes the
/// (trimmed, non-empty) text as its description.
pub open spec fn rename_step(a: App, b: App, fx: Effects) -> bool {
    let desc = trimmed(a.input_buffer@);
    &&& input_closed(b)
    &&& if a.selected matches Some(i) && i < a.parcels@.len() && desc.len() > 0 {
        let i = a.selected->0 as int;
        &&& b == App { parcels: b.parcels, message: b.message, input_mode: b.input_mode, input_buffer: b.input_buffer, ..a }
        &&& b.parcels@ == a.parcels@.update(i, Parcel { description: b.parcels@[i].description, ..a.parcels@[i] })
        &&& b.parcels@[i].description@ == desc
        &&& message_is(b, "Parcel renamed"@)
        &&& fx == Effects { save_parcels: true, ..no_effects() }
    } else {
        &&& b == App { input_mode: b.input_mode, input_buffer: b.input_buffer, ..a }
        &&& fx == no_effects()
    }
}

/// A key pressed while the text field is open.
pub open spec fn input_key_step(a: App, b: App, mode: InputMode, key: Key, fx: Effects) -> bool {
    match key {
        Key::Esc => input_closed(b) && b == App { input_mode: b.input_mode, input_buffer: b.input_buffer, ..a } && fx == no_effects(),
        Key::Backspace => b == App { input_buffer: b.input_buffer, ..a } && b.input_buffer@ == (if a.input_buffer@.len() > 0 {
            a.input_buffer@.drop_last()
        } else {
            a.input_buffer@
        }) && fx == no_effects(),
        Key::Char(c) => b == App { input_buffer: b.input_buffer, ..a } && b.input_buffer@ == a.input_buffer@.push(c) && fx == no_effects(),
        Key::Enter => match mode {
            InputMode::Add => add_step(a, b, fx),
            InputMode::Rename => rename_step(a, b, fx),
        },
        _ => b == a && fx == no_effects(),
    }
}

/// Deleting the highlighted parcel.
pub open spec fn delete_step(a: App, b: App, fx: Effects) -> bool {
    if a.selected matches Some(i) && i < a.parcels@.len() {
        let i = a.selected->0 as int;
        let removed = a.parcels@[i];
        let n = (a.parcels@.len() - 1) as usize;
        let owned_selection = a.selected_id matches Some(s) && s@ == removed.id@;
        &&& b == App { parcels: b.parcels, selected: b.selected, selected_id: b.selected_id, row_errors: b.row_errors, message: b.message, ..a }
        &&& b.parcels@ == a.parcels@.remove(i)
        &&& b.selected == (if n == 0 { None } else if i >= n { Some((n - 1) as usize) } else { a.selected })
        &&& b.selected_id == (if n == 0 || owned_selection { None } else { a.selected_id })
        &&& clear_errors(b.row_errors@, n as int)
        &&& message_is(b, "Parcel removed"@)
        &&& fx == Effects { save_parcels: true, save_selection: n > 0 && owned_selection, start_update: false }
    } else {
        b == a && fx == no_effects()
    }
}

/// The value of an ASCII digit character.
pub open spec fn digit_value(c: char) -> int {
    (c as int) - 48
}

/// A key pressed while the text field is closed.
pub open spec fn list_key_step(a: App, b: App, key: Key, fx: Effects) -> bool {
    let n = a.parcels@.len();
    match key {
        Key::Esc => if a.show_details {
            b == App { show_details: false, details_scroll: 0, ..a } && fx == no_effects()
        } else {
            b == App { quit: true, ..a } && fx == no_effects()
        },
        Key::Char(c) => if c == 'q' {
            if a.show_details {
                b == App { show_details: false, details_scroll: 0, ..a } && fx == no_effects()
            } else {
                b == App { quit: true, ..a } && fx == no_effects()
            }
        } else if c == 'u' {
            &&& b == App { selected_id: None, message: b.message, ..a }
            &&& message_is(b, "Selection cleared"@)
            &&& fx == Effects { save_selection: true, ..no_effects() }
        } else if c == 'U' {
            b == a && fx == Effects { start_update: true, ..no_effects() }
        } else if a.show_details {
            b == a && fx == no_effects()
        } else if c == 'a' {
            b == App { input_mode: Some(InputMode::Add), input_buffer: b.input_buffer, ..a } && b.input_buffer@.len() == 0 && fx == no_effects()
        } else if c == 'r' {
            if a.selected is Some {
                b == App { input_mode: Some(InputMode::Rename), input_buffer: b.input_buffer, ..a } && b.input_buffer@.len() == 0 && fx == no_effects()
            } else {
                b == a && fx == no_effects()
            }
        } else if c == 's' {
            b == App { launch_setup: true, ..a } && fx == no_effects()
        } else if c == 'd' {
            delete_step(a, b, fx)
        } else if '0' <= c <= '9' && 0 < digit_value(c) <= n {
            let p = a.parcels@[digit_value(c) - 1];
            &&& b == App { selected_id: b.selected_id, message: b.message, ..a }
            &&& b.selected_id matches Some(id) && id@ == p.id@
            &&& message_is(b, "Selected: "@ + display_name_of(p))
            &&& fx == Effects { save_selection: true, ..no_effects() }
        } else {
            b == a && fx == no_effects()
        },
        Key::Up => (if a.show_details {
            b == a
        } else {
            b == App { selected: Some(previous_row(a.selected, n as usize)), ..a }
        }) && fx == no_effects(),
        Key::Down => (if a.show_details {
            b == a
        } else {
            b == App { selected: Some(next_row(a.selected, n as usize)), ..a }
        }) && fx == no_effects(),
        Key::Enter => (if !a.show_details && (a.selected matches Some(i) && i < n) {
            b == App { show_details: true, details_scroll: 0, ..a }
        } else {
            b == a
        }) && fx == no_effects(),
        Key::PageUp => (if a.show_details {
            b == App { details_scroll: sat_sub(a.details_scroll, 5), ..a }
        } else {
            b == a
        }) && fx == no_effects(),
        Key::PageDown => (if a.show_details {
            b == App { details_scroll: sat_add(a.details_scroll, 5), ..a }
        } else {
            b == a
        }) && fx == no_effects(),
        Key::Home => (if a.show_details {
            b == App { details_scroll: 0, ..a }
        } else {
            b == a
        }) && fx == no_effects(),
        _ => b == a && fx == no_effects(),
    }
}

/// What an event does to the state.
pub open spec fn event_step(a: App, b: App, ev: Event, fx: Effects) -> bool {
    match ev {
        Event::Key(key) => match a.input_mode {
            Some(mode) => input_key_step(a, b, mode, key, fx),
            None => list_key_step(a, b, key, fx),
        },
        Event::ScrollUp => (if a.show_details {
            b == App { details_scroll: sat_sub(a.details_scroll, 3), ..a }
        } else {
            b == a
        }) && fx == no_effects(),
        Event::ScrollDown => (if a.show_details {
            b == App { details_scroll: sat_add(a.details_scroll, 3), ..a }
        } else {
            b == a
        }) && fx == no_effects(),
        Event::Other => b == a && fx == no_effects(),
    }
}


// ---------------------------------------------------------------------------
// The steps
// ---------------------------------------------------------------------------

/// `n` rows with no error.
pub fn clear_rows(n: usize) -> (r: Vec<Option<String>>)
    ensures
        clear_errors(r@, n as int),
{
    let mut r: Vec<Option<String>> = Vec::new();
    let mut i: usize = 0;
    while i < n
        invariant
            i <= n,
            clear_errors(r@, i as int),
        decreases n - i,
    {
        r.push(None);
        i = i + 1;
    }
    r
}

/// The value of an ASCII digit.
fn digit_of(c: char) -> (d: usize)
    requires
        '0' <= c <= '9',
    ensures
        d as int == digit_value(c),
{
    if c == '0' { 0 }
    else if c == '1' { 1 }
    else if c == '2' { 2 }
    else if c == '3' { 3 }
    else if c == '4' { 4 }
    else if c == '5' { 5 }
    else if c == '6' { 6 }
    else if c == '7' { 7 }
    else if c == '8' { 8 }
    else { 9 }
}

impl App {
    /// Highlights the row above, wrapping around.
    pub fn previous(&mut self)
        ensures
            *final(self) == (App { selected: Some(previous_row(old(self).selected, old(self).parcels@.len() as usize)), ..*old(self) }),
    {
        let i = match self.selected {
            Some(i) => if i == 0 {
                self.parcels.len().saturating_sub(1)
            } else {
                i - 1
            },
            None => 0,
        };
        self.selected = Some(i);
    }

    /// Highlights the row below, wrapping around.
    pub fn next(&mut self)
        ensures
            *final(self) == (App { selected: Some(next_row(old(self).selected, old(self).parcels@.len() as usize)), ..*old(self) }),
    {
        let i = match self.selected {
            Some(i) => if i >= self.parcels.len().saturating_sub(1) {
                0
            } else {
                i + 1
            },
            None => 0,
        };
        self.selected = Some(i);
    }

    /// Enter while adding a parcel.
    fn add_from_input(&mut self) -> (fx: Effects)
        ensures
            add_step(*old(self), *final(self), fx),
    {
        let t = trim(self.input_buffer.as_str());
        let mut fx = Effects { save_parcels: false, save_selection: false, start_update: false };
        if t.is_empty() {
            self.message = Some(owned("Add cancelled"));
        } else {
            let (head, tail) = split_first_space(t);
            let tracking = owned(trim(head.as_str()));
            let description = match &tail {
                Some(x) => owned(trim(x.as_str())),
                None => owned(""),
            };
            if tracking.as_str().is_empty() {
                self.message = Some(owned("Usage: <tracking> [description]"));
            } else if index_of_tracking(&self.parcels, tracking.as_str()).is_some() {
                self.message = Some(owned("Tracking number already exists"));
            } else {
                let carrier = to_lowercase(Carrier::detect(tracking.as_str()).name());
                let desc = if description.as_str().is_empty() {
                    tracking.clone()
                } else {
                    description
                };
                let ghost before = self.parcels@;
                self.parcels.push(Parcel::new(tracking, desc, carrier));
                assert(self.parcels@.drop_last() =~= before);
                fx.save_parcels = true;
                self.row_errors = clear_rows(self.parcels.len());
                if self.selected.is_none() {
                    self.selected = Some(0);
                }
                self.message = Some(owned("Parcel added"));
            }
        }
        self.input_mode = None;
        self.input_buffer = String::new();
        fx
    }

    /// Enter while renaming the highlighted parcel.
    fn rename_from_input(&mut self) -> (fx: Effects)
        ensures
            rename_step(*old(self), *final(self), fx),
    {
        let mut fx = Effects { save_parcels: false, save_selection: false, start_update: false };
        if let Some(idx) = self.selected {
            if idx < self.parcels.len() {
                let desc = trim(self.input_buffer.as_str());
                if !desc.is_empty() {
                    let ghost before = self.parcels@;
                    let new_desc = owned(desc);
                    let mut p = self.parcels.remove(idx);
                    p.description = new_desc;
                    self.parcels.insert(idx, p);
                    assert(self.parcels@ =~= before.update(idx as int, Parcel { description: self.parcels@[idx as int].description, ..before[idx as int] }));
                    fx.save_parcels = true;
                    self.message = Some(owned("Parcel renamed"));
                }
            }
        }
        self.input_mode = None;
        self.input_buffer = String::new();
        fx
    }

    /// A key pressed while the text field is open.
    fn input_key(&mut self, mode: InputMode, key: Key) -> (fx: Effects)
        ensures
            input_key_step(*old(self), *final(self), mode, key, fx),
    {
        let none = Effects { save_parcels: false, save_selection: false, start_update: false };
        match key {
            Key::Esc => {
                self.input_mode = None;
                self.input_buffer = String::new();
                none
            },
            Key::Backspace => {
                pop_char(&mut self.input_buffer);
                none
            },
            Key::Enter => match mode {
                InputMode::Add => self.add_from_input(),
                InputMode::Rename => self.rename_from_input(),
            },
            Key::Char(c) => {
                push_char(&mut self.input_buffer, c);
                none
            },
            _ => none,
        }
    }

    /// Deletes the highlighted parcel.
    fn delete_selected(&mut self) -> (fx: Effects)
        ensures
            delete_step(*old(self), *final(self), fx),
    {
        let mut fx = Effects { save_parcels: false, save_selection: false, start_update: false };
        if let Some(idx) = self.selected {
            if idx < self.parcels.len() {
                let removed = self.parcels.remove(idx);
                fx.save_parcels = true;
                let owned_selection = match &self.selected_id {
                    Some(s) => crate::text::str_eq(s.as_str(), removed.id.as_str()),
                    None => false,
                };
                if self.parcels.len() == 0 {
                    self.selected = None;
                    self.selected_id = None;
                } else if idx >= self.parcels.len() {
                    self.selected = Some(self.parcels.len() - 1);
                }
                if owned_selection && self.parcels.len() > 0 {
                    self.selected_id = None;
                    fx.save_selection = true;
                }
                self.row_errors = clear_rows(self.parcels.len());
                self.message = Some(owned("Parcel removed"));
            }
        }
        fx
    }

    /// A key pressed while the text field is closed.
    fn list_key(&mut self, key: Key) -> (fx: Effects)
        ensures
            list_key_step(*old(self), *final(self), key, fx),
    {
        let none = Effects { save_parcels: false, save_selection: false, start_update: false };
        match key {
            Key::Esc => {
                if self.show_details {
                    self.show_details = false;
                    self.details_scroll = 0;
                } else {
                    self.quit = true;
                }
                none
            },
            Key::Char(c) => {
                if c == 'q' {
                    if self.show_details {
                        self.show_details = false;
                        self.details_scroll = 0;
                    } else {
                        self.quit = true;
                    }
                    none
                } else if c == 'u' {
                    self.selected_id = None;
                    self.message = Some(owned("Selection cleared"));
                    Effects { save_selection: true, ..none }
                } else if c == 'U' {
                    Effects { start_update: true, ..none }
                } else if self.show_details {
                    none
                } else if c == 'a' {
                    self.input_mode = Some(InputMode::Add);
                    self.input_buffer = String::new();
                    none
                } else if c == 'r' {
                    if self.selected.is_some() {
                        self.input_mode = Some(InputMode::Rename);
                        self.input_buffer = String::new();
                    }
                    none
                } else if c == 's' {
                    self.launch_setup = true;
                    none
                } else if c == 'd' {
                    self.delete_selected()
                } else if '0' <= c && c <= '9' {
                    let pos = digit_of(c);
                    if pos > 0 && pos <= self.parcels.len() {
                        let id = self.parcels[pos - 1].id.clone();
                        let name = self.parcels[pos - 1].display_name();
                        self.selected_id = Some(id);
                        self.message = Some(crate::text::concat2("Selected: ", name.as_str()));
                        Effects { save_selection: true, ..none }
                    } else {
                        none
                    }
                } else {
                    none
                }
            },
            Key::Up => {
                if !self.show_details {
                    self.previous();
                }
                none
            },
            Key::Down => {
                if !self.show_details {
                    self.next();
                }
                none
            },
            Key::Enter => {
                if !self.show_details {
                    if let Some(idx) = self.selected {
                        if idx < self.parcels.len() {
                            self.show_details = true;
                            self.details_scroll = 0;
                        }
                    }
                }
                none
            },
            Key::PageUp => {
                if self.show_details {
                    self.details_scroll = self.details_scroll.saturating_sub(5);
                }
                none
            },
            Key::PageDown => {
                if self.show_details {
                    self.details_scroll = self.details_scroll.saturating_add(5);
                }
                none
            },
            Key::Home => {
                if self.show_details {
                    self.details_scroll = 0;
                }
                none
            },
            _ => none,
        }
    }

    /// Applies a terminal event and says what the caller should do next.
    pub fn handle_event(&mut self, ev: Event) -> (fx: Effects)
        ensures
            event_step(*old(self), *final(self), ev, fx),
    {
        let none = Effects { save_parcels: false, save_selection: false, start_update: false };
        match ev {
            Event::Key(key) => match self.input_mode {
                Some(mode) => self.input_key(mode, key),
                None => self.list_key(key),
            },
            Event::ScrollUp => {
                if self.show_details {
                    self.details_scroll = self.details_scroll.saturating_sub(3);
                }
                none
            },
            Event::ScrollDown => {
                if self.show_details {
                    self.details_scroll = self.details_scroll.saturating_add(3);
                }
                none
            },
            Event::Other => none,
        }
    }
}


// ---------------------------------------------------------------------------
// Updates, start-up and the bar selection
// ---------------------------------------------------------------------------

/// How many rows failed.
pub open spec fn failed_count(errs: Seq<Option<String>>) -> int
    decreases errs.len(),
{
    if errs.len() == 0 {
        0
    } else {
        failed_count(errs.drop_last()) + if errs.last() is Some { 1int } else { 0int }
    }
}

proof fn lemma_failed_count_bound(errs: Seq<Option<String>>)
    ensures
        0 <= failed_count(errs) <= errs.len(),
    decreases errs.len(),
{
    if errs.len() > 0 {
        lemma_failed_count_bound(errs.drop_last());
    }
}

/// The message at the end of an update.
pub open spec fn completion_message(updated: usize, failed: int) -> Seq<char> {
    if failed == 0 {
        "Updated "@ + decimal(updated as nat) + " parcel(s)"@
    } else {
        "Updated "@ + decimal(sat_sub(updated, failed as usize) as nat) + " parcel(s), "@ + decimal(
            failed as nat,
        ) + " failed"@
    }
}

/// What an update message does to the state.
pub open spec fn command_step(a: App, b: App, cmd: Command, fx: Effects) -> bool {
    match cmd {
        Command::Start(total) => {
            &&& b == App {
                is_updating: true,
                parcels_to_update: total,
                parcels_updated: 0,
                updating_index: None,
                row_errors: b.row_errors,
                message: b.message,
                ..a
            }
            &&& clear_errors(b.row_errors@, a.parcels@.len() as int)
            &&& message_is(b, "Updating parcels..."@)
            &&& fx == no_effects()
        },
        Command::ItemStart(i) => b == App { updating_index: Some(i), ..a } && fx == no_effects(),
        Command::ItemDone(i, p, err) => {
            &&& b == App { parcels: b.parcels, row_errors: b.row_errors, parcels_updated: sat_add(a.parcels_updated, 1), ..a }
            &&& b.parcels@ == (if i < a.parcels@.len() { a.parcels@.update(i as int, *p) } else { a.parcels@ })
            &&& b.row_errors@ == (if i < a.parcels@.len() && a.row_errors@.len() == a.parcels@.len() {
                a.row_errors@.update(i as int, err)
            } else {
                a.row_errors@
            })
            &&& fx == Effects { save_parcels: true, ..no_effects() }
        },
        Command::Complete => {
            &&& b == App { is_updating: false, updating_index: None, message: b.message, ..a }
            &&& message_is(b, completion_message(a.parcels_updated, failed_count(a.row_errors@)))
            &&& fx == no_effects()
        },
    }
}

/// The index of the first parcel that does not read as delivered.
pub open spec fn first_undelivered(ps: Seq<Parcel>) -> Option<int>
    decreases ps.len(),
{
    if ps.len() == 0 {
        None
    } else if !parcel_delivered(ps[0]) {
        Some(0)
    } else {
        match first_undelivered(ps.drop_first()) {
            Some(i) => Some(i + 1),
            None => None,
        }
    }
}

proof fn lemma_first_undelivered(ps: Seq<Parcel>)
    ensures
        first_undelivered(ps) matches Some(i) ==> 0 <= i < ps.len(),
    decreases ps.len(),
{
    if ps.len() > 0 {
        lemma_first_undelivered(ps.drop_first());
    }
}

/// The index of the first parcel with this id.
pub open spec fn id_index(ps: Seq<Parcel>, id: Seq<char>) -> Option<int>
    decreases ps.len(),
{
    if ps.len() == 0 {
        None
    } else if ps[0].id@ == id {
        Some(0)
    } else {
        match id_index(ps.drop_first(), id) {
            Some(i) => Some(i + 1),
            None => None,
        }
    }
}

proof fn lemma_id_index(ps: Seq<Parcel>, id: Seq<char>)
    ensures
        id_index(ps, id) matches Some(i) ==> 0 <= i < ps.len() && ps[i].id@ == id,
    decreases ps.len(),
{
    if ps.len() > 0 {
        lemma_id_index(ps.drop_first(), id);
    }
}

/// The id of the parcel that leads the bar when the list opens: the
/// selected one, else the first that is not delivered.
pub open spec fn initial_bar_id(ps: Seq<Parcel>, config: Config) -> Option<Seq<char>> {
    let i = match config.waybar_selected {
        Some(sel) => tracking_index(ps, sel.tracking@),
        None => first_undelivered(ps),
    };
    match i {
        Some(k) => Some(ps[k].id@),
        None => None,
    }
}

/// The id of the first parcel with this id, found by position.
fn find_id(ps: &Vec<Parcel>, id: &str) -> (r: Option<usize>)
    ensures
        match r {
            Some(i) => id_index(ps@, id@) == Some(i as int) && i < ps@.len(),
            None => id_index(ps@, id@) is None,
        },
{
    proof {
        lemma_id_index(ps@, id@);
    }
    let mut i: usize = 0;
    assert(ps@.skip(0) =~= ps@);
    while i < ps.len()
        invariant
            i <= ps.len(),
            id_index(ps@, id@) == match id_index(ps@.skip(i as int), id@) {
                Some(k) => Some(k + i),
                None => None::<int>,
            },
        decreases ps.len() - i,
    {
        assert(ps@.skip(i as int).drop_first() =~= ps@.skip(i + 1));
        assert(ps@.skip(i as int)[0] == ps@[i as int]);
        if crate::text::str_eq(ps[i].id.as_str(), id) {
            return Some(i);
        }
        i = i + 1;
    }
    None
}

/// The index of the first parcel that does not read as delivered.
fn find_undelivered(ps: &Vec<Parcel>) -> (r: Option<usize>)
    ensures
        match r {
            Some(i) => first_undelivered(ps@) == Some(i as int) && i < ps@.len(),
            None => first_undelivered(ps@) is None,
        },
{
    proof {
        lemma_first_undelivered(ps@);
    }
    let mut i: usize = 0;
    assert(ps@.skip(0) =~= ps@);
    while i < ps.len()
        invariant
            i <= ps.len(),
            first_undelivered(ps@) == match first_undelivered(ps@.skip(i as int)) {
                Some(k) => Some(k + i),
                None => None::<int>,
            },
        decreases ps.len() - i,
    {
        assert(ps@.skip(i as int).drop_first() =~= ps@.skip(i + 1));
        assert(ps@.skip(i as int)[0] == ps@[i as int]);
        if !ps[i].is_delivered() {
            return Some(i);
        }
        i = i + 1;
    }
    None
}

impl App {
    /// The list as it opens: the first row highlighted, the bar led by the
    /// selected parcel (else the first that is not delivered), no update
    /// running.
    pub fn new(parcels: Vec<Parcel>, config: &Config) -> (app: App)
        ensures
            app.parcels@ == parcels@,
            app.selected == (if parcels@.len() > 0 { Some(0usize) } else { None }),
            match initial_bar_id(parcels@, *config) {
                Some(id) => app.selected_id matches Some(s) && s@ == id,
                None => app.selected_id is None,
            },
            !app.show_details && app.details_scroll == 0 && app.message is None,
            !app.quit && !app.launch_setup && !app.is_updating,
            app.parcels_to_update == 0 && app.parcels_updated == 0,
            app.updating_index is None && app.spinner_tick == 0,
            app.row_errors@.len() == 0,
            input_closed(app),
    {
        proof {
            lemma_first_undelivered(parcels@);
        }
        let selected = if parcels.len() > 0 { Some(0) } else { None };
        let index = match &config.waybar_selected {
            Some(sel) => {
                proof {
                    lemma_identified_in_range(parcels@, sel.tracking@);
                }
                index_of_tracking(&parcels, sel.tracking.as_str())
            },
            None => find_undelivered(&parcels),
        };
        let selected_id = match index {
            Some(k) => Some(parcels[k].id.clone()),
            None => None,
        };
        App {
            parcels,
            selected,
            selected_id,
            show_details: false,
            details_scroll: 0,
            message: None,
            quit: false,
            launch_setup: false,
            is_updating: false,
            parcels_to_update: 0,
            parcels_updated: 0,
            updating_index: None,
            spinner_tick: 0,
            row_errors: Vec::new(),
            input_mode: None,
            input_buffer: String::new(),
        }
    }

    /// Whether an update may start: there are parcels and none is running.
    pub fn should_start_update(&self) -> (r: bool)
        ensures
            r == (self.parcels@.len() > 0 && !self.is_updating),
    {
        self.parcels.len() > 0 && !self.is_updating
    }

    /// A tick of the clock turns the spinner while an update runs.
    pub fn on_tick(&mut self)
        ensures
            *final(self) == (App {
                spinner_tick: if old(self).is_updating {
                    ((old(self).spinner_tick % 10 + 1) % 10) as usize
                } else {
                    old(self).spinner_tick
                },
                ..*old(self)
            }),
    {
        if self.is_updating {
            self.spinner_tick = (self.spinner_tick % 10 + 1) % 10;
        }
    }

    /// Applies a message from the background update.
    pub fn handle_command(&mut self, cmd: Command) -> (fx: Effects)
        ensures
            command_step(*old(self), *final(self), cmd, fx),
    {
        let none = Effects { save_parcels: false, save_selection: false, start_update: false };
        match cmd {
            Command::Start(total) => {
                self.is_updating = true;
                self.parcels_to_update = total;
                self.parcels_updated = 0;
                self.updating_index = None;
                self.row_errors = clear_rows(self.parcels.len());
                self.message = Some(owned("Updating parcels..."));
                none
            },
            Command::ItemStart(index) => {
                self.updating_index = Some(index);
                none
            },
            Command::ItemDone(index, updated, err) => {
                if index < self.parcels.len() {
                    self.parcels.set(index, *updated);
                    if self.row_errors.len() == self.parcels.len() {
                        self.row_errors.set(index, err);
                    }
                }
                self.parcels_updated = self.parcels_updated.saturating_add(1);
                Effects { save_parcels: true, ..none }
            },
            Command::Complete => {
                self.is_updating = false;
                self.updating_index = None;
                let mut failed: usize = 0;
                let mut i: usize = 0;
                proof {
                    lemma_failed_count_bound(self.row_errors@);
                }
                while i < self.row_errors.len()
                    invariant
                        i <= self.row_errors@.len(),
                        failed as int == failed_count(self.row_errors@.subrange(0, i as int)),
                        failed <= i,
                    decreases self.row_errors.len() - i,
                {
                    assert(self.row_errors@.subrange(0, i + 1).drop_last() =~= self.row_errors@.subrange(0, i as int));
                    if self.row_errors[i].is_some() {
                        failed = failed + 1;
                    }
                    i = i + 1;
                }
                assert(self.row_errors@.subrange(0, self.row_errors@.len() as int) =~= self.row_errors@);
                let updated_text = crate::text::u128_decimal(self.parcels_updated as u128);
                if failed == 0 {
                    let mut m = owned("Updated ");
                    m.append(updated_text.as_str());
                    m.append(" parcel(s)");
                    self.message = Some(m);
                } else {
                    let ok_text = crate::text::u128_decimal(self.parcels_updated.saturating_sub(failed) as u128);
                    let failed_text = crate::text::u128_decimal(failed as u128);
                    let mut m = owned("Updated ");
                    m.append(ok_text.as_str());
                    m.append(" parcel(s), ");
                    m.append(failed_text.as_str());
                    m.append(" failed");
                    self.message = Some(m);
                }
                none
            },
        }
    }

    /// Writes the bar selection into `config`: the parcel with the
    /// selected id, stamped with `timestamp` (unchanged when no parcel has
    /// that id), or no selection.
    pub fn apply_selection(&self, config: &mut Config, timestamp: String)
        ensures
            final(config).track17_api_key == old(config).track17_api_key,
            match self.selected_id {
                Some(id) => match id_index(self.parcels@, id@) {
                    Some(i) => final(config).waybar_selected matches Some(sel)
                        && sel.tracking@ == self.parcels@[i].tracking_number@ && sel.timestamp@ == timestamp@,
                    None => final(config).waybar_selected == old(config).waybar_selected,
                },
                None => final(config).waybar_selected is None,
            },
    {
        match &self.selected_id {
            Some(id) => {
                if let Some(i) = find_id(&self.parcels, id.as_str()) {
                    config.waybar_selected = Some(WaybarSelection {
                        tracking: self.parcels[i].tracking_number.clone(),
                        timestamp,
                    });
                }
            },
            None => {
                config.waybar_selected = None;
            },
        }
    }
}


// ---------------------------------------------------------------------------
// What the screen shows
// ---------------------------------------------------------------------------

/// The frame of the update spinner.
pub open spec fn spinner_frame(tick: usize) -> Seq<char> {
    let k = tick % 10;
    if k == 0 {
        "⠋"@
    } else if k == 1 {
        "⠙"@
    } else if k == 2 {
        "⠹"@
    } else if k == 3 {
        "⠸"@
    } else if k == 4 {
        "⠼"@
    } else if k == 5 {
        "⠴"@
    } else if k == 6 {
        "⠦"@
    } else if k == 7 {
        "⠧"@
    } else if k == 8 {
        "⠇"@
    } else {
        "⠏"@
    }
}

/// The frame of the update spinner.
pub fn spinner(tick: usize) -> (r: &'static str)
    ensures
        r@ == spinner_frame(tick),
{
    let k = tick % 10;
    if k == 0 {
        "⠋"
    } else if k == 1 {
        "⠙"
    } else if k == 2 {
        "⠹"
    } else if k == 3 {
        "⠸"
    } else if k == 4 {
        "⠼"
    } else if k == 5 {
        "⠴"
    } else if k == 6 {
        "⠦"
    } else if k == 7 {
        "⠧"
    } else if k == 8 {
        "⠇"
    } else {
        "⠏"
    }
}

/// The title of the parcel table.
pub open spec fn table_title(a: App) -> Seq<char> {
    if a.is_updating {
        "Parcels · updating "@ + decimal(a.parcels_updated as nat) + "/"@ + decimal(
            a.parcels_to_update as nat,
        )
    } else {
        "Parcels · a:add r:ren d:del U:upd 1-9:sel u:clr Enter:details q:quit"@
    }
}

/// The status part of the help line.
pub open spec fn status_part(a: App) -> Seq<char> {
    match a.input_mode {
        Some(InputMode::Add) => "Add parcel: "@ + a.input_buffer@,
        Some(InputMode::Rename) => "Rename parcel: "@ + a.input_buffer@,
        None => if a.is_updating {
            spinner_frame(a.spinner_tick) + " Updating "@ + decimal(a.parcels_updated as nat) + "/"@
                + decimal(a.parcels_to_update as nat)
        } else {
            match a.message {
                Some(m) => m@,
                None => Seq::<char>::empty(),
            }
        },
    }
}

/// The help line at the bottom.
pub open spec fn help_line(a: App) -> Seq<char> {
    status_part(a) + if a.show_details {
        "  q/Esc: Close  ↑/↓: Scroll  PgUp/PgDn: Page  Home: Top  End: Bottom"@
    } else {
        "  ↑/↓: Navigate  Enter: Details  a:Add  r:Rename  d:Delete  U:Update  s:Setup keys  1-9:Select  u:Unselect  q:Quit"@
    }
}

/// The texts of one row of the table.
#[derive(Debug)]
pub struct RowText {
    pub number: String,
    pub status: String,
    pub description: String,
    pub tracking: String,
    pub eta: String,
    /// The row is shown in the delivered color.
    pub delivered: bool,
}

/// The status cell of a row.
pub open spec fn status_cell(a: App, i: int) -> Seq<char> {
    let p = a.parcels@[i];
    let base = crate::cli::status_column(p);
    if a.updating_index == Some(i as usize) {
        spinner_frame(a.spinner_tick) + " "@ + base
    } else if i < a.row_errors@.len() && a.row_errors@[i] is Some {
        "✗ "@ + base
    } else {
        base
    }
}

/// The description cell of a row: starred when the parcel leads the bar.
pub open spec fn description_cell(a: App, i: int) -> Seq<char> {
    let p = a.parcels@[i];
    if a.selected_id matches Some(id) && id@ == p.id@ {
        "★ "@ + p.description@
    } else {
        p.description@
    }
}

/// The estimate cell of a row: the bar's label seen from `now` under some
/// offsets of the machine (in a year of four digits, seen from an instant
/// chrono holds, offsets of less than a day), `-` without an estimate.
pub open spec fn eta_cell_fits(p: Parcel, now: crate::time::UtcTime, text: Seq<char>) -> bool {
    match crate::jsonout::parcel_eta(p) {
        Some(t) => match crate::time::rfc3339_of(t.secs, t.nanos) {
            Some(s) => {
                &&& exists|o1: Option<i32>, o2: Option<i32>|
                    #![trigger crate::bar::smart_eta(s, now, o1, o2)]
                    text == crate::bar::smart_eta(s, now, o1, o2)
                &&& crate::time::four_digit_year(t) && crate::time::rfc3339_of(now.secs, now.nanos) is Some
                    ==> exists|o1: i32, o2: i32| -86400 < o1 < 86400 && -86400 < o2 < 86400
                        && text == #[trigger] crate::bar::smart_eta(s, now, Some(o1), Some(o2))
            },
            None => text == "-"@,
        },
        None => text == "-"@,
    }
}

/// The estimate cell of a row.
fn eta_cell(p: &Parcel, now: crate::time::UtcTime) -> (r: String)
    ensures
        eta_cell_fits(*p, now, r@),
{
    let eta: Option<crate::time::UtcTime> = match &p.tracking_info {
        Some(info) => info.estimated_delivery_date,
        None => None,
    };
    match eta {
        Some(t) => match crate::time::to_rfc3339(t) {
            Some(s) => {
                let label = crate::bar::format_eta_smart_at(s.as_str(), now);
                proof {
                    let (o1, o2) = choose|o1: Option<i32>, o2: Option<i32>|
                        label@ == crate::bar::smart_eta(s@, now, o1, o2);
                    let sx = crate::time::rfc3339_of(t.secs, t.nanos)->0;
                    assert(sx == s@);
                    assert(label@ == crate::bar::smart_eta(sx, now, o1, o2));
                }
                label
            },
            None => owned("-"),
        },
        None => owned("-"),
    }
}

impl App {
    /// The title of the parcel table.
    pub fn title(&self) -> (r: String)
        ensures
            r@ == table_title(*self),
    {
        if self.is_updating {
            let done = crate::text::u128_decimal(self.parcels_updated as u128);
            let total = crate::text::u128_decimal(self.parcels_to_update as u128);
            let mut r = owned("Parcels · updating ");
            r.append(done.as_str());
            r.append("/");
            r.append(total.as_str());
            r
        } else {
            owned("Parcels · a:add r:ren d:del U:upd 1-9:sel u:clr Enter:details q:quit")
        }
    }

    /// The help line at the bottom.
    pub fn help_text(&self) -> (r: String)
        ensures
            r@ == help_line(*self),
    {
        let mut r = match self.input_mode {
            Some(InputMode::Add) => crate::text::concat2("Add parcel: ", self.input_buffer.as_str()),
            Some(InputMode::Rename) => crate::text::concat2("Rename parcel: ", self.input_buffer.as_str()),
            None => if self.is_updating {
                let done = crate::text::u128_decimal(self.parcels_updated as u128);
                let total = crate::text::u128_decimal(self.parcels_to_update as u128);
                let mut r = owned(spinner(self.spinner_tick));
                r.append(" Updating ");
                r.append(done.as_str());
                r.append("/");
                r.append(total.as_str());
                assert(r@ =~= spinner_frame(self.spinner_tick) + " Updating "@ + decimal(self.parcels_updated as nat) + "/"@
                    + decimal(self.parcels_to_update as nat));
                r
            } else {
                match &self.message {
                    Some(m) => m.clone(),
                    None => String::new(),
                }
            },
        };
        assert(r@ == status_part(*self));
        if self.show_details {
            r.append("  q/Esc: Close  ↑/↓: Scroll  PgUp/PgDn: Page  Home: Top  End: Bottom");
        } else {
            r.append("  ↑/↓: Navigate  Enter: Details  a:Add  r:Rename  d:Delete  U:Update  s:Setup keys  1-9:Select  u:Unselect  q:Quit");
        }
        r
    }

    /// The texts of row `i` of the table, estimates seen from `now`.
    pub fn row_text(&self, i: usize, now: crate::time::UtcTime) -> (r: RowText)
        requires
            i < self.parcels@.len(),
        ensures
            r.number@ == decimal(i as nat + 1) + "."@,
            r.status@ == status_cell(*self, i as int),
            r.description@ == description_cell(*self, i as int),
            r.tracking@ == self.parcels@[i as int].tracking_number@,
            eta_cell_fits(self.parcels@[i as int], now, r.eta@),
            r.delivered == parcel_delivered(self.parcels@[i as int]),
    {
        let p = &self.parcels[i];
        let base = crate::cli::status_column_text(p);
        let status = if self.updating_index == Some(i) {
            crate::text::concat3(spinner(self.spinner_tick), " ", base.as_str())
        } else if i < self.row_errors.len() && self.row_errors[i].is_some() {
            crate::text::concat2("✗ ", base.as_str())
        } else {
            base
        };
        let starred = match &self.selected_id {
            Some(id) => crate::text::str_eq(id.as_str(), p.id.as_str()),
            None => false,
        };
        let description = if starred {
            crate::text::concat2("★ ", p.description.as_str())
        } else {
            p.description.clone()
        };
        let number = crate::text::concat2(crate::text::u128_decimal(i as u128 + 1).as_str(), ".");
        RowText {
            number,
            status,
            description,
            tracking: p.tracking_number.clone(),
            eta: eta_cell(p, now),
            delivered: p.is_delivered(),
        }
    }
}


// ---------------------------------------------------------------------------
// The details view
// ---------------------------------------------------------------------------

/// How a piece of text is shown.
#[derive(Clone, Copy, PartialEq, Eq, Debug, Structural)]
pub enum Tone {
    Plain,
    /// A field name (yellow, bold).
    Label,
    /// Good news (green).
    Good,
    /// A status that is not final (cyan).
    Info,
    /// Soon (yellow).
    Soon,
    /// Late (red).
    Late,
    /// Secondary text (dark gray).
    Dim,
}

/// A piece of a line in the details view.
#[derive(Debug)]
pub struct Segment {
    pub text: String,
    pub tone: Tone,
}

/// Segments as mathematical values.
pub open spec fn segments_view(line: Seq<Segment>) -> Seq<(Seq<char>, Tone)> {
    line.map_values(|s: Segment| (s.text@, s.tone))
}

/// Lines as mathematical values.
pub open spec fn lines_view(lines: Seq<Vec<Segment>>) -> Seq<Seq<(Seq<char>, Tone)>> {
    lines.map_values(|l: Vec<Segment>| segments_view(l@))
}

/// A labelled line.
pub open spec fn field_line(label: Seq<char>, value: Seq<char>) -> Seq<(Seq<char>, Tone)> {
    seq![(label, Tone::Label), (value, Tone::Plain)]
}

/// An empty line.
pub open spec fn blank_line() -> Seq<(Seq<char>, Tone)> {
    seq![(Seq::<char>::empty(), Tone::Plain)]
}

/// The carrier shown in the details: the detected one for `auto`.
pub open spec fn carrier_detail(p: Parcel) -> Seq<char> {
    if p.carrier@ == "auto"@ {
        "Auto-detected ("@ + carrier_name(detected_carrier(p.tracking_number@)) + ")"@
    } else {
        p.carrier@
    }
}

/// The chrono formatting of an instant, empty when chrono cannot hold it.
pub open spec fn format_or_empty(t: crate::time::UtcTime, fmt: Seq<char>) -> Seq<char> {
    match crate::time::formatted(t.secs, t.nanos, fmt) {
        Some(s) => s,
        None => Seq::empty(),
    }
}

/// The closing part of the estimated-delivery line, `days` days away.
pub open spec fn days_note(days: int) -> (Seq<char>, Tone) {
    if days < 0 {
        (decimal((-days) as nat) + " days overdue)"@, Tone::Late)
    } else if days == 0 {
        ("today)"@, Tone::Soon)
    } else {
        ("in "@ + decimal(days as nat) + " days)"@, if days <= 2 { Tone::Soon } else { Tone::Good })
    }
}

/// The lines of the details view of a parcel, with estimates counted from `now`.
pub open spec fn details_lines(p: Parcel, bar_selected: bool, now: crate::time::UtcTime) -> Seq<Seq<(Seq<char>, Tone)>> {
    let head = seq![
        field_line("Tracking: "@, p.tracking_number@),
        field_line("Description: "@, p.description@),
        field_line("Carrier: "@, carrier_detail(p)),
        field_line("Waybar Selected: "@, if bar_selected { "Yes ★"@ } else { "No"@ }),
        blank_line(),
    ];
    match p.tracking_info {
        None => head.push(
            seq![("No tracking information available. Run 'parceltracker update' to fetch."@, Tone::Plain)],
        ),
        Some(info) => {
            let status = seq![
                seq![
                    ("Status: "@, Tone::Label),
                    (
                        state_emoji_of(p) + " "@ + crate::models::info_status_text(info),
                        if crate::models::info_delivered(info) { Tone::Good } else { Tone::Info },
                    ),
                ],
            ];
            let history = seq![blank_line(), seq![("Tracking History:"@, Tone::Label)], blank_line()];
            head + status + location_lines(info) + eta_lines(info, now) + updated_lines(p) + history + event_lines(info)
        },
    }
}

/// The current-location line, when there is a location.
pub open spec fn location_lines(info: crate::models::TrackingInfo) -> Seq<Seq<(Seq<char>, Tone)>> {
    match info.current_location {
        Some(l) => seq![field_line("Current Location: "@, l@)],
        None => seq![],
    }
}

/// The estimated-delivery line, when there is an estimate.
pub open spec fn eta_lines(info: crate::models::TrackingInfo, now: crate::time::UtcTime) -> Seq<Seq<(Seq<char>, Tone)>> {
    match info.estimated_delivery_date {
        Some(t) => seq![
            seq![
                ("Estimated Delivery: "@, Tone::Label),
                (format_or_empty(t, "%Y-%m-%d"@) + " ("@, Tone::Plain),
                days_note(crate::time::epoch_day(t.secs as int) - crate::time::epoch_day(now.secs as int)),
            ],
        ],
        None => seq![],
    }
}

/// The last-update line, when the parcel was updated.
pub open spec fn updated_lines(p: Parcel) -> Seq<Seq<(Seq<char>, Tone)>> {
    match p.last_updated {
        Some(t) => seq![field_line("Last Updated: "@, format_or_empty(t, "%Y-%m-%d %H:%M"@))],
        None => seq![],
    }
}

/// One line per event, in the stored order.
pub open spec fn event_lines(info: crate::models::TrackingInfo) -> Seq<Seq<(Seq<char>, Tone)>> {
    info.events@.map_values(
        |e: crate::models::TrackingEvent|
            seq![
                ("["@ + format_or_empty(e.date, "%Y-%m-%d %H:%M"@) + "] "@, Tone::Dim),
                (e.description@, Tone::Plain),
            ],
    )
}

/// The emoji of a parcel's state.
pub open spec fn state_emoji_of(p: Parcel) -> Seq<char> {
    crate::models::state_emoji(crate::models::parcel_state(p))
}

/// A segment.
fn segment(text: String, tone: Tone) -> (r: Segment)
    ensures
        r.text@ == text@,
        r.tone == tone,
{
    Segment { text, tone }
}

/// A labelled line.
fn field(label: &str, value: &str) -> (r: Vec<Segment>)
    ensures
        segments_view(r@) == field_line(label@, value@),
{
    let r = vec![segment(owned(label), Tone::Label), segment(owned(value), Tone::Plain)];
    assert(segments_view(r@) =~= field_line(label@, value@));
    r
}

/// An empty line.
fn blank() -> (r: Vec<Segment>)
    ensures
        segments_view(r@) == blank_line(),
{
    let r = vec![segment(String::new(), Tone::Plain)];
    assert(segments_view(r@) =~= blank_line());
    r
}

/// The chrono formatting of an instant, empty when chrono cannot hold it.
fn format_or_blank(t: crate::time::UtcTime, fmt: &str) -> (r: String)
    requires
        crate::time::known_format(fmt@),
    ensures
        r@ == format_or_empty(t, fmt@),
{
    match crate::time::format_instant(t, fmt) {
        Some(s) => s,
        None => String::new(),
    }
}

/// The closing part of the estimated-delivery line.
fn days_segment(days: i64) -> (r: Segment)
    requires
        days > i64::MIN,
    ensures
        (r.text@, r.tone) == days_note(days as int),
{
    if days < 0 {
        let n = crate::text::u128_decimal((-days) as u128);
        segment(crate::text::concat2(n.as_str(), " days overdue)"), Tone::Late)
    } else if days == 0 {
        segment(owned("today)"), Tone::Soon)
    } else {
        let n = crate::text::u128_decimal(days as u128);
        segment(crate::text::concat3("in ", n.as_str(), " days)"), if days <= 2 { Tone::Soon } else { Tone::Good })
    }
}

/// Appends `more` to `lines`.
fn append_lines(lines: &mut Vec<Vec<Segment>>, more: Vec<Vec<Segment>>)
    ensures
        lines_view(final(lines)@) == lines_view(old(lines)@) + lines_view(more@),
{
    let mut more = more;
    let ghost start = lines_view(lines@);
    let ghost add = lines_view(more@);
    lines.append(&mut more);
    assert(lines_view(lines@) =~= start + add);
}

impl App {
    /// The title of the details view.
    pub fn details_title(&self, i: usize) -> (r: String)
        requires
            i < self.parcels@.len(),
        ensures
            r@ == "Details: "@ + display_name_of(self.parcels@[i as int]),
    {
        let name = self.parcels[i].display_name();
        crate::text::concat2("Details: ", name.as_str())
    }

    /// The lines of the details view of parcel `i`, estimates counted from `now`.
    pub fn details(&self, i: usize, now: crate::time::UtcTime) -> (r: Vec<Vec<Segment>>)
        requires
            i < self.parcels@.len(),
        ensures
            lines_view(r@) == details_lines(
                self.parcels@[i as int],
                self.selected_id matches Some(id) && id@ == self.parcels@[i as int].id@,
                now,
            ),
    {
        let p = &self.parcels[i];
        let bar_selected = match &self.selected_id {
            Some(id) => crate::text::str_eq(id.as_str(), p.id.as_str()),
            None => false,
        };
        let mut lines = head_lines(p, bar_selected);
        match &p.tracking_info {
            None => {
                let last = vec![segment(
                    owned("No tracking information available. Run 'parceltracker update' to fetch."),
                    Tone::Plain,
                )];
                let ghost lv = segments_view(last@);
                assert(lv =~= seq![("No tracking information available. Run 'parceltracker update' to fetch."@, Tone::Plain)]);
                let ghost before = lines_view(lines@);
                lines.push(last);
                assert(lines_view(lines@) =~= before.push(lv));
            },
            Some(info) => {
                append_lines(&mut lines, status_lines(p, info));
                append_lines(&mut lines, location_part(info));
                append_lines(&mut lines, eta_part(info, now));
                append_lines(&mut lines, updated_part(p));
                append_lines(&mut lines, history_heading());
                append_lines(&mut lines, event_part(info));
            },
        }
        lines
    }
}

/// The first lines of the details view.
fn head_lines(p: &Parcel, bar_selected: bool) -> (r: Vec<Vec<Segment>>)
    ensures
        lines_view(r@) == seq![
            field_line("Tracking: "@, p.tracking_number@),
            field_line("Description: "@, p.description@),
            field_line("Carrier: "@, carrier_detail(*p)),
            field_line("Waybar Selected: "@, if bar_selected { "Yes ★"@ } else { "No"@ }),
            blank_line(),
        ],
{
    let carrier = if crate::text::str_eq(p.carrier.as_str(), "auto") {
        crate::text::concat3("Auto-detected (", Carrier::detect(p.tracking_number.as_str()).name(), ")")
    } else {
        p.carrier.clone()
    };
    let r = vec![
        field("Tracking: ", p.tracking_number.as_str()),
        field("Description: ", p.description.as_str()),
        field("Carrier: ", carrier.as_str()),
        field("Waybar Selected: ", if bar_selected { "Yes ★" } else { "No" }),
        blank(),
    ];
    assert(lines_view(r@) =~= seq![
        field_line("Tracking: "@, p.tracking_number@),
        field_line("Description: "@, p.description@),
        field_line("Carrier: "@, carrier_detail(*p)),
        field_line("Waybar Selected: "@, if bar_selected { "Yes ★"@ } else { "No"@ }),
        blank_line(),
    ]);
    r
}

/// The status line of the details view.
fn status_lines(p: &Parcel, info: &crate::models::TrackingInfo) -> (r: Vec<Vec<Segment>>)
    requires
        p.tracking_info == Some(*info),
    ensures
        lines_view(r@) == seq![
            seq![
                ("Status: "@, Tone::Label),
                (
                    state_emoji_of(*p) + " "@ + crate::models::info_status_text(*info),
                    if crate::models::info_delivered(*info) { Tone::Good } else { Tone::Info },
                ),
            ],
        ],
{
    let text = info.status_text();
    let status_text = crate::text::concat3(p.status_emoji(), " ", text.as_str());
    let tone = if info.is_delivered() { Tone::Good } else { Tone::Info };
    let line = vec![segment(owned("Status: "), Tone::Label), segment(status_text, tone)];
    let r = vec![line];
    assert(segments_view(r@[0]@) =~= seq![
        ("Status: "@, Tone::Label),
        (
            state_emoji_of(*p) + " "@ + crate::models::info_status_text(*info),
            if crate::models::info_delivered(*info) { Tone::Good } else { Tone::Info },
        ),
    ]);
    assert(lines_view(r@) =~= seq![segments_view(r@[0]@)]);
    r
}

/// The current-location line, when there is a location.
fn location_part(info: &crate::models::TrackingInfo) -> (r: Vec<Vec<Segment>>)
    ensures
        lines_view(r@) == location_lines(*info),
{
    let mut r: Vec<Vec<Segment>> = Vec::new();
    if let Some(l) = &info.current_location {
        r.push(field("Current Location: ", l.as_str()));
    }
    assert(lines_view(r@) =~= location_lines(*info));
    r
}

/// The estimated-delivery line, when there is an estimate.
fn eta_part(info: &crate::models::TrackingInfo, now: crate::time::UtcTime) -> (r: Vec<Vec<Segment>>)
    ensures
        lines_view(r@) == eta_lines(*info, now),
{
    let mut r: Vec<Vec<Segment>> = Vec::new();
    if let Some(t) = info.estimated_delivery_date {
        let date = format_or_blank(t, "%Y-%m-%d");
        let d1 = crate::time::day_of(t.secs);
        let d2 = crate::time::day_of(now.secs);
        assert(-106751991167301 <= d1 <= 106751991167300) by (nonlinear_arith)
            requires
                d1 as int == (t.secs as int) / 86400,
        ;
        assert(-106751991167301 <= d2 <= 106751991167300) by (nonlinear_arith)
            requires
                d2 as int == (now.secs as int) / 86400,
        ;
        let days = d1 - d2;
        let line = vec![
            segment(owned("Estimated Delivery: "), Tone::Label),
            segment(crate::text::concat2(date.as_str(), " ("), Tone::Plain),
            days_segment(days),
        ];
        assert(segments_view(line@) =~= eta_lines(*info, now)[0]);
        r.push(line);
    }
    assert(lines_view(r@) =~= eta_lines(*info, now));
    r
}

/// The last-update line, when the parcel was updated.
fn updated_part(p: &Parcel) -> (r: Vec<Vec<Segment>>)
    ensures
        lines_view(r@) == updated_lines(*p),
{
    let mut r: Vec<Vec<Segment>> = Vec::new();
    if let Some(t) = p.last_updated {
        let when = format_or_blank(t, "%Y-%m-%d %H:%M");
        r.push(field("Last Updated: ", when.as_str()));
    }
    assert(lines_view(r@) =~= updated_lines(*p));
    r
}

/// The heading of the history.
fn history_heading() -> (r: Vec<Vec<Segment>>)
    ensures
        lines_view(r@) == seq![blank_line(), seq![("Tracking History:"@, Tone::Label)], blank_line()],
{
    let heading = vec![segment(owned("Tracking History:"), Tone::Label)];
    assert(segments_view(heading@) =~= seq![("Tracking History:"@, Tone::Label)]);
    let r = vec![blank(), heading, blank()];
    assert(lines_view(r@) =~= seq![blank_line(), seq![("Tracking History:"@, Tone::Label)], blank_line()]);
    r
}

/// One line per event, in the stored order.
fn event_part(info: &crate::models::TrackingInfo) -> (r: Vec<Vec<Segment>>)
    ensures
        lines_view(r@) == event_lines(*info),
{
    let ghost events = event_lines(*info);
    let mut r: Vec<Vec<Segment>> = Vec::new();
    let mut k: usize = 0;
    while k < info.events.len()
        invariant
            k <= info.events@.len(),
            events == event_lines(*info),
            lines_view(r@) =~= events.subrange(0, k as int),
        decreases info.events.len() - k,
    {
        let e = &info.events[k];
        let when = format_or_blank(e.date, "%Y-%m-%d %H:%M");
        let line = vec![
            segment(crate::text::concat3("[", when.as_str(), "] "), Tone::Dim),
            segment(e.description.clone(), Tone::Plain),
        ];
        assert(segments_view(line@) =~= events[k as int]);
        let ghost before = r@;
        r.push(line);
        assert(lines_view(r@) =~= lines_view(before).push(events[k as int]));
        k = k + 1;
    }
    assert(events.subrange(0, info.events@.len() as int) =~= events);
    r
}

} // verus!
