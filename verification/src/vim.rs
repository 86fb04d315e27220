//! Vim-style modal key handling for the chat composer: the editing mode, the
//! keys that wait for a second key (`g`, an operator, a find), and the action
//! that each key event asks the composer to perform.
use vstd::prelude::*;

use crate::keys::{KeyCode, KeyEvent, KeyEventKind, KeyModifiers, SHIFT_BIT};
use crate::textarea::{
    byte_offset, char_left, char_right, first_non_blank, lemma_byte_offset_ends,
    lemma_floor_index_of_offset, line_down, line_end, line_start, line_up, min_int, next_word_end,
    next_word_start, previous_word_start, TextArea, TextAreaView,
};

verus! {

/// How the composer is configured to edit text.
#[derive(Clone, Copy, Debug, PartialEq, Eq, Structural)]
pub enum TuiEditorMode {
    Default,
    Vim,
}

#[derive(Clone, Copy, Debug, PartialEq, Eq, Structural)]
pub enum VimEditingMode {
    Insert,
    Normal,
}

#[derive(Clone, Copy, Debug, PartialEq, Eq, Structural)]
pub enum VimOperator {
    Delete,
    Change,
    Yank,
}

/// A character search within the current line: `f`, `F`, `t` or `T`.
#[derive(Clone, Copy, Debug, PartialEq, Eq, Structural)]
pub struct VimFindMotion {
    pub ch: char,
    pub forward: bool,
    pub till: bool,
}

#[derive(Clone, Copy, Debug, PartialEq, Eq, Structural)]
pub enum VimMotion {
    Left,
    Right,
    Up,
    Down,
    NextWordStart,
    NextWordEnd,
    PrevWord,
    LineStart,
    LineEnd,
    FirstNonBlank,
    InputStart,
    InputEnd,
    Find(VimFindMotion),
}

/// A key that waits for the next key to complete it.
#[derive(Clone, Copy, Debug, PartialEq, Eq, Structural)]
pub enum Pending {
    G,
    Operator(VimOperator),
    Find { forward: bool, till: bool },
}

#[derive(Clone, Copy, Debug, PartialEq, Eq, Structural)]
pub enum VimKeyAction {
    NoOp,
    SwitchToNormal,
    SwitchToInsert,
    InsertAtLineStart,
    Append,
    AppendAtLineEnd,
    OpenBelow,
    OpenAbove,
    Submit,
    Queue,
    Move(VimMotion),
    DeleteChar,
    DeleteMotion(VimMotion),
    DeleteLine,
    DeleteToEndOfLine,
    ChangeMotion(VimMotion),
    ChangeLine,
    ChangeToEndOfLine,
    YankMotion(VimMotion),
    YankLine,
    PasteAfter,
    PasteBefore,
}

/// The colour in which the mode indicator is drawn.
#[derive(Clone, Copy, Debug, PartialEq, Eq, Structural)]
pub enum ModeLineColor {
    Green,
    Cyan,
}

/// The mode indicator: its text, drawn bold in its colour.
#[derive(Clone, Copy, Debug)]
pub struct ModeLine {
    pub label: &'static str,
    pub color: ModeLineColor,
}

/// The state of the vim key handling, as a plain value.
pub struct VimStateView {
    pub enabled: bool,
    pub mode: VimEditingMode,
    pub pending: Option<Pending>,
    pub last_find: Option<VimFindMotion>,
}

#[derive(Clone, Copy, Debug, PartialEq, Eq)]
pub struct VimState {
    enabled: bool,
    mode: VimEditingMode,
    pending: Option<Pending>,
    last_find: Option<VimFindMotion>,
}

impl View for VimState {
    type V = VimStateView;

    closed spec fn view(&self) -> VimStateView {
        VimStateView {
            enabled: self.enabled,
            mode: self.mode,
            pending: self.pending,
            last_find: self.last_find,
        }
    }
}

// ---------------------------------------------------------------------------
// What each key does, as tables over key events.
// ---------------------------------------------------------------------------

/// The motion that a key names after an operator (`d`, `c`, `y`).
pub open spec fn operator_motion(k: KeyEvent) -> Option<VimMotion> {
    if k.is_plain(KeyCode::Char('h')) {
        Some(VimMotion::Left)
    } else if k.is_plain(KeyCode::Char('j')) {
        Some(VimMotion::Down)
    } else if k.is_plain(KeyCode::Char('k')) {
        Some(VimMotion::Up)
    } else if k.is_plain(KeyCode::Char('l')) {
        Some(VimMotion::Right)
    } else if k.is_plain(KeyCode::Char('w')) {
        Some(VimMotion::NextWordStart)
    } else if k.is_plain(KeyCode::Char('e')) {
        Some(VimMotion::NextWordEnd)
    } else if k.is_plain(KeyCode::Char('b')) {
        Some(VimMotion::PrevWord)
    } else if k.is_plain(KeyCode::Char('0')) {
        Some(VimMotion::LineStart)
    } else if k.is_shifted(KeyCode::Char('$')) {
        Some(VimMotion::LineEnd)
    } else if k.is_shifted(KeyCode::Char('^')) {
        Some(VimMotion::FirstNonBlank)
    } else if k.is_plain(KeyCode::Char('g')) {
        Some(VimMotion::InputStart)
    } else if k.is_shifted(KeyCode::Char('G')) {
        Some(VimMotion::InputEnd)
    } else {
        None
    }
}

/// The motion that a key names on its own in normal mode.
pub open spec fn normal_motion(k: KeyEvent) -> Option<VimMotion> {
    if k.is_plain(KeyCode::Char('h')) || k.is_plain(KeyCode::Left) {
        Some(VimMotion::Left)
    } else if k.is_plain(KeyCode::Char('j')) || k.is_plain(KeyCode::Down) {
        Some(VimMotion::Down)
    } else if k.is_plain(KeyCode::Char('k')) || k.is_plain(KeyCode::Up) {
        Some(VimMotion::Up)
    } else if k.is_plain(KeyCode::Char('l')) || k.is_plain(KeyCode::Right) {
        Some(VimMotion::Right)
    } else if k.is_plain(KeyCode::Char('w')) {
        Some(VimMotion::NextWordStart)
    } else if k.is_plain(KeyCode::Char('e')) {
        Some(VimMotion::NextWordEnd)
    } else if k.is_plain(KeyCode::Char('b')) {
        Some(VimMotion::PrevWord)
    } else if k.is_plain(KeyCode::Char('0')) || k.is_plain(KeyCode::Home) {
        Some(VimMotion::LineStart)
    } else if k.is_shifted(KeyCode::Char('$')) || k.is_plain(KeyCode::End) {
        Some(VimMotion::LineEnd)
    } else if k.is_shifted(KeyCode::Char('^')) {
        Some(VimMotion::FirstNonBlank)
    } else if k.is_shifted(KeyCode::Char('G')) {
        Some(VimMotion::InputEnd)
    } else {
        None
    }
}

/// The key that enters insert mode, with the action it asks for.
pub open spec fn insert_entry(k: KeyEvent) -> Option<VimKeyAction> {
    if k.is_plain(KeyCode::Char('i')) {
        Some(VimKeyAction::SwitchToInsert)
    } else if k.is_shifted(KeyCode::Char('I')) {
        Some(VimKeyAction::InsertAtLineStart)
    } else if k.is_plain(KeyCode::Char('a')) {
        Some(VimKeyAction::Append)
    } else if k.is_shifted(KeyCode::Char('A')) {
        Some(VimKeyAction::AppendAtLineEnd)
    } else if k.is_plain(KeyCode::Char('o')) {
        Some(VimKeyAction::OpenBelow)
    } else if k.is_shifted(KeyCode::Char('O')) {
        Some(VimKeyAction::OpenAbove)
    } else if k.is_shifted(KeyCode::Char('C')) {
        Some(VimKeyAction::ChangeToEndOfLine)
    } else {
        None
    }
}

/// The key that starts a two-key command, with what it waits for.
pub open spec fn pending_entry(k: KeyEvent) -> Option<Pending> {
    if k.is_plain(KeyCode::Char('g')) {
        Some(Pending::G)
    } else if k.is_plain(KeyCode::Char('d')) {
        Some(Pending::Operator(VimOperator::Delete))
    } else if k.is_plain(KeyCode::Char('c')) {
        Some(Pending::Operator(VimOperator::Change))
    } else if k.is_plain(KeyCode::Char('y')) {
        Some(Pending::Operator(VimOperator::Yank))
    } else if k.is_plain(KeyCode::Char('f')) {
        Some(Pending::Find { forward: true, till: false })
    } else if k.is_shifted(KeyCode::Char('F')) {
        Some(Pending::Find { forward: false, till: false })
    } else if k.is_plain(KeyCode::Char('t')) {
        Some(Pending::Find { forward: true, till: true })
    } else if k.is_shifted(KeyCode::Char('T')) {
        Some(Pending::Find { forward: false, till: true })
    } else {
        None
    }
}

/// The one-key command that neither moves, enters insert mode nor waits.
pub open spec fn simple_command(k: KeyEvent) -> Option<VimKeyAction> {
    if k.is_plain(KeyCode::Enter) {
        Some(VimKeyAction::Submit)
    } else if k.is_plain(KeyCode::Tab) {
        Some(VimKeyAction::Queue)
    } else if k.is_plain(KeyCode::Char('x')) {
        Some(VimKeyAction::DeleteChar)
    } else if k.is_shifted(KeyCode::Char('D')) {
        Some(VimKeyAction::DeleteToEndOfLine)
    } else if k.is_shifted(KeyCode::Char('Y')) {
        Some(VimKeyAction::YankLine)
    } else if k.is_plain(KeyCode::Char('p')) {
        Some(VimKeyAction::PasteAfter)
    } else if k.is_shifted(KeyCode::Char('P')) {
        Some(VimKeyAction::PasteBefore)
    } else {
        None
    }
}

/// The same search in the other direction.
pub open spec fn reversed(find: VimFindMotion) -> VimFindMotion {
    VimFindMotion { forward: !find.forward, ..find }
}

/// What `;` and `,` ask for: the last search, the second in reverse.
pub open spec fn repeat_find(last_find: Option<VimFindMotion>, reverse: bool) -> VimKeyAction {
    match last_find {
        Some(find) => VimKeyAction::Move(
            VimMotion::Find(
                if reverse {
                    reversed(find)
                } else {
                    find
                },
            ),
        ),
        None => VimKeyAction::NoOp,
    }
}

/// A plain `Esc`.
pub open spec fn is_escape(k: KeyEvent) -> bool {
    k.is_plain(KeyCode::Esc)
}

/// A key in normal mode with nothing pending.
pub open spec fn normal_step(s: VimStateView, k: KeyEvent) -> (VimStateView, VimKeyAction) {
    if let Some(action) = simple_command(k) {
        (s, action)
    } else if let Some(action) = insert_entry(k) {
        (VimStateView { mode: VimEditingMode::Insert, ..s }, action)
    } else if let Some(motion) = normal_motion(k) {
        (s, VimKeyAction::Move(motion))
    } else if let Some(p) = pending_entry(k) {
        (VimStateView { pending: Some(p), ..s }, VimKeyAction::NoOp)
    } else if k.is_plain(KeyCode::Char(';')) {
        (s, repeat_find(s.last_find, false))
    } else if k.is_plain(KeyCode::Char(',')) {
        (s, repeat_find(s.last_find, true))
    } else {
        (s, VimKeyAction::NoOp)
    }
}

/// The key that, typed twice, applies an operator to the whole line.
pub open spec fn operator_key(op: VimOperator) -> char {
    match op {
        VimOperator::Delete => 'd',
        VimOperator::Change => 'c',
        VimOperator::Yank => 'y',
    }
}

/// A key after an operator, with the pending operator already cleared.
pub open spec fn operator_step(s: VimStateView, op: VimOperator, k: KeyEvent) -> (
    VimStateView,
    VimKeyAction,
) {
    if k.is_plain(KeyCode::Char(operator_key(op))) {
        match op {
            VimOperator::Delete => (s, VimKeyAction::DeleteLine),
            VimOperator::Change => (
                VimStateView { mode: VimEditingMode::Insert, ..s },
                VimKeyAction::ChangeLine,
            ),
            VimOperator::Yank => (s, VimKeyAction::YankLine),
        }
    } else {
        match operator_motion(k) {
            None => (s, VimKeyAction::NoOp),
            Some(m) => match op {
                VimOperator::Delete => (s, VimKeyAction::DeleteMotion(m)),
                VimOperator::Change => (
                    VimStateView { mode: VimEditingMode::Insert, ..s },
                    VimKeyAction::ChangeMotion(m),
                ),
                VimOperator::Yank => (s, VimKeyAction::YankMotion(m)),
            },
        }
    }
}

/// A key that completes a pending command, with the pending key already cleared.
pub open spec fn pending_step(s: VimStateView, p: Pending, k: KeyEvent) -> (
    VimStateView,
    VimKeyAction,
) {
    match p {
        Pending::G => if k.is_plain(KeyCode::Char('g')) {
            (s, VimKeyAction::Move(VimMotion::InputStart))
        } else {
            (s, VimKeyAction::NoOp)
        },
        Pending::Operator(op) => operator_step(s, op, k),
        Pending::Find { forward, till } => match k.code {
            KeyCode::Char(ch) => if k.modifiers.is_none() || k.modifiers.is_shift() {
                let motion = VimFindMotion { ch, forward, till };
                (
                    VimStateView { last_find: Some(motion), ..s },
                    VimKeyAction::Move(VimMotion::Find(motion)),
                )
            } else {
                (s, VimKeyAction::NoOp)
            },
            _ => (s, VimKeyAction::NoOp),
        },
    }
}

/// A key in normal mode.
pub open spec fn normal_mode_step(s: VimStateView, k: KeyEvent) -> (VimStateView, VimKeyAction) {
    if is_escape(k) {
        (VimStateView { pending: None, ..s }, VimKeyAction::NoOp)
    } else {
        match s.pending {
            Some(p) => pending_step(VimStateView { pending: None, ..s }, p, k),
            None => normal_step(s, k),
        }
    }
}

/// A key in insert mode.
pub open spec fn insert_mode_step(s: VimStateView, k: KeyEvent) -> (
    VimStateView,
    Option<VimKeyAction>,
) {
    if is_escape(k) {
        (
            VimStateView { mode: VimEditingMode::Normal, pending: None, ..s },
            Some(VimKeyAction::SwitchToNormal),
        )
    } else {
        (s, None)
    }
}

/// What one key event does to the state, and the action it asks for.
pub open spec fn step(s: VimStateView, k: KeyEvent) -> (VimStateView, Option<VimKeyAction>) {
    if !s.enabled || k.kind == KeyEventKind::Release {
        (s, None)
    } else {
        match s.mode {
            VimEditingMode::Insert => insert_mode_step(s, k),
            VimEditingMode::Normal => {
                let (s2, action) = normal_mode_step(s, k);
                (s2, Some(action))
            },
        }
    }
}

/// A state that can arise: nothing waits for a key in insert mode.
pub open spec fn well_formed(s: VimStateView) -> bool {
    s.mode == VimEditingMode::Insert ==> s.pending is None
}

impl VimState {
    pub fn new(editor_mode: TuiEditorMode) -> (s: Self)
        ensures
            s@ == (VimStateView {
                enabled: editor_mode == TuiEditorMode::Vim,
                mode: VimEditingMode::Insert,
                pending: None,
                last_find: None,
            }),
    {
        let enabled = matches!(editor_mode, TuiEditorMode::Vim);
        VimState { enabled, mode: VimEditingMode::Insert, pending: None, last_find: None }
    }

    /// The mode indicator to show: none unless vim editing is on.
    pub fn mode_line(self) -> (line: Option<ModeLine>)
        ensures
            line is None <==> !self@.enabled,
            line matches Some(l) ==> (match self@.mode {
                VimEditingMode::Insert => l.label@ == "INSERT"@ && l.color == ModeLineColor::Green,
                VimEditingMode::Normal => l.label@ == "NORMAL"@ && l.color == ModeLineColor::Cyan,
            }),
    {
        if !self.enabled {
            return None;
        }
        Some(
            match self.mode {
                VimEditingMode::Insert => ModeLine { label: "INSERT", color: ModeLineColor::Green },
                VimEditingMode::Normal => ModeLine { label: "NORMAL", color: ModeLineColor::Cyan },
            },
        )
    }

    /// Handles one key event: `None` when vim editing is off, the event is a
    /// release, or insert mode lets the key through to the text.
    pub fn handle_key(&mut self, key_event: KeyEvent) -> (action: Option<VimKeyAction>)
        ensures
            (final(self)@, action) == step(old(self)@, key_event),
    {
        if !self.enabled || !matches!(key_event.kind, KeyEventKind::Press | KeyEventKind::Repeat) {
            return None;
        }
        match self.mode {
            VimEditingMode::Insert => self.handle_insert_key(key_event),
            VimEditingMode::Normal => Some(self.handle_normal_key(key_event)),
        }
    }

    fn handle_insert_key(&mut self, key_event: KeyEvent) -> (action: Option<VimKeyAction>)
        ensures
            (final(self)@, action) == insert_mode_step(old(self)@, key_event),
    {
        if key_event.modifiers.bits == 0 && key_event.code == KeyCode::Esc {
            self.mode = VimEditingMode::Normal;
            self.pending = None;
            return Some(VimKeyAction::SwitchToNormal);
        }
        None
    }

    fn handle_normal_key(&mut self, key_event: KeyEvent) -> (action: VimKeyAction)
        ensures
            (final(self)@, action) == normal_mode_step(old(self)@, key_event),
    {
        if key_event.modifiers.bits == 0 && key_event.code == KeyCode::Esc {
            self.pending = None;
            return VimKeyAction::NoOp;
        }
        if let Some(pending) = self.pending.take() {
            return self.handle_pending_key(pending, key_event);
        }
        match key_event {
            KeyEvent { code: KeyCode::Enter, modifiers: KeyModifiers { bits: 0 }, .. } => {
                VimKeyAction::Submit
            },
            KeyEvent { code: KeyCode::Tab, modifiers: KeyModifiers { bits: 0 }, .. } => {
                VimKeyAction::Queue
            },
            KeyEvent { code: KeyCode::Char('i'), modifiers: KeyModifiers { bits: 0 }, .. } => {
                self.mode = VimEditingMode::Insert;
                VimKeyAction::SwitchToInsert
            },
            KeyEvent { code: KeyCode::Char('I'), modifiers: KeyModifiers { bits: SHIFT_BIT }, .. } => {
                self.mode = VimEditingMode::Insert;
                VimKeyAction::InsertAtLineStart
            },
            KeyEvent { code: KeyCode::Char('a'), modifiers: KeyModifiers { bits: 0 }, .. } => {
                self.mode = VimEditingMode::Insert;
                VimKeyAction::Append
            },
            KeyEvent { code: KeyCode::Char('A'), modifiers: KeyModifiers { bits: SHIFT_BIT }, .. } => {
                self.mode = VimEditingMode::Insert;
                VimKeyAction::AppendAtLineEnd
            },
            KeyEvent { code: KeyCode::Char('o'), modifiers: KeyModifiers { bits: 0 }, .. } => {
                self.mode = VimEditingMode::Insert;
                VimKeyAction::OpenBelow
            },
            KeyEvent { code: KeyCode::Char('O'), modifiers: KeyModifiers { bits: SHIFT_BIT }, .. } => {
                self.mode = VimEditingMode::Insert;
                VimKeyAction::OpenAbove
            },
            KeyEvent { code: KeyCode::Char('h'), modifiers: KeyModifiers { bits: 0 }, .. }
            | KeyEvent { code: KeyCode::Left, modifiers: KeyModifiers { bits: 0 }, .. } => {
                VimKeyAction::Move(VimMotion::Left)
            },
            KeyEvent { code: KeyCode::Char('j'), modifiers: KeyModifiers { bits: 0 }, .. }
            | KeyEvent { code: KeyCode::Down, modifiers: KeyModifiers { bits: 0 }, .. } => {
                VimKeyAction::Move(VimMotion::Down)
            },
            KeyEvent { code: KeyCode::Char('k'), modifiers: KeyModifiers { bits: 0 }, .. }
            | KeyEvent { code: KeyCode::Up, modifiers: KeyModifiers { bits: 0 }, .. } => {
                VimKeyAction::Move(VimMotion::Up)
            },
            KeyEvent { code: KeyCode::Char('l'), modifiers: KeyModifiers { bits: 0 }, .. }
            | KeyEvent { code: KeyCode::Right, modifiers: KeyModifiers { bits: 0 }, .. } => {
                VimKeyAction::Move(VimMotion::Right)
            },
            KeyEvent { code: KeyCode::Char('w'), modifiers: KeyModifiers { bits: 0 }, .. } => {
                VimKeyAction::Move(VimMotion::NextWordStart)
            },
            KeyEvent { code: KeyCode::Char('e'), modifiers: KeyModifiers { bits: 0 }, .. } => {
                VimKeyAction::Move(VimMotion::NextWordEnd)
            },
            KeyEvent { code: KeyCode::Char('b'), modifiers: KeyModifiers { bits: 0 }, .. } => {
                VimKeyAction::Move(VimMotion::PrevWord)
            },
            KeyEvent { code: KeyCode::Char('0'), modifiers: KeyModifiers { bits: 0 }, .. }
            | KeyEvent { code: KeyCode::Home, modifiers: KeyModifiers { bits: 0 }, .. } => {
                VimKeyAction::Move(VimMotion::LineStart)
            },
            KeyEvent { code: KeyCode::Char('$'), modifiers: KeyModifiers { bits: SHIFT_BIT }, .. }
            | KeyEvent { code: KeyCode::End, modifiers: KeyModifiers { bits: 0 }, .. } => {
                VimKeyAction::Move(VimMotion::LineEnd)
            },
            KeyEvent { code: KeyCode::Char('^'), modifiers: KeyModifiers { bits: SHIFT_BIT }, .. } => {
                VimKeyAction::Move(VimMotion::FirstNonBlank)
            },
            KeyEvent { code: KeyCode::Char('G'), modifiers: KeyModifiers { bits: SHIFT_BIT }, .. } => {
                VimKeyAction::Move(VimMotion::InputEnd)
            },
            KeyEvent { code: KeyCode::Char('g'), modifiers: KeyModifiers { bits: 0 }, .. } => {
                self.pending = Some(Pending::G);
                VimKeyAction::NoOp
            },
            KeyEvent { code: KeyCode::Char('x'), modifiers: KeyModifiers { bits: 0 }, .. } => {
                VimKeyAction::DeleteChar
            },
            KeyEvent { code: KeyCode::Char('D'), modifiers: KeyModifiers { bits: SHIFT_BIT }, .. } => {
                VimKeyAction::DeleteToEndOfLine
            },
            KeyEvent { code: KeyCode::Char('C'), modifiers: KeyModifiers { bits: SHIFT_BIT }, .. } => {
                self.mode = VimEditingMode::Insert;
                VimKeyAction::ChangeToEndOfLine
            },
            KeyEvent { code: KeyCode::Char('Y'), modifiers: KeyModifiers { bits: SHIFT_BIT }, .. } => {
                VimKeyAction::YankLine
            },
            KeyEvent { code: KeyCode::Char('d'), modifiers: KeyModifiers { bits: 0 }, .. } => {
                self.pending = Some(Pending::Operator(VimOperator::Delete));
                VimKeyAction::NoOp
            },
            KeyEvent { code: KeyCode::Char('c'), modifiers: KeyModifiers { bits: 0 }, .. } => {
                self.pending = Some(Pending::Operator(VimOperator::Change));
                VimKeyAction::NoOp
            },
            KeyEvent { code: KeyCode::Char('y'), modifiers: KeyModifiers { bits: 0 }, .. } => {
                self.pending = Some(Pending::Operator(VimOperator::Yank));
                VimKeyAction::NoOp
            },
            KeyEvent { code: KeyCode::Char('p'), modifiers: KeyModifiers { bits: 0 }, .. } => {
                VimKeyAction::PasteAfter
            },
            KeyEvent { code: KeyCode::Char('P'), modifiers: KeyModifiers { bits: SHIFT_BIT }, .. } => {
                VimKeyAction::PasteBefore
            },
            KeyEvent { code: KeyCode::Char('f'), modifiers: KeyModifiers { bits: 0 }, .. } => {
                self.pending = Some(Pending::Find { forward: true, till: false });
                VimKeyAction::NoOp
            },
            KeyEvent { code: KeyCode::Char('F'), modifiers: KeyModifiers { bits: SHIFT_BIT }, .. } => {
                self.pending = Some(Pending::Find { forward: false, till: false });
                VimKeyAction::NoOp
            },
            KeyEvent { code: KeyCode::Char('t'), modifiers: KeyModifiers { bits: 0 }, .. } => {
                self.pending = Some(Pending::Find { forward: true, till: true });
                VimKeyAction::NoOp
            },
            KeyEvent { code: KeyCode::Char('T'), modifiers: KeyModifiers { bits: SHIFT_BIT }, .. } => {
                self.pending = Some(Pending::Find { forward: false, till: true });
                VimKeyAction::NoOp
            },
            KeyEvent { code: KeyCode::Char(';'), modifiers: KeyModifiers { bits: 0 }, .. } => {
                match self.last_find {
                    Some(find) => VimKeyAction::Move(VimMotion::Find(find)),
                    None => VimKeyAction::NoOp,
                }
            },
            KeyEvent { code: KeyCode::Char(','), modifiers: KeyModifiers { bits: 0 }, .. } => {
                match self.last_find {
                    Some(find) => VimKeyAction::Move(
                        VimMotion::Find(VimFindMotion { forward: !find.forward, ..find }),
                    ),
                    None => VimKeyAction::NoOp,
                }
            },
            _ => VimKeyAction::NoOp,
        }
    }

    fn handle_pending_key(&mut self, pending: Pending, key_event: KeyEvent) -> (action:
        VimKeyAction)
        ensures
            (final(self)@, action) == pending_step(old(self)@, pending, key_event),
    {
        match pending {
            Pending::G => match key_event {
                KeyEvent { code: KeyCode::Char('g'), modifiers: KeyModifiers { bits: 0 }, .. } => {
                    VimKeyAction::Move(VimMotion::InputStart)
                },
                _ => VimKeyAction::NoOp,
            },
            Pending::Operator(operator) => self.handle_operator_key(operator, key_event),
            Pending::Find { forward, till } => match key_event {
                KeyEvent { code: KeyCode::Char(ch), modifiers: KeyModifiers { bits: 0 }, .. }
                | KeyEvent { code: KeyCode::Char(ch), modifiers: KeyModifiers { bits: SHIFT_BIT }, .. } => {
                    let motion = VimFindMotion { ch, forward, till };
                    self.last_find = Some(motion);
                    VimKeyAction::Move(VimMotion::Find(motion))
                },
                _ => VimKeyAction::NoOp,
            },
        }
    }

    fn handle_operator_key(&mut self, operator: VimOperator, key_event: KeyEvent) -> (action:
        VimKeyAction)
        ensures
            (final(self)@, action) == operator_step(old(self)@, operator, key_event),
    {
        match key_event {
            KeyEvent { code: KeyCode::Char('d'), modifiers: KeyModifiers { bits: 0 }, .. } if matches!(
                operator,
                VimOperator::Delete
            ) => VimKeyAction::DeleteLine,
            KeyEvent { code: KeyCode::Char('c'), modifiers: KeyModifiers { bits: 0 }, .. } if matches!(
                operator,
                VimOperator::Change
            ) => {
                self.mode = VimEditingMode::Insert;
                VimKeyAction::ChangeLine
            },
            KeyEvent { code: KeyCode::Char('y'), modifiers: KeyModifiers { bits: 0 }, .. } if matches!(
                operator,
                VimOperator::Yank
            ) => VimKeyAction::YankLine,
            _ => {
                let motion = match Self::motion_for_key(key_event) {
                    Some(motion) => motion,
                    None => {
                        return VimKeyAction::NoOp;
                    },
                };
                match operator {
                    VimOperator::Delete => VimKeyAction::DeleteMotion(motion),
                    VimOperator::Change => {
                        self.mode = VimEditingMode::Insert;
                        VimKeyAction::ChangeMotion(motion)
                    },
                    VimOperator::Yank => VimKeyAction::YankMotion(motion),
                }
            },
        }
    }

    /// The motion that a key names after an operator.
    pub fn motion_for_key(key_event: KeyEvent) -> (motion: Option<VimMotion>)
        ensures
            motion == operator_motion(key_event),
    {
        match key_event {
            KeyEvent { code: KeyCode::Char('h'), modifiers: KeyModifiers { bits: 0 }, .. } => Some(
                VimMotion::Left,
            ),
            KeyEvent { code: KeyCode::Char('j'), modifiers: KeyModifiers { bits: 0 }, .. } => Some(
                VimMotion::Down,
            ),
            KeyEvent { code: KeyCode::Char('k'), modifiers: KeyModifiers { bits: 0 }, .. } => Some(
                VimMotion::Up,
            ),
            KeyEvent { code: KeyCode::Char('l'), modifiers: KeyModifiers { bits: 0 }, .. } => Some(
                VimMotion::Right,
            ),
            KeyEvent { code: KeyCode::Char('w'), modifiers: KeyModifiers { bits: 0 }, .. } => Some(
                VimMotion::NextWordStart,
            ),
            KeyEvent { code: KeyCode::Char('e'), modifiers: KeyModifiers { bits: 0 }, .. } => Some(
                VimMotion::NextWordEnd,
            ),
            KeyEvent { code: KeyCode::Char('b'), modifiers: KeyModifiers { bits: 0 }, .. } => Some(
                VimMotion::PrevWord,
            ),
            KeyEvent { code: KeyCode::Char('0'), modifiers: KeyModifiers { bits: 0 }, .. } => Some(
                VimMotion::LineStart,
            ),
            KeyEvent { code: KeyCode::Char('$'), modifiers: KeyModifiers { bits: SHIFT_BIT }, .. } => Some(
                VimMotion::LineEnd,
            ),
            KeyEvent { code: KeyCode::Char('^'), modifiers: KeyModifiers { bits: SHIFT_BIT }, .. } => Some(
                VimMotion::FirstNonBlank,
            ),
            KeyEvent { code: KeyCode::Char('g'), modifiers: KeyModifiers { bits: 0 }, .. } => Some(
                VimMotion::InputStart,
            ),
            KeyEvent { code: KeyCode::Char('G'), modifiers: KeyModifiers { bits: SHIFT_BIT }, .. } => Some(
                VimMotion::InputEnd,
            ),
            _ => None,
        }
    }
}

} // verus!

verus! {

// ---------------------------------------------------------------------------
// Laws of the key handling.
// ---------------------------------------------------------------------------

/// A fresh state is well formed, and every key keeps it so: nothing is ever
/// left waiting for a key while in insert mode.
pub proof fn step_preserves_well_formed(s: VimStateView, k: KeyEvent)
    requires
        well_formed(s),
    ensures
        well_formed(step(s, k).0),
{
}

/// A fresh state is well formed.
pub proof fn initial_state_well_formed(editor_mode: TuiEditorMode)
    ensures
        well_formed(
            VimStateView {
                enabled: editor_mode == TuiEditorMode::Vim,
                mode: VimEditingMode::Insert,
                pending: None,
                last_find: None,
            },
        ),
{
}

/// With vim editing off, every key passes through and nothing changes.
pub proof fn disabled_ignores_keys(s: VimStateView, k: KeyEvent)
    requires
        !s.enabled,
    ensures
        step(s, k) == (s, None::<VimKeyAction>),
{
}

/// Key releases pass through and change nothing.
pub proof fn release_ignored(s: VimStateView, k: KeyEvent)
    requires
        k.kind == KeyEventKind::Release,
    ensures
        step(s, k) == (s, None::<VimKeyAction>),
{
}

/// No key turns vim editing on or off.
pub proof fn enabled_never_changes(s: VimStateView, k: KeyEvent)
    ensures
        step(s, k).0.enabled == s.enabled,
{
}

/// In insert mode every key but a plain `Esc` goes to the text unchanged;
/// a plain `Esc` switches to normal mode with nothing pending.
pub proof fn insert_mode_only_escape(s: VimStateView, k: KeyEvent)
    requires
        s.enabled,
        s.mode == VimEditingMode::Insert,
        k.kind != KeyEventKind::Release,
    ensures
        !is_escape(k) ==> step(s, k) == (s, None::<VimKeyAction>),
        is_escape(k) ==> step(s, k) == (
            VimStateView { mode: VimEditingMode::Normal, pending: None, ..s },
            Some(VimKeyAction::SwitchToNormal),
        ),
{
}

/// In normal mode every pressed or repeated key is consumed: it yields an
/// action, though that may be `NoOp`.
pub proof fn normal_mode_consumes_keys(s: VimStateView, k: KeyEvent)
    requires
        s.enabled,
        s.mode == VimEditingMode::Normal,
        k.kind != KeyEventKind::Release,
    ensures
        step(s, k).1 is Some,
{
}

/// In normal mode a plain `Esc` cancels whatever was pending and does nothing else.
pub proof fn escape_cancels_pending(s: VimStateView, k: KeyEvent)
    requires
        s.enabled,
        s.mode == VimEditingMode::Normal,
        k.kind != KeyEventKind::Release,
        is_escape(k),
    ensures
        step(s, k) == (VimStateView { pending: None, ..s }, Some(VimKeyAction::NoOp)),
{
}

/// A pending key lasts for exactly one more key: after any key in normal
/// mode, what is pending is only what that key itself started.
pub proof fn pending_lasts_one_key(s: VimStateView, k: KeyEvent)
    requires
        s.enabled,
        s.mode == VimEditingMode::Normal,
        s.pending is Some,
        k.kind != KeyEventKind::Release,
    ensures
        step(s, k).0.pending is None,
{
}

/// Normal mode is left only for insert mode, and only by a key that enters
/// it (whose action it then reports) or by completing a change operator.
pub proof fn normal_mode_left_only_for_insert(s: VimStateView, k: KeyEvent)
    requires
        s.mode == VimEditingMode::Normal,
        step(s, k).0.mode != VimEditingMode::Normal,
    ensures
        step(s, k).0.mode == VimEditingMode::Insert,
        s.enabled,
        !is_escape(k),
        (s.pending is None && insert_entry(k) is Some && step(s, k).1 == Some(
            insert_entry(k)->0,
        )) || s.pending == Some(Pending::Operator(VimOperator::Change)),
{
}

/// The last search changes only when a find key is completed by a character,
/// and then it becomes that search.
pub proof fn last_find_changes_only_on_find(s: VimStateView, k: KeyEvent)
    requires
        step(s, k).0.last_find != s.last_find,
    ensures
        s.enabled,
        s.mode == VimEditingMode::Normal,
        !is_escape(k),
        s.pending matches Some(Pending::Find { forward, till }) && k.code matches KeyCode::Char(
            ch,
        ) && step(s, k).0.last_find == Some(VimFindMotion { ch, forward, till }),
{
}

/// After a search `f`/`F`/`t`/`T` followed by a character, `;` repeats the
/// search and `,` repeats it in the other direction.
pub proof fn repeat_last_find(
    s: VimStateView,
    forward: bool,
    till: bool,
    ch: char,
    k: KeyEvent,
    again: KeyEvent,
)
    requires
        s.enabled,
        s.mode == VimEditingMode::Normal,
        s.pending == Some(Pending::Find { forward, till }),
        k.code == KeyCode::Char(ch),
        k.modifiers.is_none() || k.modifiers.is_shift(),
        k.kind != KeyEventKind::Release,
        again.kind != KeyEventKind::Release,
    ensures
        ({
            let s1 = step(s, k).0;
            let find = VimFindMotion { ch, forward, till };
            &&& step(s, k).1 == Some(VimKeyAction::Move(VimMotion::Find(find)))
            &&& again.is_plain(KeyCode::Char(';')) ==> step(s1, again).1 == Some(
                VimKeyAction::Move(VimMotion::Find(find)),
            )
            &&& again.is_plain(KeyCode::Char(',')) ==> step(s1, again).1 == Some(
                VimKeyAction::Move(
                    VimMotion::Find(VimFindMotion { ch, forward: !forward, till }),
                ),
            )
        }),
{
}

/// An operator followed by a motion key applies the operator over that
/// motion; `c` then also enters insert mode.
pub proof fn operator_then_motion(s: VimStateView, op: VimOperator, k: KeyEvent, m: VimMotion)
    requires
        s.enabled,
        s.mode == VimEditingMode::Normal,
        s.pending == Some(Pending::Operator(op)),
        k.kind != KeyEventKind::Release,
        operator_motion(k) == Some(m),
    ensures
        step(s, k).1 == Some(
            match op {
                VimOperator::Delete => VimKeyAction::DeleteMotion(m),
                VimOperator::Change => VimKeyAction::ChangeMotion(m),
                VimOperator::Yank => VimKeyAction::YankMotion(m),
            },
        ),
        step(s, k).0.mode == (if op == VimOperator::Change {
            VimEditingMode::Insert
        } else {
            VimEditingMode::Normal
        }),
{
}

/// An operator key typed twice applies the operator to the whole line.
pub proof fn doubled_operator_acts_on_line(s: VimStateView, op: VimOperator, k: KeyEvent)
    requires
        s.enabled,
        s.mode == VimEditingMode::Normal,
        s.pending is None,
        k.is_plain(KeyCode::Char(operator_key(op))),
        k.kind != KeyEventKind::Release,
    ensures
        step(s, k) == (
            VimStateView { pending: Some(Pending::Operator(op)), ..s },
            Some(VimKeyAction::NoOp),
        ),
        step(step(s, k).0, k).1 == Some(
            match op {
                VimOperator::Delete => VimKeyAction::DeleteLine,
                VimOperator::Change => VimKeyAction::ChangeLine,
                VimOperator::Yank => VimKeyAction::YankLine,
            },
        ),
{
}

/// `g` typed twice moves to the start of the input.
pub proof fn gg_moves_to_input_start(s: VimStateView, k: KeyEvent)
    requires
        s.enabled,
        s.mode == VimEditingMode::Normal,
        s.pending is None,
        k.is_plain(KeyCode::Char('g')),
        k.kind != KeyEventKind::Release,
    ensures
        step(step(s, k).0, k).1 == Some(VimKeyAction::Move(VimMotion::InputStart)),
{
}

} // verus!

verus! {

// ---------------------------------------------------------------------------
// Where a motion takes the cursor.
// ---------------------------------------------------------------------------

/// The first index in `from..to` holding `ch`.
pub open spec fn find_forward(t: Seq<char>, from: int, to: int, ch: char) -> Option<int>
    decreases to - from,
{
    if from >= to {
        None
    } else if t[from] == ch {
        Some(from)
    } else {
        find_forward(t, from + 1, to, ch)
    }
}

/// The last index in `from..to` holding `ch`.
pub open spec fn find_backward(t: Seq<char>, from: int, to: int, ch: char) -> Option<int>
    decreases to - from,
{
    if to <= from {
        None
    } else if t[to - 1] == ch {
        Some(to - 1)
    } else {
        find_backward(t, from, to - 1, ch)
    }
}

pub open spec fn max_int(a: int, b: int) -> int {
    if a >= b {
        a
    } else {
        b
    }
}

/// Where a search in the cursor's line lands, as a character index. A
/// forward search looks from the cursor (inclusive) to the end of the line, a
/// backward one from the start of the line to the cursor (exclusive); `till`
/// stops one character short, towards the cursor.
pub open spec fn find_in_line_index(a: TextAreaView, find: VimFindMotion) -> Option<int> {
    let t = a.text;
    let c = a.cursor;
    let ls = line_start(t, c);
    let le = line_end(t, c);
    if find.forward {
        match find_forward(t, min_int(c, le), le, find.ch) {
            None => None,
            Some(pos) => Some(
                if !find.till {
                    pos
                } else if pos > 0 {
                    max_int(pos - 1, c)
                } else {
                    ls
                },
            ),
        }
    } else {
        match find_backward(t, ls, min_int(c, le), find.ch) {
            None => None,
            Some(pos) => Some(
                if find.till {
                    min_int(pos + 1, le)
                } else {
                    pos
                },
            ),
        }
    }
}

/// Where a motion takes the cursor, as a character index.
pub open spec fn motion_target(a: TextAreaView, motion: VimMotion) -> int {
    let t = a.text;
    let c = a.cursor;
    match motion {
        VimMotion::Left => char_left(c),
        VimMotion::Right => char_right(t, c),
        VimMotion::Up => line_up(t, c),
        VimMotion::Down => line_down(t, c),
        VimMotion::NextWordStart => next_word_start(t, c),
        VimMotion::NextWordEnd => next_word_end(t, c),
        VimMotion::PrevWord => previous_word_start(t, c),
        VimMotion::LineStart => line_start(t, c),
        VimMotion::LineEnd => line_end(t, c),
        VimMotion::FirstNonBlank => first_non_blank(t, c),
        VimMotion::InputStart => 0,
        VimMotion::InputEnd => t.len() as int,
        VimMotion::Find(find) => match find_in_line_index(a, find) {
            Some(i) => i,
            None => c,
        },
    }
}

proof fn lemma_find_forward_bounds(t: Seq<char>, from: int, to: int, ch: char)
    requires
        0 <= from,
        to <= t.len(),
    ensures
        find_forward(t, from, to, ch) matches Some(p) ==> from <= p < to && t[p] == ch,
        find_forward(t, from, to, ch) matches Some(p) ==> forall|k: int|
            from <= k < p ==> t[k] != ch,
        find_forward(t, from, to, ch) is None ==> forall|k: int| from <= k < to ==> t[k] != ch,
    decreases to - from,
{
    if from < to && t[from] != ch {
        lemma_find_forward_bounds(t, from + 1, to, ch);
    }
}

proof fn lemma_find_backward_bounds(t: Seq<char>, from: int, to: int, ch: char)
    requires
        0 <= from,
        to <= t.len(),
    ensures
        find_backward(t, from, to, ch) matches Some(p) ==> from <= p < to && t[p] == ch,
        find_backward(t, from, to, ch) matches Some(p) ==> forall|k: int|
            p < k < to ==> t[k] != ch,
        find_backward(t, from, to, ch) is None ==> forall|k: int| from <= k < to ==> t[k] != ch,
    decreases to - from,
{
    if from < to && t[to - 1] != ch {
        lemma_find_backward_bounds(t, from, to - 1, ch);
    }
}

/// A copy of the text area: same text, elements and cursor.
pub fn clone_textarea(textarea: &TextArea) -> (clone: TextArea)
    ensures
        clone@ == textarea@,
{
    let mut clone = TextArea::new();
    let elements = textarea.text_elements();
    clone.set_text_with_elements(textarea.text(), elements.as_slice());
    clone.set_cursor(textarea.cursor());
    proof {
        lemma_floor_index_of_offset(textarea@.text, textarea@.cursor);
    }
    clone
}

/// Searches the cursor's line for `find.ch`, as `f`, `F`, `t` and `T` do,
/// and gives the byte offset the cursor would move to.
pub fn find_in_line(textarea: &TextArea, find: VimFindMotion) -> (r: Option<usize>)
    ensures
        r is Some <==> find_in_line_index(textarea@, find) is Some,
        r matches Some(b) ==> b == byte_offset(
            textarea@.text,
            find_in_line_index(textarea@, find)->0,
        ),
{
    let (line_start_index, line_end_index) = textarea.current_line_bounds();
    let cursor = textarea.cursor_index();
    proof {
        crate::textarea::lemma_line_start_bounds(textarea@.text, cursor as int);
        crate::textarea::lemma_line_end_bounds(textarea@.text, cursor as int);
    }
    if find.forward {
        let start = if cursor <= line_end_index {
            cursor
        } else {
            line_end_index
        };
        let mut j = start;
        while j < line_end_index && textarea.char_at(j) != find.ch
            invariant
                start <= j <= line_end_index <= textarea@.text.len(),
                find_forward(textarea@.text, j as int, line_end_index as int, find.ch)
                    == find_forward(textarea@.text, start as int, line_end_index as int, find.ch),
            decreases line_end_index - j,
        {
            j = j + 1;
        }
        if j >= line_end_index {
            return None;
        }
        let pos = j;
        let i = if !find.till {
            pos
        } else if pos > 0 {
            if pos - 1 >= cursor {
                pos - 1
            } else {
                cursor
            }
        } else {
            line_start_index
        };
        Some(textarea.byte_offset_of(i))
    } else {
        let end = if cursor <= line_end_index {
            cursor
        } else {
            line_end_index
        };
        let mut j = end;
        while j > line_start_index && textarea.char_at(j - 1) != find.ch
            invariant
                line_start_index <= j <= end <= textarea@.text.len(),
                find_backward(textarea@.text, line_start_index as int, j as int, find.ch)
                    == find_backward(textarea@.text, line_start_index as int, end as int, find.ch),
            decreases j,
        {
            j = j - 1;
        }
        if j <= line_start_index {
            return None;
        }
        let pos = j - 1;
        let i = if find.till {
            if pos + 1 <= line_end_index {
                pos + 1
            } else {
                line_end_index
            }
        } else {
            pos
        };
        Some(textarea.byte_offset_of(i))
    }
}

/// The byte offset to which `motion` takes the cursor of `textarea`.
pub fn apply_motion(textarea: &TextArea, motion: VimMotion) -> (pos: usize)
    ensures
        pos == byte_offset(textarea@.text, motion_target(textarea@, motion)),
        motion matches VimMotion::Find(find) ==> (find_in_line_index(textarea@, find) is None
            ==> pos == textarea@.cursor_byte()),
{
    let ghost t = textarea@.text;
    proof {
        lemma_byte_offset_ends(t);
    }
    match motion {
        VimMotion::Left => {
            let mut clone = clone_textarea(textarea);
            clone.move_cursor_left();
            clone.cursor()
        },
        VimMotion::Right => {
            let mut clone = clone_textarea(textarea);
            clone.move_cursor_right();
            clone.cursor()
        },
        VimMotion::Up => {
            let mut clone = clone_textarea(textarea);
            clone.move_cursor_up();
            clone.cursor()
        },
        VimMotion::Down => {
            let mut clone = clone_textarea(textarea);
            clone.move_cursor_down();
            clone.cursor()
        },
        VimMotion::NextWordStart => textarea.start_of_next_word(),
        VimMotion::NextWordEnd => textarea.end_of_next_word(),
        VimMotion::PrevWord => textarea.beginning_of_previous_word(),
        VimMotion::LineStart => textarea.current_line_start(),
        VimMotion::LineEnd => textarea.current_line_end(),
        VimMotion::FirstNonBlank => textarea.first_non_blank_of_current_line(),
        VimMotion::InputStart => 0,
        VimMotion::InputEnd => textarea.text().len(),
        VimMotion::Find(find) => match find_in_line(textarea, find) {
            Some(pos) => pos,
            None => textarea.cursor(),
        },
    }
}

} // verus!

verus! {

// ---------------------------------------------------------------------------
// Laws of the motions.
// ---------------------------------------------------------------------------

/// A character search never leaves the cursor's line; forward it never moves
/// the cursor back and backward never forward; without `till` it lands on the
/// character searched for; and it finds nothing exactly when the searched
/// part of the line lacks that character.
pub proof fn find_in_line_stays_in_line(a: TextAreaView, find: VimFindMotion)
    requires
        a.well_formed(),
    ensures
        ({
            let t = a.text;
            let c = a.cursor;
            let ls = line_start(t, c);
            let le = line_end(t, c);
            &&& find_in_line_index(a, find) matches Some(i) ==> {
                &&& ls <= i <= le
                &&& find.forward ==> c <= i
                &&& !find.forward ==> i <= c
                &&& !find.till ==> i < t.len() && t[i] == find.ch
            }
            &&& find_in_line_index(a, find) is None <==> (if find.forward {
                forall|k: int| c <= k < le ==> t[k] != find.ch
            } else {
                forall|k: int| ls <= k < c ==> t[k] != find.ch
            })
        }),
{
    let t = a.text;
    let c = a.cursor;
    crate::textarea::lemma_line_start_bounds(t, c);
    crate::textarea::lemma_line_end_bounds(t, c);
    let ls = line_start(t, c);
    let le = line_end(t, c);
    if find.forward {
        lemma_find_forward_bounds(t, c, le, find.ch);
    } else {
        lemma_find_backward_bounds(t, ls, c, find.ch);
    }
}

/// Every motion keeps the cursor within the text; line motions stay on the
/// cursor's line, with its start before and its end after the cursor.
pub proof fn motion_stays_in_text(a: TextAreaView, motion: VimMotion)
    requires
        a.well_formed(),
    ensures
        0 <= motion_target(a, motion) <= a.text.len(),
        motion_target(a, VimMotion::LineStart) <= a.cursor <= motion_target(a, VimMotion::LineEnd),
        motion_target(a, VimMotion::LineStart) <= motion_target(a, VimMotion::FirstNonBlank)
            <= motion_target(a, VimMotion::LineEnd),
{
    let t = a.text;
    let c = a.cursor;
    crate::textarea::lemma_line_start_bounds(t, c);
    crate::textarea::lemma_line_end_bounds(t, c);
    let ls = line_start(t, c);
    let le = line_end(t, c);
    crate::textarea::lemma_skip_space_forward_bounds(t, ls);
    crate::textarea::lemma_skip_space_forward_bounds(t, c);
    crate::textarea::lemma_skip_space_backward_bounds(t, c);
    match motion {
        VimMotion::Up => {
            if ls > 0 {
                crate::textarea::lemma_line_start_bounds(t, ls - 1);
            }
        },
        VimMotion::Down => {
            if le < t.len() {
                crate::textarea::lemma_line_end_bounds(t, le + 1);
            }
        },
        VimMotion::NextWordStart => {
            if c < t.len() && !crate::textarea::is_white_space(t[c]) {
                let sep = crate::textarea::is_word_separator(t[c]);
                crate::textarea::lemma_run_end_bounds(t, c + 1, sep);
                crate::textarea::lemma_skip_space_forward_bounds(
                    t,
                    crate::textarea::run_end(t, c + 1, sep),
                );
            }
        },
        VimMotion::NextWordEnd => {
            let w = crate::textarea::skip_space_forward(t, c);
            if w < t.len() {
                crate::textarea::lemma_run_end_bounds(
                    t,
                    w + 1,
                    crate::textarea::is_word_separator(t[w]),
                );
            }
        },
        VimMotion::PrevWord => {
            let p = crate::textarea::skip_space_backward(t, c);
            if p > 0 {
                crate::textarea::lemma_run_start_bounds(
                    t,
                    p - 1,
                    crate::textarea::is_word_separator(t[p - 1]),
                );
            }
        },
        VimMotion::Find(find) => {
            find_in_line_stays_in_line(a, find);
        },
        _ => {},
    }
}

/// Word motions go the way they say: the next word's start and end lie at or
/// after the cursor, the previous word's start at or before it.
pub proof fn word_motions_keep_direction(a: TextAreaView)
    requires
        a.well_formed(),
    ensures
        a.cursor <= motion_target(a, VimMotion::NextWordStart),
        a.cursor <= motion_target(a, VimMotion::NextWordEnd),
        motion_target(a, VimMotion::PrevWord) <= a.cursor,
{
    let t = a.text;
    let c = a.cursor;
    crate::textarea::lemma_skip_space_forward_bounds(t, c);
    crate::textarea::lemma_skip_space_backward_bounds(t, c);
    if c < t.len() && !crate::textarea::is_white_space(t[c]) {
        let sep = crate::textarea::is_word_separator(t[c]);
        crate::textarea::lemma_run_end_bounds(t, c + 1, sep);
        crate::textarea::lemma_skip_space_forward_bounds(t, crate::textarea::run_end(t, c + 1, sep));
    }
    let w = crate::textarea::skip_space_forward(t, c);
    if w < t.len() {
        crate::textarea::lemma_run_end_bounds(t, w + 1, crate::textarea::is_word_separator(t[w]));
    }
    let p = crate::textarea::skip_space_backward(t, c);
    if p > 0 {
        crate::textarea::lemma_run_start_bounds(t, p - 1, crate::textarea::is_word_separator(t[p - 1]));
    }
}

/// Moving down from any line but the last lands on the next line, keeping the
/// column where that line is long enough and at its end where it is shorter;
/// moving up from any line but the first lands on the previous line in the
/// same way.
pub proof fn vertical_motions_keep_column(a: TextAreaView)
    requires
        a.well_formed(),
    ensures
        ({
            let t = a.text;
            let c = a.cursor;
            let ls = line_start(t, c);
            let le = line_end(t, c);
            let col = c - ls;
            &&& le < t.len() ==> {
                let d = motion_target(a, VimMotion::Down);
                &&& line_start(t, d) == le + 1
                &&& (col <= line_end(t, le + 1) - (le + 1) ==> d - (le + 1) == col)
                &&& (col > line_end(t, le + 1) - (le + 1) ==> d == line_end(t, le + 1))
            }
            &&& ls > 0 ==> {
                let u = motion_target(a, VimMotion::Up);
                let ps = line_start(t, ls - 1);
                &&& line_start(t, u) == ps
                &&& (col <= (ls - 1) - ps ==> u - ps == col)
                &&& (col > (ls - 1) - ps ==> u == ls - 1)
            }
        }),
{
    let t = a.text;
    let c = a.cursor;
    crate::textarea::lemma_line_start_bounds(t, c);
    crate::textarea::lemma_line_end_bounds(t, c);
    let ls = line_start(t, c);
    let le = line_end(t, c);
    if le < t.len() {
        crate::textarea::lemma_line_end_bounds(t, le + 1);
        let d = motion_target(a, VimMotion::Down);
        lemma_line_start_within(t, le + 1, d);
    }
    if ls > 0 {
        crate::textarea::lemma_line_start_bounds(t, ls - 1);
        let u = motion_target(a, VimMotion::Up);
        let ps = line_start(t, ls - 1);
        lemma_line_start_within(t, ps, u);
    }
}

/// Every index from a line's start up to its newline has that line start.
proof fn lemma_line_start_within(t: Seq<char>, s: int, i: int)
    requires
        0 <= s <= i <= t.len(),
        s == 0 || t[s - 1] == '\n',
        forall|k: int| s <= k < i ==> t[k] != '\n',
    ensures
        line_start(t, i) == s,
    decreases i - s,
{
    if i > s {
        lemma_line_start_within(t, s, i - 1);
    }
}

} // verus!

verus! {

/// A character search lands on the occurrence nearest the cursor in its
/// direction: forward, the first one at or after the cursor; backward, the
/// last one before it. With `till` it stops one character short of that
/// occurrence, on the cursor's side (and stays on the cursor when the
/// occurrence is under it).
pub proof fn find_in_line_lands_on_nearest(a: TextAreaView, find: VimFindMotion)
    requires
        a.well_formed(),
    ensures
        ({
            let t = a.text;
            let c = a.cursor;
            let ch = find.ch;
            let ls = line_start(t, c);
            let le = line_end(t, c);
            find_in_line_index(a, find) matches Some(i) ==> {
                &&& (find.forward && !find.till) ==> {
                    &&& c <= i < le
                    &&& t[i] == ch
                    &&& forall|k: int| c <= k < i ==> t[k] != ch
                }
                &&& (find.forward && find.till) ==> {
                    &&& c <= i < le
                    &&& ((i + 1 < le && t[i + 1] == ch && forall|k: int| c <= k <= i ==> t[k] != ch)
                        || (i == c && t[c] == ch))
                }
                &&& (!find.forward && !find.till) ==> {
                    &&& ls <= i < c
                    &&& t[i] == ch
                    &&& forall|k: int| i < k < c ==> t[k] != ch
                }
                &&& (!find.forward && find.till) ==> {
                    &&& ls < i <= c
                    &&& t[i - 1] == ch
                    &&& forall|k: int| i <= k < c ==> t[k] != ch
                }
            }
        }),
{
    let t = a.text;
    let c = a.cursor;
    crate::textarea::lemma_line_start_bounds(t, c);
    crate::textarea::lemma_line_end_bounds(t, c);
    let ls = line_start(t, c);
    let le = line_end(t, c);
    lemma_find_forward_bounds(t, c, le, find.ch);
    lemma_find_backward_bounds(t, ls, c, find.ch);
}

/// A search motion goes where the search lands, and when the search finds
/// nothing, in either direction, the cursor stays where it is.
pub proof fn failed_search_keeps_cursor(a: TextAreaView, find: VimFindMotion)
    ensures
        find_in_line_index(a, find) is None ==> motion_target(a, VimMotion::Find(find)) == a.cursor,
        find_in_line_index(a, find) matches Some(i) ==> motion_target(a, VimMotion::Find(find))
            == i,
{
}

/// After an operator, a motion key names the motion it names on its own in
/// normal mode; the one exception is `g`, which alone only waits for a second
/// `g` and after an operator means the start of the input.
pub proof fn operator_motions_match_normal_mode(k: KeyEvent)
    ensures
        operator_motion(k) matches Some(m) ==> (normal_motion(k) == Some(m) || (k.is_plain(
            KeyCode::Char('g'),
        ) && m == VimMotion::InputStart)),
{
}

/// The motion keys move the way their letters say: `h` left and `l` right by
/// a character, `k` to an earlier line and `j` to a later one (when there is
/// one), `0` and `$` to the ends of the line, whether alone or after an
/// operator.
pub proof fn motion_keys_move_their_way(a: TextAreaView, k: KeyEvent)
    requires
        a.well_formed(),
    ensures
        ({
            let t = a.text;
            let c = a.cursor;
            let ls = line_start(t, c);
            let le = line_end(t, c);
            &&& k.is_plain(KeyCode::Char('h')) ==> operator_motion(k) is Some && normal_motion(k) == operator_motion(k) && motion_target(a, operator_motion(k)->0) == (if c > 0 {
                c - 1
            } else {
                c
            })
            &&& k.is_plain(KeyCode::Char('l')) ==> operator_motion(k) is Some && normal_motion(k) == operator_motion(k) && motion_target(a, operator_motion(k)->0) == (if c < t.len() {
                c + 1
            } else {
                c
            })
            &&& k.is_plain(KeyCode::Char('k')) ==> operator_motion(k) is Some && normal_motion(k) == operator_motion(k) && (ls > 0 ==> line_end(t, motion_target(a, operator_motion(k)->0)) == ls - 1)
            &&& k.is_plain(KeyCode::Char('j')) ==> operator_motion(k) is Some && normal_motion(k) == operator_motion(k) && (le < t.len() ==> line_start(t, motion_target(a, operator_motion(k)->0)) == le + 1)
            &&& k.is_plain(KeyCode::Char('0')) ==> operator_motion(k) is Some && normal_motion(k) == operator_motion(k) && motion_target(a, operator_motion(k)->0) == ls
            &&& k.is_shifted(KeyCode::Char('$')) ==> operator_motion(k) is Some && normal_motion(k) == operator_motion(k) && motion_target(a, operator_motion(k)->0) == le
        }),
{
    let t = a.text;
    let c = a.cursor;
    crate::textarea::lemma_line_start_bounds(t, c);
    crate::textarea::lemma_line_end_bounds(t, c);
    vertical_motions_keep_column(a);
    let ls = line_start(t, c);
    let le = line_end(t, c);
    if ls > 0 {
        crate::textarea::lemma_line_start_bounds(t, ls - 1);
        let u = motion_target(a, VimMotion::Up);
        motion_stays_in_text(a, VimMotion::Up);
        lemma_line_end_within(t, u, ls - 1);
    }
}

/// Every index up to a newline (or the end of the text), over a stretch
/// without newlines, has that line end.
proof fn lemma_line_end_within(t: Seq<char>, i: int, e: int)
    requires
        0 <= i <= e <= t.len(),
        e == t.len() || t[e] == '\n',
        forall|k: int| i <= k < e ==> t[k] != '\n',
    ensures
        line_end(t, i) == e,
    decreases e - i,
{
    if i < e {
        lemma_line_end_within(t, i + 1, e);
    }
}

/// Each search key fixes its search by its letter: a lowercase key (`f`, `t`)
/// searches forward and an uppercase one (`F`, `T`) backward, and `t` and `T`
/// stop short of the character while `f` and `F` land on it. The character
/// typed next completes the search and becomes the last search.
pub proof fn search_keys_fix_direction_and_till(
    s: VimStateView,
    key: KeyEvent,
    letter: char,
    next: KeyEvent,
    ch: char,
)
    requires
        s.enabled,
        s.mode == VimEditingMode::Normal,
        s.pending is None,
        key.kind != KeyEventKind::Release,
        letter == 'f' || letter == 't' || letter == 'F' || letter == 'T',
        (letter == 'f' || letter == 't') ==> key.is_plain(KeyCode::Char(letter)),
        (letter == 'F' || letter == 'T') ==> key.is_shifted(KeyCode::Char(letter)),
        next.kind != KeyEventKind::Release,
        next.code == KeyCode::Char(ch),
        next.modifiers.is_none() || next.modifiers.is_shift(),
    ensures
        ({
            let s1 = step(s, key).0;
            let find = VimFindMotion {
                ch,
                forward: letter == 'f' || letter == 't',
                till: letter == 't' || letter == 'T',
            };
            &&& step(s, key).1 == Some(VimKeyAction::NoOp)
            &&& step(s1, next).1 == Some(VimKeyAction::Move(VimMotion::Find(find)))
            &&& step(s1, next).0.last_find == Some(find)
        }),
{
}

} // verus!
