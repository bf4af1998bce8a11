//! Pre-game frontend: scene stops, text entry, and local navigation.
//!
//! The runtime decides where the frontend travels and what each action
//! does; the caller animates the camera between stops and reports arrival.
//! Lifecycle owns Connection/Game.

use vstd::prelude::*;

use crate::text::{
    append_decimal, append_str, decimal, is_control, is_control_spec, char_utf8_width,
    lemma_utf8_len_push, owned, pop_char, push_char, str_eq, utf8_len, utf8_width,
};
use vstd::std_specs::iter::IteratorSpec;

verus! {

// ---------------------------------------------------------------------------
// Scene framing

/// Logical width of the frontend scene image, in pixels.
pub const SCENE_WIDTH: u32 = 2880;

/// Logical height of the frontend scene image, in pixels.
pub const SCENE_HEIGHT: u32 = 5120;

/// Camera stops of the frontend scene, top to bottom.
#[derive(Clone, Copy, Debug, PartialEq, Eq, Structural)]
pub enum FrontendSceneStop {
    Intro,
    Login,
    Channel,
    Character,
}

/// `"frontend.scene.guide: expected 2880x5120 PNG, got {w}x{h}"`.
pub open spec fn dimension_error(w: u32, h: u32) -> Seq<char> {
    "frontend.scene.guide: expected 2880x5120 PNG, got "@ + decimal(w as nat) + "x"@ + decimal(
        h as nat,
    )
}

/// The scene guide image must be exactly the locked scene size.
pub fn validate_dimensions(dimensions: [u32; 2]) -> (r: Result<(), String>)
    ensures
        r is Ok <==> (dimensions@[0] == SCENE_WIDTH && dimensions@[1] == SCENE_HEIGHT),
        r matches Err(e) ==> e@ == dimension_error(dimensions@[0], dimensions@[1]),
{
    let w = dimensions[0];
    let h = dimensions[1];
    if w == SCENE_WIDTH && h == SCENE_HEIGHT {
        Ok(())
    } else {
        let mut e = owned("frontend.scene.guide: expected 2880x5120 PNG, got ");
        append_decimal(&mut e, w as u64);
        append_str(&mut e, "x");
        append_decimal(&mut e, h as u64);
        Err(e)
    }
}

// ---------------------------------------------------------------------------
// Stages and actions

#[derive(Clone, Copy, Debug, PartialEq, Eq, Structural)]
pub enum FrontendStage {
    Intro,
    Login,
    ChannelSelect,
    CharacterSelect,
}

pub open spec fn stage_stop(stage: FrontendStage) -> FrontendSceneStop {
    match stage {
        FrontendStage::Intro => FrontendSceneStop::Intro,
        FrontendStage::Login => FrontendSceneStop::Login,
        FrontendStage::ChannelSelect => FrontendSceneStop::Channel,
        FrontendStage::CharacterSelect => FrontendSceneStop::Character,
    }
}

impl FrontendStage {
    /// The camera stop that frames this stage.
    pub fn stop(self) -> (s: FrontendSceneStop)
        ensures
            s == stage_stop(self),
    {
        match self {
            FrontendStage::Intro => FrontendSceneStop::Intro,
            FrontendStage::Login => FrontendSceneStop::Login,
            FrontendStage::ChannelSelect => FrontendSceneStop::Channel,
            FrontendStage::CharacterSelect => FrontendSceneStop::Character,
        }
    }
}

#[derive(Clone, Copy, Debug, PartialEq, Eq, Structural)]
pub enum FrontendAction {
    ContinueFromLogin,
    SelectChannel(u8),
    SelectCharacter(u8),
    BeginCreate(u8),
    CancelCreation,
    CreateCharacter,
    Back,
}

// ---------------------------------------------------------------------------
// Frontend input focus

#[derive(Clone, Copy, Debug, PartialEq, Eq, Structural)]
pub enum Control {
    Username,
    Action(FrontendAction),
}

/// Keyboard focus and the control under a pending pointer press.
pub struct FrontendUi {
    pub focused: bool,
    pub pressed: Option<Control>,
}

impl Default for FrontendUi {
    fn default() -> (ui: Self)
        ensures
            !ui.focused,
            ui.pressed is None,
    {
        FrontendUi { focused: false, pressed: None }
    }
}

impl FrontendUi {
    /// Drops focus and any pending press.
    pub fn reset_input(&mut self)
        ensures
            !final(self).focused,
            final(self).pressed is None,
    {
        self.focused = false;
        self.pressed = None;
    }
}

// ---------------------------------------------------------------------------
// Single-line text entry

/// The answer of a deterministic predicate closure on `c`.
pub open spec fn verdict<F: Fn(char) -> bool>(accepts: F, c: char) -> bool {
    choose|b: bool| accepts.ensures((c,), b)
}

/// A deterministic predicate closure as a spec predicate.
pub open spec fn verdicts<F: Fn(char) -> bool>(accepts: F) -> spec_fn(char) -> bool {
    |c: char| verdict(accepts, c)
}

/// `value` after appending the characters of `text`, in order, that are not
/// control characters, that `accepts` admits, and that still fit in
/// `max_bytes` UTF-8 bytes.
pub open spec fn append_line_spec(
    value: Seq<char>,
    text: Seq<char>,
    max_bytes: nat,
    accepts: spec_fn(char) -> bool,
) -> Seq<char>
    decreases text.len(),
{
    if text.len() == 0 {
        value
    } else {
        let v = append_line_spec(value, text.drop_last(), max_bytes, accepts);
        let c = text.last();
        if !is_control_spec(c) && accepts(c) && utf8_len(v) + utf8_width(c) <= max_bytes {
            v.push(c)
        } else {
            v
        }
    }
}

/// Two acceptance predicates that agree on the non-control characters of
/// `text` append the same characters.
pub proof fn lemma_append_line_agree(
    value: Seq<char>,
    text: Seq<char>,
    max_bytes: nat,
    a1: spec_fn(char) -> bool,
    a2: spec_fn(char) -> bool,
)
    requires
        forall|i: int| 0 <= i < text.len() && !is_control_spec(#[trigger] text[i]) ==> a1(text[i]) == a2(text[i]),
    ensures
        append_line_spec(value, text, max_bytes, a1) == append_line_spec(value, text, max_bytes, a2),
    decreases text.len(),
{
    if text.len() > 0 {
        let d = text.drop_last();
        assert forall|i: int| 0 <= i < d.len() && !is_control_spec(#[trigger] d[i]) implies a1(d[i]) == a2(d[i]) by {
            assert(d[i] == text[i]);
        }
        lemma_append_line_agree(value, d, max_bytes, a1, a2);
        if !is_control_spec(text.last()) {
            assert(text.last() == text[text.len() - 1]);
        }
    }
}

/// Appends the admissible characters of `text` to `value` while the UTF-8
/// byte length stays within `max_bytes`. Acceptance rules belong to the
/// caller; `accepts` must answer the same way for the same character.
pub fn append_single_line<F: Fn(char) -> bool>(
    value: &mut String,
    text: &str,
    max_bytes: usize,
    accepts: F,
)
    requires
        utf8_len(old(value)@) <= usize::MAX,
        forall|c: char| #[trigger] accepts.requires((c,)),
        forall|c: char, b1: bool, b2: bool|
            accepts.ensures((c,), b1) && accepts.ensures((c,), b2) ==> b1 == b2,
    ensures
        final(value)@ == append_line_spec(
            old(value)@,
            text@,
            max_bytes as nat,
            verdicts(accepts),
        ),
        forall|i: int|
            0 <= i < text@.len() && !is_control_spec(#[trigger] text@[i]) ==> exists|b: bool|
                accepts.ensures((text@[i],), b),
{
    broadcast use vstd::string::axiom_spec_iter, vstd::string::next_postcondition;

    let ghost acc = verdicts(accepts);
    let ghost start = value@;
    let mut chars = text.chars();
    let ghost n = text@.len();
    loop
        invariant
            n == text@.len(),
            forall|c: char| #[trigger] accepts.requires((c,)),
            forall|c: char, b1: bool, b2: bool|
                accepts.ensures((c,), b1) && accepts.ensures((c,), b2) ==> b1 == b2,
            acc == verdicts(accepts),
            start == old(value)@,
            forall|i: int|
                0 <= i < n - chars.remaining().len() && !is_control_spec(#[trigger] text@[i])
                    ==> exists|b: bool| accepts.ensures((text@[i],), b),
            utf8_len(value@) <= usize::MAX,
            chars.obeys_prophetic_iter_laws(),
            chars.remaining().len() <= n,
            chars.remaining() =~= text@.skip(n - chars.remaining().len()),
            value@ == append_line_spec(
                start,
                text@.take(n - chars.remaining().len()),
                max_bytes as nat,
                acc,
            ),
            chars.decrease() is Some,
        decreases chars.decrease()->0,
    {
        let ghost k = n - chars.remaining().len();
        match chars.next() {
            Some(c) => {
                assert(c == text@[k]);
                assert(text@.take(k + 1).drop_last() =~= text@.take(k));
                assert(text@.take(k + 1).last() == c);
                if !is_control(c) {
                    let ok = accepts(c);
                    proof {
                        assert(accepts.ensures((c,), ok));
                        assert(acc(c) == ok);
                        assert(accepts.ensures((text@[k],), ok));
                    }
                    if ok {
                        let width = char_utf8_width(c);
                        let current = value.as_str();
                        let used = current.len();
                        proof {
                            assert(current@ == value@);
                            assert(used == utf8_len(value@));
                        }
                        if used <= max_bytes && width <= max_bytes - used {
                            proof {
                                lemma_utf8_len_push(value@, c);
                            }
                            push_char(value, c);
                        }
                    }
                }
                assert(chars.remaining() =~= text@.skip(k + 1));
            },
            None => {
                assert(text@.take(n as int) =~= text@);
                return ;
            },
        }
    }
}

// ---------------------------------------------------------------------------
// Frontend keyboard and pointer decisions

/// The keys the frontend reacts to.
#[derive(Clone, Copy, Debug, PartialEq, Eq, Structural)]
pub enum FrontendKey {
    Escape,
    Backspace,
    Enter,
    /// Any other key; its text, if any, is typed into the focused field.
    Other,
}

/// Characters a login may contain: lowercase ASCII letters, digits, `_`
/// and `.`.
pub open spec fn login_char(c: char) -> bool {
    ('a' <= c && c <= 'z') || ('0' <= c && c <= '9') || c == '_' || c == '.'
}

/// What a key press does to focus, the login field and navigation.
pub open spec fn key_spec(
    focused: bool,
    visible: Option<FrontendStage>,
    login: Seq<char>,
    key: FrontendKey,
    text: Option<Seq<char>>,
    repeat: bool,
    login_valid: bool,
    max_bytes: nat,
) -> (bool, Seq<char>, Option<FrontendAction>) {
    match visible {
        None => (focused, login, None),
        Some(stage) => if key == FrontendKey::Escape && !repeat {
            (false, login, Some(FrontendAction::Back))
        } else if stage != FrontendStage::Login || !focused {
            (focused, login, None)
        } else {
            match key {
                FrontendKey::Backspace => (focused, if login.len() == 0 {
                    login
                } else {
                    login.drop_last()
                }, None),
                FrontendKey::Enter => if !repeat && login_valid {
                    (false, login, Some(FrontendAction::ContinueFromLogin))
                } else {
                    (focused, login, None)
                },
                _ => match text {
                    Some(t) => (
                        focused,
                        append_line_spec(login, t, max_bytes, |c: char| login_char(c)),
                        None,
                    ),
                    None => (focused, login, None),
                },
            }
        },
    }
}

impl FrontendUi {
    /// Keyboard input on the frontend. `visible` is the runtime's visible
    /// stage, `login_valid` whether the current login passes the login
    /// rules, `max_bytes` the login length limit.
    pub fn key(
        &mut self,
        visible: Option<FrontendStage>,
        login: &mut String,
        key: FrontendKey,
        text: Option<&str>,
        repeat: bool,
        login_valid: bool,
        max_bytes: usize,
    ) -> (action: Option<FrontendAction>)
        requires
            utf8_len(old(login)@) <= usize::MAX,
        ensures
            ({
                let (focused, l, a) = key_spec(
                    old(self).focused,
                    visible,
                    old(login)@,
                    key,
                    match text {
                        Some(t) => Some(t@),
                        None => None,
                    },
                    repeat,
                    login_valid,
                    max_bytes as nat,
                );
                &&& final(self).focused == focused
                &&& final(login)@ == l
                &&& action == a
            }),
            key == FrontendKey::Escape && !repeat && visible is Some ==> final(self).pressed is None,
    {
        let stage = match visible {
            Some(stage) => stage,
            None => {
                return None;
            },
        };
        if key == FrontendKey::Escape && !repeat {
            self.reset_input();
            return Some(FrontendAction::Back);
        }
        if stage != FrontendStage::Login || !self.focused {
            return None;
        }
        match key {
            FrontendKey::Backspace => {
                pop_char(login);
            },
            FrontendKey::Enter => {
                if !repeat && login_valid {
                    self.reset_input();
                    return Some(FrontendAction::ContinueFromLogin);
                }
            },
            _ => {
                if let Some(t) = text {
                    let accepts = |c: char| -> (b: bool)
                        ensures
                            b == login_char(c),
                        { ('a' <= c && c <= 'z') || ('0' <= c && c <= '9') || c == '_' || c == '.' };
                    append_single_line(login, t, max_bytes, accepts);
                    proof {
                        assert forall|i: int|
                            0 <= i < t@.len() && !is_control_spec(#[trigger] t@[i]) implies verdicts(
                            accepts,
                        )(t@[i]) == login_char(t@[i]) by {
                            let b = choose|b: bool| accepts.ensures((t@[i],), b);
                            assert(accepts.ensures((t@[i],), b));
                        }
                        lemma_append_line_agree(
                            old(login)@,
                            t@,
                            max_bytes as nat,
                            verdicts(accepts),
                            |c: char| login_char(c),
                        );
                    }
                }
            },
        }
        None
    }

    /// Pointer input on the frontend: `hit` is the control under the cursor.
    /// A press focuses the username field (or not) and remembers the control;
    /// a release over the same action control fires it.
    pub fn pointer(&mut self, hit: Option<Control>, pressed: bool) -> (action: Option<FrontendAction>)
        ensures
            pressed ==> final(self).focused == (hit == Some(Control::Username)) && final(self).pressed
                == hit && action is None,
            !pressed ==> match (hit, old(self).pressed) {
                (Some(Control::Action(a)), Some(Control::Action(b))) if a == b => action == Some(a)
                    && !final(self).focused && final(self).pressed is None,
                _ => action is None && final(self).focused == old(self).focused
                    && final(self).pressed is None,
            },
    {
        if pressed {
            self.focused = hit == Some(Control::Username);
            self.pressed = hit;
            return None;
        }
        let previous = self.pressed;
        self.pressed = None;
        if hit == previous {
            if let Some(Control::Action(action)) = hit {
                self.reset_input();
                return Some(action);
            }
        }
        None
    }
}

// ---------------------------------------------------------------------------
// Character area

/// Why the server refused to create a character.
#[derive(Clone, Copy, Debug, PartialEq, Eq, Structural)]
pub enum CharacterCreateRejection {
    NameTaken,
    RosterFull,
    InvalidName,
    StorageFailure,
}

#[derive(Clone, Copy, Debug, PartialEq, Eq, Structural)]
pub enum CreationState {
    Idle,
    Pending,
    Rejected(CharacterCreateRejection),
}

#[derive(Clone, Copy, Debug, PartialEq, Eq, Structural)]
pub enum FrontendSession {
    Disconnected,
    Pending,
    Ready,
}

#[derive(Clone, Copy, Debug, PartialEq, Eq, Structural)]
pub enum CharacterAreaMode {
    Browsing,
    Creating { slot: u8 },
}

/// One of the three roster slots.
#[derive(Clone, Debug, PartialEq, Eq)]
pub enum CharacterSlotState {
    Empty,
    Occupied { character_id: u64, name: String },
}

/// A character being named for an empty slot.
#[derive(Clone, Debug, PartialEq, Eq)]
pub struct CharacterCreationDraft {
    pub slot: u8,
    pub name: String,
}

/// One entry of the authoritative ordered roster.
#[derive(Clone, Debug, PartialEq, Eq)]
pub struct CharacterSummary {
    pub character_id: u64,
    pub display_name: String,
}

/// The server's answer to a creation request.
#[derive(Clone, Debug, PartialEq, Eq)]
pub enum CreateCharacterResult {
    Created { roster: Vec<CharacterSummary> },
    Rejected(CharacterCreateRejection),
}

/// Number of roster slots.
pub const CHARACTER_SLOTS: usize = 3;

/// Projection of the latest authoritative ordered roster.
pub struct CharacterArea {
    pub slots: [CharacterSlotState; 3],
    pub creation: CreationState,
    pub selected_id: Option<u64>,
    pub mode: CharacterAreaMode,
    pub selected_slot: Option<u8>,
    pub draft: Option<CharacterCreationDraft>,
}

/// A slot as `(character id, name)` when occupied.
pub open spec fn slot_model(s: CharacterSlotState) -> Option<(u64, Seq<char>)> {
    match s {
        CharacterSlotState::Empty => None,
        CharacterSlotState::Occupied { character_id, name } => Some((character_id, name@)),
    }
}

pub open spec fn draft_model(d: Option<CharacterCreationDraft>) -> Option<(u8, Seq<char>)> {
    match d {
        Some(d) => Some((d.slot, d.name@)),
        None => None,
    }
}

pub open spec fn roster_model(r: Seq<CharacterSummary>) -> Seq<(u64, Seq<char>)> {
    r.map_values(|e: CharacterSummary| (e.character_id, e.display_name@))
}

pub struct AreaModel {
    pub slots: Seq<Option<(u64, Seq<char>)>>,
    pub creation: CreationState,
    pub selected_id: Option<u64>,
    pub mode: CharacterAreaMode,
    pub selected_slot: Option<u8>,
    pub draft: Option<(u8, Seq<char>)>,
}

impl View for CharacterArea {
    type V = AreaModel;

    open spec fn view(&self) -> AreaModel {
        AreaModel {
            slots: self.slots@.map_values(|s: CharacterSlotState| slot_model(s)),
            creation: self.creation,
            selected_id: self.selected_id,
            mode: self.mode,
            selected_slot: self.selected_slot,
            draft: draft_model(self.draft),
        }
    }
}

pub open spec fn empty_area() -> AreaModel {
    AreaModel {
        slots: seq![None, None, None],
        creation: CreationState::Idle,
        selected_id: None,
        mode: CharacterAreaMode::Browsing,
        selected_slot: None,
        draft: None,
    }
}

/// Leaves creation mode and forgets the draft.
pub open spec fn cancel_creation_spec(a: AreaModel) -> AreaModel {
    AreaModel { mode: CharacterAreaMode::Browsing, draft: None, creation: CreationState::Idle, ..a }
}

pub open spec fn slot_empty(a: AreaModel, slot: u8) -> bool {
    (slot as int) < CHARACTER_SLOTS && a.slots[slot as int] is None
}

/// A draft may be submitted: nothing is pending, the area is creating into
/// the draft's slot, that slot is empty, and the name passes the rules.
pub open spec fn can_create_spec(a: AreaModel, name_valid: bool) -> bool {
    a.creation != CreationState::Pending && match a.draft {
        Some((slot, _)) => a.mode == (CharacterAreaMode::Creating { slot }) && slot_empty(a, slot)
            && name_valid,
        None => false,
    }
}

/// The selected slot, when browsing and it is empty.
pub open spec fn create_slot_spec(a: AreaModel) -> Option<u8> {
    match a.selected_slot {
        Some(slot) => if a.mode == CharacterAreaMode::Browsing && slot_empty(a, slot) {
            Some(slot)
        } else {
            None
        },
        None => None,
    }
}

/// Index of the first roster entry with character id `id`.
pub open spec fn find_id(r: Seq<(u64, Seq<char>)>, id: u64) -> Option<int>
    decreases r.len(),
{
    if r.len() == 0 {
        None
    } else {
        match find_id(r.drop_last(), id) {
            Some(i) => Some(i),
            None => if r.last().0 == id {
                Some(r.len() - 1)
            } else {
                None
            },
        }
    }
}

/// Character id of the first roster entry named `name`.
pub open spec fn find_name(r: Seq<(u64, Seq<char>)>, name: Seq<char>) -> Option<u64>
    decreases r.len(),
{
    if r.len() == 0 {
        None
    } else {
        match find_name(r.drop_last(), name) {
            Some(id) => Some(id),
            None => if r.last().1 == name {
                Some(r.last().0)
            } else {
                None
            },
        }
    }
}

pub open spec fn roster_slot(r: Seq<(u64, Seq<char>)>, i: int) -> Option<(u64, Seq<char>)> {
    if i < r.len() {
        Some(r[i])
    } else {
        None
    }
}

/// Slots follow the roster order; the selection follows its character id.
pub open spec fn replace_roster_spec(a: AreaModel, r: Seq<(u64, Seq<char>)>) -> AreaModel {
    let selected_slot = match a.selected_id {
        Some(id) => match find_id(r, id) {
            Some(i) => Some(i as u8),
            None => None,
        },
        None => None,
    };
    AreaModel {
        slots: seq![roster_slot(r, 0), roster_slot(r, 1), roster_slot(r, 2)],
        selected_slot,
        selected_id: if selected_slot is None {
            None
        } else {
            a.selected_id
        },
        ..a
    }
}

impl CharacterArea {
    pub fn new() -> (a: Self)
        ensures
            a@ == empty_area(),
    {
        let a = CharacterArea {
            slots: [CharacterSlotState::Empty, CharacterSlotState::Empty, CharacterSlotState::Empty],
            creation: CreationState::Idle,
            selected_id: None,
            mode: CharacterAreaMode::Browsing,
            selected_slot: None,
            draft: None,
        };
        assert(a@.slots =~= seq![None, None, None]);
        a
    }

    fn slot_is_empty(&self, slot: u8) -> (b: bool)
        ensures
            b == slot_empty(self@, slot),
    {
        if (slot as usize) < CHARACTER_SLOTS {
            match &self.slots[slot as usize] {
                CharacterSlotState::Empty => true,
                CharacterSlotState::Occupied { .. } => false,
            }
        } else {
            false
        }
    }

    /// Whether the draft may be submitted; `name_valid` is the verdict of the
    /// character-name rules on the draft's current name.
    pub fn can_create(&self, name_valid: bool) -> (b: bool)
        ensures
            b == can_create_spec(self@, name_valid),
    {
        if self.creation == CreationState::Pending {
            return false;
        }
        match &self.draft {
            Some(draft) => {
                let slot = draft.slot;
                self.mode == (CharacterAreaMode::Creating { slot }) && self.slot_is_empty(slot)
                    && name_valid
            },
            None => false,
        }
    }

    fn cancel_creation(&mut self)
        ensures
            final(self)@ == cancel_creation_spec(old(self)@),
    {
        self.mode = CharacterAreaMode::Browsing;
        self.draft = None;
        self.creation = CreationState::Idle;
    }

    /// The selected slot, when browsing and it is empty.
    pub fn create_slot(&self) -> (s: Option<u8>)
        ensures
            s == create_slot_spec(self@),
    {
        match self.selected_slot {
            Some(slot) => if self.mode == CharacterAreaMode::Browsing && self.slot_is_empty(slot) {
                Some(slot)
            } else {
                None
            },
            None => None,
        }
    }
}

fn slot_from_roster(roster: &[CharacterSummary], i: usize) -> (s: CharacterSlotState)
    ensures
        slot_model(s) == roster_slot(roster_model(roster@), i as int),
{
    if i < roster.len() {
        CharacterSlotState::Occupied {
            character_id: roster[i].character_id,
            name: roster[i].display_name.clone(),
        }
    } else {
        CharacterSlotState::Empty
    }
}

fn roster_position(roster: &[CharacterSummary], id: u64) -> (p: Option<usize>)
    ensures
        match find_id(roster_model(roster@), id) {
            Some(i) => p is Some && p->0 as int == i && 0 <= i < roster@.len(),
            None => p is None,
        },
{
    let ghost r = roster_model(roster@);
    let mut i: usize = 0;
    while i < roster.len()
        invariant
            r == roster_model(roster@),
            i <= roster@.len(),
            find_id(r.take(i as int), id) is None,
        decreases roster@.len() - i,
    {
        assert(r.take(i + 1).drop_last() =~= r.take(i as int));
        if roster[i].character_id == id {
            proof {
                assert(r.take(i + 1).last() == r[i as int]);
                lemma_find_id_prefix(r, id, i + 1);
                assert(find_id(r.take(i + 1), id) == Some(i as int));
            }
            return Some(i);
        }
        i = i + 1;
    }
    assert(r.take(i as int) =~= r);
    None
}

proof fn lemma_find_id_prefix(r: Seq<(u64, Seq<char>)>, id: u64, k: int)
    requires
        0 <= k <= r.len(),
        find_id(r.take(k), id) is Some,
    ensures
        find_id(r, id) == find_id(r.take(k), id),
    decreases r.len() - k,
{
    if k < r.len() {
        assert(r.take(k + 1).drop_last() =~= r.take(k));
        lemma_find_id_prefix(r, id, k + 1);
    } else {
        assert(r.take(k) =~= r);
    }
}

proof fn lemma_find_name_prefix(r: Seq<(u64, Seq<char>)>, name: Seq<char>, k: int)
    requires
        0 <= k <= r.len(),
        find_name(r.take(k), name) is Some,
    ensures
        find_name(r, name) == find_name(r.take(k), name),
    decreases r.len() - k,
{
    if k < r.len() {
        assert(r.take(k + 1).drop_last() =~= r.take(k));
        lemma_find_name_prefix(r, name, k + 1);
    } else {
        assert(r.take(k) =~= r);
    }
}

fn roster_id_named(roster: &[CharacterSummary], name: &str) -> (id: Option<u64>)
    ensures
        id == find_name(roster_model(roster@), name@),
{
    let ghost r = roster_model(roster@);
    let mut i: usize = 0;
    while i < roster.len()
        invariant
            r == roster_model(roster@),
            i <= roster@.len(),
            find_name(r.take(i as int), name@) is None,
        decreases roster@.len() - i,
    {
        assert(r.take(i + 1).drop_last() =~= r.take(i as int));
        if str_eq(roster[i].display_name.as_str(), name) {
            proof {
                assert(r.take(i + 1).last() == r[i as int]);
                lemma_find_name_prefix(r, name@, i + 1);
            }
            return Some(roster[i].character_id);
        }
        i = i + 1;
    }
    assert(r.take(i as int) =~= r);
    None
}

// ---------------------------------------------------------------------------
// Navigation

/// Local frontend navigation: the visible stage, a travel target while the
/// camera moves, the local channel choice and the character area.
pub struct FrontendRuntime {
    pub session: FrontendSession,
    stage: FrontendStage,
    target: Option<FrontendStage>,
    // Zero-based local placeholder slot, never an authoritative identity.
    selected_channel: Option<u8>,
    pub character_area: CharacterArea,
}

pub struct RuntimeModel {
    pub session: FrontendSession,
    pub stage: FrontendStage,
    pub target: Option<FrontendStage>,
    pub selected_channel: Option<u8>,
    pub area: AreaModel,
}

impl View for FrontendRuntime {
    type V = RuntimeModel;

    closed spec fn view(&self) -> RuntimeModel {
        RuntimeModel {
            session: self.session,
            stage: self.stage,
            target: self.target,
            selected_channel: self.selected_channel,
            area: self.character_area@,
        }
    }
}

pub open spec fn initial_runtime() -> RuntimeModel {
    RuntimeModel {
        session: FrontendSession::Disconnected,
        stage: FrontendStage::Intro,
        target: None,
        selected_channel: None,
        area: empty_area(),
    }
}

/// No foreground is painted or accepts input during travel or Intro.
pub open spec fn visible_stage_spec(m: RuntimeModel) -> Option<FrontendStage> {
    if m.target is None && m.stage != FrontendStage::Intro {
        Some(m.stage)
    } else {
        None
    }
}

/// The selected slot when it holds a playable character.
pub open spec fn selected_character_spec(a: AreaModel) -> Option<u8> {
    match a.selected_slot {
        Some(slot) => if (slot as int) < CHARACTER_SLOTS && a.slots[slot as int] is Some {
            Some(slot)
        } else {
            None
        },
        None => None,
    }
}

/// Travel request: refused while a creation is pending, while travelling,
/// and to the current stage; otherwise it discards creation mode and asks
/// the camera for the stage's stop.
pub open spec fn request_spec(m: RuntimeModel, stage: FrontendStage) -> (RuntimeModel, Option<
    FrontendSceneStop,
>) {
    if m.area.creation == CreationState::Pending || m.target is Some || stage == m.stage {
        (m, None)
    } else {
        (
            RuntimeModel { target: Some(stage), area: cancel_creation_spec(m.area), ..m },
            Some(stage_stop(stage)),
        )
    }
}

pub open spec fn select_character_spec(m: RuntimeModel, slot: u8) -> RuntimeModel {
    RuntimeModel {
        area: AreaModel {
            selected_slot: Some(slot),
            selected_id: match m.area.slots[slot as int] {
                Some((id, _)) => Some(id),
                None => None,
            },
            ..m.area
        },
        ..m
    }
}

pub open spec fn begin_create_spec(m: RuntimeModel, slot: u8) -> RuntimeModel {
    if create_slot_spec(m.area) == Some(slot) {
        RuntimeModel {
            area: AreaModel {
                mode: CharacterAreaMode::Creating { slot },
                draft: Some((slot, Seq::empty())),
                ..m.area
            },
            ..m
        }
    } else {
        m
    }
}

/// What an action does, and the camera stop it asks for.
pub open spec fn act_spec(m: RuntimeModel, action: FrontendAction, name_valid: bool) -> (
    RuntimeModel,
    Option<FrontendSceneStop>,
) {
    if m.area.creation == CreationState::Pending || m.target is Some {
        (m, None)
    } else if m.stage == FrontendStage::CharacterSelect && m.area.mode is Creating {
        if action == FrontendAction::Back || action == FrontendAction::CancelCreation {
            (RuntimeModel { area: cancel_creation_spec(m.area), ..m }, None)
        } else if action == FrontendAction::CreateCharacter && can_create_spec(m.area, name_valid) {
            (
                RuntimeModel { area: AreaModel { creation: CreationState::Pending, ..m.area }, ..m },
                None,
            )
        } else {
            (m, None)
        }
    } else {
        match action {
            FrontendAction::ContinueFromLogin => if m.stage == FrontendStage::Login && m.session
                == FrontendSession::Ready {
                request_spec(m, FrontendStage::ChannelSelect)
            } else {
                (m, None)
            },
            FrontendAction::SelectChannel(slot) => if m.stage == FrontendStage::ChannelSelect
                && slot <= 1 {
                request_spec(
                    RuntimeModel { selected_channel: Some(slot), ..m },
                    FrontendStage::CharacterSelect,
                )
            } else {
                (m, None)
            },
            FrontendAction::SelectCharacter(slot) => if m.stage == FrontendStage::CharacterSelect
                && slot <= 2 {
                (select_character_spec(m, slot), None)
            } else {
                (m, None)
            },
            FrontendAction::BeginCreate(slot) => if m.stage == FrontendStage::CharacterSelect {
                (begin_create_spec(m, slot), None)
            } else {
                (m, None)
            },
            FrontendAction::Back => if m.stage == FrontendStage::CharacterSelect {
                request_spec(m, FrontendStage::ChannelSelect)
            } else if m.stage == FrontendStage::ChannelSelect {
                request_spec(m, FrontendStage::Login)
            } else {
                (m, None)
            },
            _ => (m, None),
        }
    }
}

/// The server's answer to a pending creation. Another session for the same
/// profile may have created earlier entries; the preserved draft name
/// identifies the accepted character.
pub open spec fn create_result_spec(a: AreaModel, result: CreateCharacterResult) -> AreaModel {
    if a.creation != CreationState::Pending {
        a
    } else {
        match result {
            CreateCharacterResult::Created { roster } => {
                let r = roster_model(roster@);
                let created = match a.draft {
                    Some((_, name)) => find_name(r, name),
                    None => None,
                };
                cancel_creation_spec(
                    replace_roster_spec(AreaModel { selected_id: created, ..a }, r),
                )
            },
            CreateCharacterResult::Rejected(reason) => AreaModel {
                creation: CreationState::Rejected(reason),
                ..a
            },
        }
    }
}

/// The camera reached the travel target: it becomes the stage.
pub open spec fn arrive_spec(m: RuntimeModel) -> RuntimeModel {
    match m.target {
        Some(t) => RuntimeModel { stage: t, target: None, ..m },
        None => m,
    }
}

impl FrontendRuntime {
    pub fn new() -> (r: Self)
        ensures
            r@ == initial_runtime(),
    {
        FrontendRuntime {
            session: FrontendSession::Disconnected,
            stage: FrontendStage::Intro,
            target: None,
            selected_channel: None,
            character_area: CharacterArea::new(),
        }
    }

    /// The stage the camera last arrived at.
    pub fn stage(&self) -> (s: FrontendStage)
        ensures
            s == self@.stage,
    {
        self.stage
    }

    /// The stage the camera is travelling to, if any.
    pub fn target(&self) -> (t: Option<FrontendStage>)
        ensures
            t == self@.target,
    {
        self.target
    }

    /// No foreground is painted or accepts input during travel (or during Intro).
    pub fn visible_stage(&self) -> (s: Option<FrontendStage>)
        ensures
            s == visible_stage_spec(self@),
    {
        if self.target.is_none() && self.stage != FrontendStage::Intro {
            Some(self.stage)
        } else {
            None
        }
    }

    pub fn selected_channel(&self) -> (c: Option<u8>)
        ensures
            c == self@.selected_channel,
    {
        self.selected_channel
    }

    pub fn selected_character(&self) -> (s: Option<u8>)
        ensures
            s == selected_character_spec(self@.area),
    {
        match self.character_area.selected_slot {
            Some(slot) => if (slot as usize) < CHARACTER_SLOTS {
                match &self.character_area.slots[slot as usize] {
                    CharacterSlotState::Occupied { .. } => Some(slot),
                    CharacterSlotState::Empty => None,
                }
            } else {
                None
            },
            None => None,
        }
    }

    /// Asks to travel to `stage`; returns the camera stop to travel to when
    /// the request is taken. Active transitions cannot be retargeted.
    pub fn request(&mut self, stage: FrontendStage) -> (stop: Option<FrontendSceneStop>)
        ensures
            (final(self)@, stop) == request_spec(old(self)@, stage),
    {
        if self.character_area.creation == CreationState::Pending || self.target.is_some() || stage
            == self.stage {
            return None;
        }
        self.target = Some(stage);
        self.character_area.cancel_creation();
        Some(stage.stop())
    }

    /// Applies a frontend action; `name_valid` is the verdict of the
    /// character-name rules on the current draft name.
    pub fn act(&mut self, action: FrontendAction, name_valid: bool) -> (stop: Option<FrontendSceneStop>)
        ensures
            (final(self)@, stop) == act_spec(old(self)@, action, name_valid),
    {
        if self.character_area.creation == CreationState::Pending || self.target.is_some() {
            return None;
        }
        if self.stage == FrontendStage::CharacterSelect && match self.character_area.mode {
            CharacterAreaMode::Creating { .. } => true,
            CharacterAreaMode::Browsing => false,
        } {
            if action == FrontendAction::Back || action == FrontendAction::CancelCreation {
                self.character_area.cancel_creation();
            } else if action == FrontendAction::CreateCharacter && self.character_area.can_create(
                name_valid,
            ) {
                self.character_area.creation = CreationState::Pending;
            }
            return None;
        }
        match action {
            FrontendAction::ContinueFromLogin => {
                if self.stage == FrontendStage::Login && self.session == FrontendSession::Ready {
                    self.request(FrontendStage::ChannelSelect)
                } else {
                    None
                }
            },
            FrontendAction::SelectChannel(slot) => {
                if self.stage == FrontendStage::ChannelSelect && slot <= 1 {
                    self.selected_channel = Some(slot);
                    self.request(FrontendStage::CharacterSelect)
                } else {
                    None
                }
            },
            FrontendAction::SelectCharacter(slot) => {
                if self.stage == FrontendStage::CharacterSelect && slot <= 2 {
                    self.character_area.selected_slot = Some(slot);
                    self.character_area.selected_id =
                        match &self.character_area.slots[slot as usize] {
                        CharacterSlotState::Occupied { character_id, .. } => Some(*character_id),
                        CharacterSlotState::Empty => None,
                    };
                }
                None
            },
            FrontendAction::BeginCreate(slot) => {
                if self.stage == FrontendStage::CharacterSelect {
                    if self.character_area.create_slot() == Some(slot) {
                        self.character_area.mode = CharacterAreaMode::Creating { slot };
                        self.character_area.draft = Some(
                            CharacterCreationDraft { slot, name: String::new() },
                        );
                    }
                }
                None
            },
            FrontendAction::Back => {
                if self.stage == FrontendStage::CharacterSelect {
                    self.request(FrontendStage::ChannelSelect)
                } else if self.stage == FrontendStage::ChannelSelect {
                    self.request(FrontendStage::Login)
                } else {
                    None
                }
            },
            _ => None,
        }
    }

    /// Replaces the slots with the authoritative roster, in order, keeping
    /// the selection on the same character id when it is still listed.
    pub fn replace_roster(&mut self, roster: &[CharacterSummary])
        ensures
            final(self)@ == (RuntimeModel {
                area: replace_roster_spec(old(self)@.area, roster_model(roster@)),
                ..old(self)@
            }),
    {
        let s0 = slot_from_roster(roster, 0);
        let s1 = slot_from_roster(roster, 1);
        let s2 = slot_from_roster(roster, 2);
        self.character_area.slots = [s0, s1, s2];
        let ghost expected = replace_roster_spec(old(self)@.area, roster_model(roster@));
        self.character_area.selected_slot = match self.character_area.selected_id {
            Some(id) => match roster_position(roster, id) {
                Some(i) => {
                    let b = #[verifier::truncate] (i as u8);
                    proof {
                        let k = find_id(roster_model(roster@), id)->0;
                        assert(k == i as int);
                        assert(b == k as u8);
                    }
                    Some(b)
                },
                None => None,
            },
            None => None,
        };
        assert(self.character_area.selected_slot == expected.selected_slot);
        if self.character_area.selected_slot.is_none() {
            self.character_area.selected_id = None;
        }
        proof {
            assert(self.character_area@.slots =~= seq![
                roster_slot(roster_model(roster@), 0),
                roster_slot(roster_model(roster@), 1),
                roster_slot(roster_model(roster@), 2),
            ]);
            assert(self.character_area@.slots =~= expected.slots);
        }
    }

    /// The server accepted the session: adopt its roster and travel on to
    /// channel selection.
    pub fn session_ready(&mut self, roster: &[CharacterSummary]) -> (stop: Option<FrontendSceneStop>)
        ensures
            (final(self)@, stop) == request_spec(
                (RuntimeModel {
                    session: FrontendSession::Ready,
                    area: replace_roster_spec(old(self)@.area, roster_model(roster@)),
                    ..old(self)@
                }),
                FrontendStage::ChannelSelect,
            ),
    {
        self.session = FrontendSession::Ready;
        self.replace_roster(roster);
        self.request(FrontendStage::ChannelSelect)
    }

    pub fn create_result(&mut self, result: &CreateCharacterResult)
        ensures
            final(self)@ == (RuntimeModel {
                area: create_result_spec(old(self)@.area, *result),
                ..old(self)@
            }),
    {
        if self.character_area.creation != CreationState::Pending {
            return;
        }
        match result {
            CreateCharacterResult::Created { roster } => {
                let created = match &self.character_area.draft {
                    Some(draft) => roster_id_named(roster.as_slice(), draft.name.as_str()),
                    None => None,
                };
                self.character_area.selected_id = created;
                self.replace_roster(roster.as_slice());
                self.character_area.cancel_creation();
            },
            CreateCharacterResult::Rejected(reason) => {
                self.character_area.creation = CreationState::Rejected(*reason);
            },
        }
    }

    /// The connection dropped: forget the session's roster and selections
    /// and travel back to login.
    pub fn disconnected(&mut self) -> (stop: FrontendSceneStop)
        ensures
            final(self)@ == (RuntimeModel {
                session: FrontendSession::Disconnected,
                target: Some(FrontendStage::Login),
                selected_channel: None,
                area: empty_area(),
                ..old(self)@
            }),
            stop == FrontendSceneStop::Login,
    {
        self.session = FrontendSession::Disconnected;
        self.character_area = CharacterArea::new();
        self.selected_channel = None;
        self.target = Some(FrontendStage::Login);
        FrontendSceneStop::Login
    }

    /// The camera reached the travel target's stop: the target becomes the
    /// stage. Returns whether a travel ended (the intro delay restarts then).
    pub fn arrive(&mut self) -> (arrived: bool)
        ensures
            arrived == old(self)@.target is Some,
            final(self)@ == arrive_spec(old(self)@),
    {
        match self.target {
            Some(target) => {
                self.stage = target;
                self.target = None;
                true
            },
            None => false,
        }
    }

    /// The intro delay counts only while resting on Intro.
    pub fn intro_timer_running(&self) -> (b: bool)
        ensures
            b == (self@.target is None && self@.stage == FrontendStage::Intro),
    {
        self.target.is_none() && self.stage == FrontendStage::Intro
    }
}

// ---------------------------------------------------------------------------
// Clickable controls

/// Where a control sits in the frontend layout; the caller owns the
/// geometry of each anchor.
#[derive(Clone, Copy, Debug, PartialEq, Eq, Structural)]
pub enum ControlAnchor {
    Username,
    Continue,
    Channel(u8),
    Back,
    /// A whole roster slot card.
    SlotArea(u8),
    /// The button row of a roster slot card.
    SlotButton(u8),
}

/// The live controls in hit-testing order (first match wins).
pub open spec fn controls_spec(m: RuntimeModel, login_valid: bool) -> Seq<(ControlAnchor, Control)> {
    match visible_stage_spec(m) {
        Some(FrontendStage::Login) => if login_valid {
            seq![
                (ControlAnchor::Username, Control::Username),
                (ControlAnchor::Continue, Control::Action(FrontendAction::ContinueFromLogin)),
            ]
        } else {
            seq![(ControlAnchor::Username, Control::Username)]
        },
        Some(FrontendStage::ChannelSelect) => seq![
            (ControlAnchor::Channel(0), Control::Action(FrontendAction::SelectChannel(0))),
            (ControlAnchor::Channel(1), Control::Action(FrontendAction::SelectChannel(1))),
            (ControlAnchor::Back, Control::Action(FrontendAction::Back)),
        ],
        Some(FrontendStage::CharacterSelect) => match m.area.mode {
            CharacterAreaMode::Creating { slot } => seq![
                (ControlAnchor::SlotButton(slot), Control::Action(FrontendAction::CancelCreation)),
                (ControlAnchor::Back, Control::Action(FrontendAction::Back)),
            ],
            CharacterAreaMode::Browsing => {
                let browse = seq![
                    (ControlAnchor::SlotArea(0), Control::Action(FrontendAction::SelectCharacter(0))),
                    (ControlAnchor::SlotArea(1), Control::Action(FrontendAction::SelectCharacter(1))),
                    (ControlAnchor::SlotArea(2), Control::Action(FrontendAction::SelectCharacter(2))),
                    (ControlAnchor::Back, Control::Action(FrontendAction::Back)),
                ];
                match create_slot_spec(m.area) {
                    // Create replaces the selected area's Select affordance and wins hit testing.
                    Some(slot) => seq![
                        (ControlAnchor::SlotButton(slot), Control::Action(FrontendAction::BeginCreate(slot))),
                    ] + browse,
                    None => browse,
                }
            },
        },
        _ => Seq::empty(),
    }
}

impl FrontendRuntime {
    /// The live controls in hit-testing order; `login_valid` is whether the
    /// current login passes the login rules.
    pub fn controls(&self, login_valid: bool) -> (c: Vec<(ControlAnchor, Control)>)
        ensures
            c@ == controls_spec(self@, login_valid),
    {
        let c = match self.visible_stage() {
            Some(FrontendStage::Login) => if login_valid {
                vec![
                    (ControlAnchor::Username, Control::Username),
                    (ControlAnchor::Continue, Control::Action(FrontendAction::ContinueFromLogin)),
                ]
            } else {
                vec![(ControlAnchor::Username, Control::Username)]
            },
            Some(FrontendStage::ChannelSelect) => vec![
                (ControlAnchor::Channel(0), Control::Action(FrontendAction::SelectChannel(0))),
                (ControlAnchor::Channel(1), Control::Action(FrontendAction::SelectChannel(1))),
                (ControlAnchor::Back, Control::Action(FrontendAction::Back)),
            ],
            Some(FrontendStage::CharacterSelect) => match self.character_area.mode {
                CharacterAreaMode::Creating { slot } => vec![
                    (ControlAnchor::SlotButton(slot), Control::Action(FrontendAction::CancelCreation)),
                    (ControlAnchor::Back, Control::Action(FrontendAction::Back)),
                ],
                CharacterAreaMode::Browsing => {
                    let mut v: Vec<(ControlAnchor, Control)> = Vec::new();
                    match self.character_area.create_slot() {
                        Some(slot) => {
                            v.push(
                                (
                                    ControlAnchor::SlotButton(slot),
                                    Control::Action(FrontendAction::BeginCreate(slot)),
                                ),
                            );
                        },
                        None => {},
                    }
                    v.push((ControlAnchor::SlotArea(0), Control::Action(FrontendAction::SelectCharacter(0))));
                    v.push((ControlAnchor::SlotArea(1), Control::Action(FrontendAction::SelectCharacter(1))));
                    v.push((ControlAnchor::SlotArea(2), Control::Action(FrontendAction::SelectCharacter(2))));
                    v.push((ControlAnchor::Back, Control::Action(FrontendAction::Back)));
                    v
                },
            },
            _ => Vec::new(),
        };
        proof {
            assert(c@ =~= controls_spec(self@, login_valid));
        }
        c
    }
}

// ---------------------------------------------------------------------------
// Laws of navigation

/// Creation mode and the draft go together; a pending creation is always
/// in creation mode; there are three slots.
pub open spec fn area_wf(a: AreaModel) -> bool {
    &&& a.slots.len() == CHARACTER_SLOTS
    &&& match a.mode {
        CharacterAreaMode::Browsing => a.draft is None,
        CharacterAreaMode::Creating { slot } => match a.draft {
            Some((s, _)) => s == slot,
            None => false,
        },
    }
    &&& a.creation == CreationState::Pending ==> a.mode is Creating
}

pub open spec fn runtime_wf(m: RuntimeModel) -> bool {
    &&& area_wf(m.area)
    &&& m.selected_channel is Some ==> m.selected_channel->0 <= 1
}

/// Every navigation step keeps the frontend well formed, starting from the
/// initial state.
pub proof fn lemma_navigation_keeps_wf(
    m: RuntimeModel,
    action: FrontendAction,
    name_valid: bool,
    stage: FrontendStage,
    roster: Seq<(u64, Seq<char>)>,
    result: CreateCharacterResult,
)
    requires
        runtime_wf(m),
    ensures
        runtime_wf(initial_runtime()),
        runtime_wf(act_spec(m, action, name_valid).0),
        runtime_wf(request_spec(m, stage).0),
        runtime_wf(arrive_spec(m)),
        area_wf(replace_roster_spec(m.area, roster)),
        area_wf(create_result_spec(m.area, result)),
{
    assert(area_wf(replace_roster_spec(m.area, roster)));
    match result {
        CreateCharacterResult::Created { roster: r } => {
            let rm = roster_model(r@);
            let a = m.area;
            if a.creation == CreationState::Pending {
                let created = match a.draft {
                    Some((_, name)) => find_name(rm, name),
                    None => None,
                };
                assert(area_wf(cancel_creation_spec(replace_roster_spec(AreaModel { selected_id: created, ..a }, rm))));
            }
        },
        CreateCharacterResult::Rejected(_) => {},
    }
}

/// While the camera travels, or while a creation awaits the server, no
/// action or travel request changes anything; nothing is visible or
/// clickable during travel.
pub proof fn lemma_locked_input_is_inert(
    m: RuntimeModel,
    action: FrontendAction,
    name_valid: bool,
    stage: FrontendStage,
    login_valid: bool,
)
    requires
        m.target is Some || m.area.creation == CreationState::Pending,
    ensures
        act_spec(m, action, name_valid) == (m, Option::<FrontendSceneStop>::None),
        request_spec(m, stage) == (m, Option::<FrontendSceneStop>::None),
        m.target is Some ==> visible_stage_spec(m) is None,
        m.target is Some ==> controls_spec(m, login_valid).len() == 0,
{
}

/// Actions never change the roster: only the server's answers do.
pub proof fn lemma_actions_keep_roster(m: RuntimeModel, action: FrontendAction, name_valid: bool)
    ensures
        act_spec(m, action, name_valid).0.area.slots == m.area.slots,
        act_spec(m, action, name_valid).0.session == m.session,
{
}

/// Local selections persist through forward and back: choosing a channel,
/// arriving, going back and arriving again returns to channel selection
/// with the channel still chosen and the character selection untouched.
pub proof fn lemma_channel_round_trip(m: RuntimeModel, channel: u8, name_valid: bool)
    requires
        m.stage == FrontendStage::ChannelSelect,
        m.target is None,
        m.area.creation != CreationState::Pending,
        channel <= 1,
    ensures
        ({
            let (m1, s1) = act_spec(m, FrontendAction::SelectChannel(channel), name_valid);
            let m2 = arrive_spec(m1);
            let (m3, s3) = act_spec(m2, FrontendAction::Back, name_valid);
            let m4 = arrive_spec(m3);
            &&& s1 == Some(FrontendSceneStop::Character)
            &&& visible_stage_spec(m2) == Some(FrontendStage::CharacterSelect)
            &&& s3 == Some(FrontendSceneStop::Channel)
            &&& visible_stage_spec(m4) == Some(FrontendStage::ChannelSelect)
            &&& m4.selected_channel == Some(channel)
            &&& m4.area.selected_slot == m.area.selected_slot
            &&& m4.area.selected_id == m.area.selected_id
        }),
{
}

// ---------------------------------------------------------------------------
// Frontend captions

/// The login field as shown: with a caret while focused, a prompt while
/// empty and unfocused, else the login itself.
pub open spec fn login_field_spec(focused: bool, login: Seq<char>) -> Seq<char> {
    if focused {
        login.push('|')
    } else if login.len() == 0 {
        "Click to enter username"@
    } else {
        login
    }
}

pub fn login_field_text(focused: bool, login: &str) -> (s: String)
    ensures
        s@ == login_field_spec(focused, login@),
{
    if focused {
        let mut s = owned(login);
        push_char(&mut s, '|');
        s
    } else if login.is_empty() {
        owned("Click to enter username")
    } else {
        owned(login)
    }
}

/// The hint under the login field, chosen by whether the login is valid.
pub open spec fn login_hint_spec(login_valid: bool) -> Seq<char> {
    if login_valid {
        "Local preview — no authentication"@
    } else {
        "2–32: a–z, 0–9, _ or .\nNo leading, trailing or consecutive dots"@
    }
}

pub fn login_hint(login_valid: bool) -> (s: &'static str)
    ensures
        s@ == login_hint_spec(login_valid),
{
    if login_valid {
        "Local preview — no authentication"
    } else {
        "2–32: a–z, 0–9, _ or .\nNo leading, trailing or consecutive dots"
    }
}

/// A character slot's name line, status line and selection line.
pub open spec fn slot_captions_spec(slot: Option<(u64, Seq<char>)>, selected: bool) -> (
    Seq<char>,
    Seq<char>,
    Seq<char>,
) {
    (
        match slot {
            None => "EMPTY"@,
            Some((_, name)) => name,
        },
        match slot {
            None => "NEW CHARACTER"@,
            Some(_) => "LOCAL PLACEHOLDER"@,
        },
        if selected {
            "SELECTED"@
        } else {
            ""@
        },
    )
}

pub fn slot_captions(slot: &CharacterSlotState, selected: bool) -> (c: (String, &'static str, &'static str))
    ensures
        (c.0@, c.1@, c.2@) == slot_captions_spec(slot_model(*slot), selected),
{
    let selected_line = if selected {
        "SELECTED"
    } else {
        ""
    };
    match slot {
        CharacterSlotState::Empty => (owned("EMPTY"), "NEW CHARACTER", selected_line),
        CharacterSlotState::Occupied { name, .. } => (
            owned(name.as_str()),
            "LOCAL PLACEHOLDER",
            selected_line,
        ),
    }
}

/// The caption on a frontend button; the frame draws none for character
/// creation's confirm action.
pub open spec fn control_caption_spec(m: RuntimeModel, action: FrontendAction) -> Option<Seq<char>> {
    match action {
        FrontendAction::ContinueFromLogin => Some("CONTINUE"@),
        FrontendAction::SelectChannel(slot) => Some(
            "Channel "@ + decimal(slot as nat + 1) + if m.selected_channel == Some(slot) {
                "  • SELECTED"@
            } else {
                ""@
            },
        ),
        FrontendAction::SelectCharacter(slot) => Some(
            if selected_character_spec(m.area) == Some(slot) {
                "SELECTED"@
            } else {
                "SELECT"@
            },
        ),
        FrontendAction::BeginCreate(_) => Some("CREATE NEW CHARACTER"@),
        FrontendAction::CancelCreation => Some("CANCEL"@),
        FrontendAction::CreateCharacter => None,
        FrontendAction::Back => Some("BACK"@),
    }
}

impl FrontendRuntime {
    /// The caption of the button for `action` in the current state.
    pub fn control_caption(&self, action: FrontendAction) -> (c: Option<String>)
        ensures
            match control_caption_spec(self@, action) {
                Some(t) => c is Some && c->0@ == t,
                None => c is None,
            },
    {
        match action {
            FrontendAction::ContinueFromLogin => Some(owned("CONTINUE")),
            FrontendAction::SelectChannel(slot) => {
                let mut s = owned("Channel ");
                append_decimal(&mut s, slot as u64 + 1);
                if self.selected_channel() == Some(slot) {
                    append_str(&mut s, "  • SELECTED");
                } else {
                    append_str(&mut s, "");
                }
                Some(s)
            },
            FrontendAction::SelectCharacter(slot) => {
                if self.selected_character() == Some(slot) {
                    Some(owned("SELECTED"))
                } else {
                    Some(owned("SELECT"))
                }
            },
            FrontendAction::BeginCreate(_) => Some(owned("CREATE NEW CHARACTER")),
            FrontendAction::CancelCreation => Some(owned("CANCEL")),
            FrontendAction::CreateCharacter => None,
            FrontendAction::Back => Some(owned("BACK")),
        }
    }
}

proof fn lemma_append_line_adds_accepted(
    value: Seq<char>,
    text: Seq<char>,
    max_bytes: nat,
    accepts: spec_fn(char) -> bool,
)
    ensures
        ({
            let r = append_line_spec(value, text, max_bytes, accepts);
            &&& r.len() >= value.len()
            &&& r.take(value.len() as int) == value
            &&& forall|i: int| value.len() <= i < r.len() ==> accepts(#[trigger] r[i])
        }),
    decreases text.len(),
{
    if text.len() > 0 {
        lemma_append_line_adds_accepted(value, text.drop_last(), max_bytes, accepts);
        let v = append_line_spec(value, text.drop_last(), max_bytes, accepts);
        let c = text.last();
        if !is_control_spec(c) && accepts(c) && utf8_len(v) + utf8_width(c) <= max_bytes {
            assert(v.push(c).take(value.len() as int) =~= v.take(value.len() as int));
            assert forall|i: int| value.len() <= i < v.push(c).len() implies accepts(
                #[trigger] v.push(c)[i],
            ) by {
                if i < v.len() {
                    assert(v.push(c)[i] == v[i]);
                }
            }
        }
    }
}

/// A key never puts anything but a login character into the login: after
/// any key, the login either lost characters from its end (it is a prefix of
/// what it was) or kept what it was and gained only lowercase ASCII letters,
/// digits, `_` and `.`.
pub proof fn lemma_login_gains_only_login_characters(
    focused: bool,
    visible: Option<FrontendStage>,
    login: Seq<char>,
    key: FrontendKey,
    text: Option<Seq<char>>,
    repeat: bool,
    login_valid: bool,
    max_bytes: nat,
)
    ensures
        ({
            let l = key_spec(focused, visible, login, key, text, repeat, login_valid, max_bytes).1;
            &&& l.len() <= login.len() ==> l == login.take(l.len() as int)
            &&& l.len() > login.len() ==> l.take(login.len() as int) == login
            &&& forall|i: int|
                login.len() <= i < l.len() ==> {
                    let c = #[trigger] l[i];
                    ('a' <= c && c <= 'z') || ('0' <= c && c <= '9') || c == '_' || c == '.'
                }
        }),
{
    let l = key_spec(focused, visible, login, key, text, repeat, login_valid, max_bytes).1;
    assert(login.take(login.len() as int) =~= login);
    if login.len() > 0 {
        assert(login.drop_last() =~= login.take(login.len() - 1));
    }
    match text {
        Some(t) => {
            lemma_append_line_adds_accepted(login, t, max_bytes, |c: char| login_char(c));
        },
        None => {},
    }
}

} // verus!
