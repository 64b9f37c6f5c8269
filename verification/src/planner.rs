//! The planning state and its undo history.

use vstd::prelude::*;
use vstd::string::StringExecFns;
use crate::api::{loaded_pairings, pairings_from_plan, PlanData, PositionData};
use crate::grid::{meters_to_px, px_to_meters, x_metres, x_pixels, y_metres, y_pixels};
use crate::units::{in_domain, is_in_domain};
use crate::map_view::{PlacementMode, SelectedMarker};

verus! {

/// Most snapshots that the undo stack keeps.
pub const UNDO_LIMIT: usize = 50;

/// The planning state: every placed marker, the weapon and the paired target of each gun,
/// and the wind. Positions are in thousandths of a map-image pixel. The weapon and pairing
/// lists run parallel to the gun list.
#[derive(Debug)]
pub struct PlanSnapshot {
    pub gun_positions: Vec<(i64, i64)>,
    pub target_positions: Vec<(i64, i64)>,
    pub spotter_positions: Vec<(i64, i64)>,
    pub gun_weapon_ids: Vec<String>,
    pub gun_target_indices: Vec<Option<usize>>,
    pub wind_direction: Option<i64>,
    pub wind_strength: u32,
}

/// What a [`PlanSnapshot`] holds, as mathematical sequences.
pub ghost struct PlanModel {
    pub guns: Seq<(i64, i64)>,
    pub targets: Seq<(i64, i64)>,
    pub spotters: Seq<(i64, i64)>,
    pub weapons: Seq<Seq<char>>,
    pub pairings: Seq<Option<usize>>,
    pub wind_direction: Option<i64>,
    pub wind_strength: u32,
}

/// The characters of each string of `ids`.
pub open spec fn id_chars(ids: Seq<String>) -> Seq<Seq<char>> {
    Seq::new(ids.len(), |i: int| ids[i]@)
}

impl View for PlanSnapshot {
    type V = PlanModel;

    open spec fn view(&self) -> PlanModel {
        PlanModel {
            guns: self.gun_positions@,
            targets: self.target_positions@,
            spotters: self.spotter_positions@,
            weapons: id_chars(self.gun_weapon_ids@),
            pairings: self.gun_target_indices@,
            wind_direction: self.wind_direction,
            wind_strength: self.wind_strength,
        }
    }
}

impl PlanModel {
    /// The state with no marker and no wind.
    pub open spec fn empty() -> PlanModel {
        PlanModel {
            guns: Seq::empty(),
            targets: Seq::empty(),
            spotters: Seq::empty(),
            weapons: Seq::empty(),
            pairings: Seq::empty(),
            wind_direction: None,
            wind_strength: 0,
        }
    }

    /// Every gun has its weapon entry and its pairing entry.
    pub open spec fn wf(self) -> bool {
        self.weapons.len() == self.guns.len() && self.pairings.len() == self.guns.len()
    }
}

/// A copy of a list of points.
pub fn copy_points(points: &Vec<(i64, i64)>) -> (out: Vec<(i64, i64)>)
    ensures
        out@ == points@,
{
    let mut out: Vec<(i64, i64)> = Vec::new();
    let mut i: usize = 0;
    while i < points.len()
        invariant
            i <= points.len(),
            out@ == points@.subrange(0, i as int),
        decreases points.len() - i,
    {
        out.push(points[i]);
        i += 1;
        assert(out@ =~= points@.subrange(0, i as int));
    }
    assert(points@.subrange(0, points.len() as int) =~= points@);
    out
}

/// A copy of a list of pairings.
pub fn copy_pairings(pairings: &Vec<Option<usize>>) -> (out: Vec<Option<usize>>)
    ensures
        out@ == pairings@,
{
    let mut out: Vec<Option<usize>> = Vec::new();
    let mut i: usize = 0;
    while i < pairings.len()
        invariant
            i <= pairings.len(),
            out@ == pairings@.subrange(0, i as int),
        decreases pairings.len() - i,
    {
        out.push(pairings[i]);
        i += 1;
        assert(out@ =~= pairings@.subrange(0, i as int));
    }
    assert(pairings@.subrange(0, pairings.len() as int) =~= pairings@);
    out
}

/// A copy of a list of identifiers.
pub fn copy_ids(ids: &Vec<String>) -> (out: Vec<String>)
    ensures
        id_chars(out@) == id_chars(ids@),
{
    let mut out: Vec<String> = Vec::new();
    let mut i: usize = 0;
    while i < ids.len()
        invariant
            i <= ids.len(),
            out@.len() == i,
            forall|j: int| 0 <= j < i ==> out@[j]@ == ids@[j]@,
        decreases ids.len() - i,
    {
        out.push(ids[i].clone());
        i += 1;
    }
    assert(id_chars(out@) =~= id_chars(ids@));
    out
}

impl Clone for PlanSnapshot {
    fn clone(&self) -> (out: Self)
        ensures
            out@ == self@,
    {
        PlanSnapshot {
            gun_positions: copy_points(&self.gun_positions),
            target_positions: copy_points(&self.target_positions),
            spotter_positions: copy_points(&self.spotter_positions),
            gun_weapon_ids: copy_ids(&self.gun_weapon_ids),
            gun_target_indices: copy_pairings(&self.gun_target_indices),
            wind_direction: self.wind_direction,
            wind_strength: self.wind_strength,
        }
    }
}

impl PlanSnapshot {
    /// The state with no marker and no wind.
    pub fn new() -> (out: Self)
        ensures
            out@ == PlanModel::empty(),
    {
        let out = PlanSnapshot {
            gun_positions: Vec::new(),
            target_positions: Vec::new(),
            spotter_positions: Vec::new(),
            gun_weapon_ids: Vec::new(),
            gun_target_indices: Vec::new(),
            wind_direction: None,
            wind_strength: 0,
        };
        assert(id_chars(out.gun_weapon_ids@) =~= Seq::<Seq<char>>::empty());
        out
    }
}

/// The state of each snapshot of a stack, oldest first.
pub open spec fn stack_view(stack: Seq<PlanSnapshot>) -> Seq<PlanModel> {
    Seq::new(stack.len(), |i: int| stack[i]@)
}

/// The undo stack after `snapshot` was pushed: where that makes more than
/// [`UNDO_LIMIT`] entries, the oldest one leaves.
pub open spec fn pushed_capped(stack: Seq<PlanModel>, snapshot: PlanModel) -> Seq<PlanModel> {
    if stack.len() + 1 > UNDO_LIMIT {
        stack.push(snapshot).remove(0)
    } else {
        stack.push(snapshot)
    }
}

/// A push on an undo stack within its limit keeps it within the limit and puts the
/// snapshot on top. A full stack loses its oldest snapshot and keeps the others in order.
pub proof fn lemma_push_evicts_oldest(stack: Seq<PlanModel>, snapshot: PlanModel)
    requires
        stack.len() <= UNDO_LIMIT,
    ensures
        pushed_capped(stack, snapshot).len() <= UNDO_LIMIT,
        pushed_capped(stack, snapshot).last() == snapshot,
        stack.len() < UNDO_LIMIT ==> pushed_capped(stack, snapshot) == stack.push(snapshot),
        stack.len() == UNDO_LIMIT ==> pushed_capped(stack, snapshot) == stack.subrange(
            1,
            UNDO_LIMIT as int,
        ).push(snapshot),
{
    if stack.len() == UNDO_LIMIT {
        assert(stack.push(snapshot).remove(0) =~= stack.subrange(1, UNDO_LIMIT as int).push(
            snapshot,
        ));
    }
}

/// Saving for undo after a step back leaves nothing to redo.
pub proof fn lemma_save_after_undo_clears_redo(m: PlannerModel)
    ensures
        m.undone().saved().redo.len() == 0,
        m.undone().saved().redone() == m.undone().saved(),
{
}

/// A step back followed by a step forward restores the live state and both stacks.
pub proof fn lemma_redo_reverts_undo(m: PlannerModel)
    requires
        m.undo.len() > 0,
    ensures
        m.undone().redone().plan == m.plan,
        m.undone().redone().undo == m.undo,
        m.undone().redone().redo == m.redo,
{
    assert(m.undo.drop_last().push(m.undo.last()) =~= m.undo);
    assert(m.redo.push(m.plan).drop_last() =~= m.redo);
}

/// Saving for undo and stepping back restores the state that was saved.
pub proof fn lemma_undo_reverts_save(m: PlannerModel, changed: PlanModel)
    ensures
        (PlannerModel { plan: changed, ..m.saved() }).undone().plan == m.plan,
{
}

/// Saving, stepping back and stepping forward keep the history within its limit.
pub proof fn lemma_history_stays_bounded(m: PlannerModel)
    requires
        m.wf(),
    ensures
        m.saved().wf(),
        m.undone().wf(),
        m.redone().wf(),
        m.saved().undo.len() <= UNDO_LIMIT,
        m.undone().undo.len() <= UNDO_LIMIT,
        m.redone().undo.len() <= UNDO_LIMIT,
{
}

/// A copy of the planning state.
pub fn capture_snapshot(plan: &PlanSnapshot) -> (snapshot: PlanSnapshot)
    ensures
        snapshot@ == plan@,
{
    plan.clone()
}

/// Makes `plan` a copy of `snapshot`.
pub fn restore_snapshot(snapshot: &PlanSnapshot, plan: &mut PlanSnapshot)
    ensures
        final(plan)@ == snapshot@,
{
    *plan = snapshot.clone();
}

/// Pushes `snapshot` on the undo stack and empties the redo stack. Where the undo stack
/// then holds more than [`UNDO_LIMIT`] snapshots, its oldest one leaves.
pub fn push_undo(
    undo_stack: &mut Vec<PlanSnapshot>,
    redo_stack: &mut Vec<PlanSnapshot>,
    snapshot: PlanSnapshot,
)
    ensures
        stack_view(final(undo_stack)@) == pushed_capped(stack_view(old(undo_stack)@), snapshot@),
        final(redo_stack)@.len() == 0,
        old(undo_stack)@.len() <= UNDO_LIMIT ==> final(undo_stack)@.len() <= UNDO_LIMIT,
{
    undo_stack.push(snapshot);
    assert(stack_view(undo_stack@) =~= stack_view(old(undo_stack)@).push(snapshot@));
    if undo_stack.len() > UNDO_LIMIT {
        let ghost before = undo_stack@;
        undo_stack.remove(0);
        assert(stack_view(undo_stack@) =~= stack_view(before).remove(0));
    }
    redo_stack.clear();
}

/// A planning session: the live state, what the next click does, and the history.
pub struct Planner {
    pub plan: PlanSnapshot,
    pub placement_mode: PlacementMode,
    pub selected_marker: Option<SelectedMarker>,
    pub selected_weapon: String,
    pub undo_stack: Vec<PlanSnapshot>,
    pub redo_stack: Vec<PlanSnapshot>,
    pub show_help: bool,
    pub reset_view_counter: u64,
}

/// What a [`Planner`] holds, as mathematical values.
pub ghost struct PlannerModel {
    pub plan: PlanModel,
    pub mode: PlacementMode,
    pub selected: Option<SelectedMarker>,
    pub weapon: Seq<char>,
    pub undo: Seq<PlanModel>,
    pub redo: Seq<PlanModel>,
    pub show_help: bool,
    pub reset_view_counter: u64,
}

impl View for Planner {
    type V = PlannerModel;

    open spec fn view(&self) -> PlannerModel {
        PlannerModel {
            plan: self.plan@,
            mode: self.placement_mode,
            selected: self.selected_marker,
            weapon: self.selected_weapon@,
            undo: stack_view(self.undo_stack@),
            redo: stack_view(self.redo_stack@),
            show_help: self.show_help,
            reset_view_counter: self.reset_view_counter,
        }
    }
}

impl PlannerModel {
    /// A session with no marker, no wind, no active weapon and an empty history, about
    /// to place a gun.
    pub open spec fn initial() -> PlannerModel {
        PlannerModel {
            plan: PlanModel::empty(),
            mode: PlacementMode::Gun,
            selected: None,
            weapon: Seq::empty(),
            undo: Seq::empty(),
            redo: Seq::empty(),
            show_help: false,
            reset_view_counter: 0,
        }
    }

    /// The history holds at most [`UNDO_LIMIT`] snapshots, both stacks together.
    pub open spec fn wf(self) -> bool {
        self.undo.len() + self.redo.len() <= UNDO_LIMIT
    }

    /// The session after the live state was saved for undo.
    pub open spec fn saved(self) -> PlannerModel {
        PlannerModel { undo: pushed_capped(self.undo, self.plan), redo: Seq::empty(), ..self }
    }

    /// The session after one step back: the newest undo snapshot becomes the live state,
    /// the live state goes on the redo stack, and nothing is selected. With an empty undo
    /// stack the session stays as it is.
    pub open spec fn undone(self) -> PlannerModel {
        if self.undo.len() == 0 {
            self
        } else {
            PlannerModel {
                plan: self.undo.last(),
                undo: self.undo.drop_last(),
                redo: self.redo.push(self.plan),
                selected: None,
                ..self
            }
        }
    }

    /// The session after one step forward again, the mirror of [`Self::undone`].
    pub open spec fn redone(self) -> PlannerModel {
        if self.redo.len() == 0 {
            self
        } else {
            PlannerModel {
                plan: self.redo.last(),
                redo: self.redo.drop_last(),
                undo: self.undo.push(self.plan),
                selected: None,
                ..self
            }
        }
    }
}

impl Planner {
    /// A session with no marker, an empty history, and gun placement as its mode.
    pub fn new() -> (out: Self)
        ensures
            out@ == PlannerModel::initial(),
            out@.wf(),
    {
        let out = Planner {
            plan: PlanSnapshot::new(),
            placement_mode: PlacementMode::Gun,
            selected_marker: None,
            selected_weapon: String::new(),
            undo_stack: Vec::new(),
            redo_stack: Vec::new(),
            show_help: false,
            reset_view_counter: 0,
        };
        assert(out@.weapon =~= Seq::<char>::empty());
        assert(out@.undo =~= Seq::<PlanModel>::empty());
        assert(out@.redo =~= Seq::<PlanModel>::empty());
        out
    }

    /// Saves the live state for undo, which empties the redo stack.
    pub fn push_snapshot(&mut self)
        ensures
            final(self)@ == old(self)@.saved(),
            old(self)@.undo.len() <= UNDO_LIMIT ==> final(self)@.wf(),
    {
        let snapshot = capture_snapshot(&self.plan);
        push_undo(&mut self.undo_stack, &mut self.redo_stack, snapshot);
        assert(stack_view(self.redo_stack@) =~= Seq::<PlanModel>::empty());
    }

    /// Steps back to the newest undo snapshot. Returns whether there was one.
    pub fn undo(&mut self) -> (done: bool)
        ensures
            done == (old(self)@.undo.len() > 0),
            final(self)@ == old(self)@.undone(),
            old(self)@.wf() ==> final(self)@.wf(),
    {
        match self.undo_stack.pop() {
            Some(snapshot) => {
                assert(stack_view(self.undo_stack@) =~= old(self)@.undo.drop_last());
                let current = capture_snapshot(&self.plan);
                self.redo_stack.push(current);
                assert(stack_view(self.redo_stack@) =~= old(self)@.redo.push(old(self)@.plan));
                self.plan = snapshot;
                self.selected_marker = None;
                true
            },
            None => false,
        }
    }

    /// Steps forward to the newest redo snapshot. Returns whether there was one.
    pub fn redo(&mut self) -> (done: bool)
        ensures
            done == (old(self)@.redo.len() > 0),
            final(self)@ == old(self)@.redone(),
            old(self)@.wf() ==> final(self)@.wf(),
    {
        match self.redo_stack.pop() {
            Some(snapshot) => {
                assert(stack_view(self.redo_stack@) =~= old(self)@.redo.drop_last());
                let current = capture_snapshot(&self.plan);
                self.undo_stack.push(current);
                assert(stack_view(self.undo_stack@) =~= old(self)@.undo.push(old(self)@.plan));
                self.plan = snapshot;
                self.selected_marker = None;
                true
            },
            None => false,
        }
    }
}

/// The target that gun `gun` is paired with: its pairing where that names one of the
/// `target_count` targets. A gun without an entry, without a pairing, or with a pairing
/// that names no target counts as unpaired.
pub open spec fn target_of(pairings: Seq<Option<usize>>, gun: int, target_count: int) -> Option<
    usize,
> {
    if 0 <= gun < pairings.len() {
        match pairings[gun] {
            Some(t) => if t < target_count {
                Some(t)
            } else {
                None
            },
            None => None,
        }
    } else {
        None
    }
}

/// The target for which gun `gun` needs a firing solution: the target it is paired
/// with, where the gun has a weapon.
pub open spec fn solution_target(plan: PlanModel, gun: int) -> Option<usize> {
    if 0 <= gun < plan.weapons.len() && plan.weapons[gun].len() > 0 {
        target_of(plan.pairings, gun, plan.targets.len() as int)
    } else {
        None
    }
}

/// The target that gun `gun` is paired with, read defensively.
pub fn paired_target(pairings: &Vec<Option<usize>>, gun: usize, target_count: usize) -> (target:
    Option<usize>)
    ensures
        target == target_of(pairings@, gun as int, target_count as int),
{
    if gun < pairings.len() {
        match pairings[gun] {
            Some(t) => {
                if t < target_count {
                    Some(t)
                } else {
                    None
                }
            },
            None => None,
        }
    } else {
        None
    }
}

/// The end points of the firing lines to draw: for each gun with a paired target, in
/// the order of the guns, the gun's index and the target's.
pub open spec fn firing_pairs(plan: PlanModel, upto: int) -> Seq<(usize, usize)>
    decreases upto,
{
    if upto <= 0 {
        Seq::empty()
    } else {
        match target_of(plan.pairings, upto - 1, plan.targets.len() as int) {
            Some(t) => firing_pairs(plan, upto - 1).push(((upto - 1) as usize, t)),
            None => firing_pairs(plan, upto - 1),
        }
    }
}

/// A key of the keyboard, as far as the planner tells keys apart.
#[derive(Debug, Clone, Copy, PartialEq, Eq, Structural)]
pub enum Key {
    Character(char),
    Delete,
    Backspace,
    Escape,
    Other,
}

/// What a key press asks for.
#[derive(Debug, Clone, Copy, PartialEq, Eq, Structural)]
pub enum KeyAction {
    Nothing,
    BlurInput,
    Undo,
    Redo,
    SetMode(PlacementMode),
    ToggleHelp,
    DeleteSelected,
    ResetView,
    Dismiss,
}

/// What a key press asks for. While an input field has the focus only Escape acts, by
/// taking the focus away. Otherwise: `z` with Control or Command steps back, and forward
/// with Shift as well; `1` or `g`, `2` or `t`, `3` or `s` choose what to place; `h` or
/// `?` shows or hides the help; Delete or Backspace removes the selected marker; `r`
/// resets the view; Escape closes the help or clears the selection.
pub open spec fn action_of(key: Key, ctrl_or_cmd: bool, shift: bool, input_focused: bool) -> KeyAction {
    if input_focused {
        if key == Key::Escape {
            KeyAction::BlurInput
        } else {
            KeyAction::Nothing
        }
    } else {
        match key {
            Key::Character(c) => if c == 'z' && ctrl_or_cmd && !shift {
                KeyAction::Undo
            } else if (c == 'Z' || c == 'z') && ctrl_or_cmd && shift {
                KeyAction::Redo
            } else if c == '1' || c == 'g' {
                KeyAction::SetMode(PlacementMode::Gun)
            } else if c == '2' || c == 't' {
                KeyAction::SetMode(PlacementMode::Target)
            } else if c == '3' || c == 's' {
                KeyAction::SetMode(PlacementMode::Spotter)
            } else if c == 'h' || c == '?' {
                KeyAction::ToggleHelp
            } else if c == 'r' {
                KeyAction::ResetView
            } else {
                KeyAction::Nothing
            },
            Key::Delete => KeyAction::DeleteSelected,
            Key::Backspace => KeyAction::DeleteSelected,
            Key::Escape => KeyAction::Dismiss,
            Key::Other => KeyAction::Nothing,
        }
    }
}

/// What a key press asks for.
pub fn key_action(key: Key, ctrl_or_cmd: bool, shift: bool, input_focused: bool) -> (action:
    KeyAction)
    ensures
        action == action_of(key, ctrl_or_cmd, shift, input_focused),
{
    if input_focused {
        return match key {
            Key::Escape => KeyAction::BlurInput,
            _ => KeyAction::Nothing,
        };
    }
    match key {
        Key::Character(c) => {
            if c == 'z' && ctrl_or_cmd && !shift {
                KeyAction::Undo
            } else if (c == 'Z' || c == 'z') && ctrl_or_cmd && shift {
                KeyAction::Redo
            } else if c == '1' || c == 'g' {
                KeyAction::SetMode(PlacementMode::Gun)
            } else if c == '2' || c == 't' {
                KeyAction::SetMode(PlacementMode::Target)
            } else if c == '3' || c == 's' {
                KeyAction::SetMode(PlacementMode::Spotter)
            } else if c == 'h' || c == '?' {
                KeyAction::ToggleHelp
            } else if c == 'r' {
                KeyAction::ResetView
            } else {
                KeyAction::Nothing
            }
        },
        Key::Delete => KeyAction::DeleteSelected,
        Key::Backspace => KeyAction::DeleteSelected,
        Key::Escape => KeyAction::Dismiss,
        Key::Other => KeyAction::Nothing,
    }
}

impl PlannerModel {
    /// The session after another map was chosen: the live state is saved for undo, then
    /// every marker leaves and nothing is selected. The wind stays.
    pub open spec fn map_changed(self) -> PlannerModel {
        PlannerModel {
            plan: PlanModel {
                guns: Seq::empty(),
                targets: Seq::empty(),
                spotters: Seq::empty(),
                weapons: Seq::empty(),
                pairings: Seq::empty(),
                ..self.plan
            },
            selected: None,
            ..self.saved()
        }
    }

    /// The session after the wind was set: the live state is saved for undo first.
    pub open spec fn wind_set(self, direction: Option<i64>, strength: u32) -> PlannerModel {
        PlannerModel {
            plan: PlanModel { wind_direction: direction, wind_strength: strength, ..self.plan },
            ..self.saved()
        }
    }

    /// The session after Escape: the help closes where it is open, else the selection
    /// is cleared.
    pub open spec fn dismissed(self) -> PlannerModel {
        if self.show_help {
            PlannerModel { show_help: false, ..self }
        } else {
            PlannerModel { selected: None, ..self }
        }
    }

    /// The session after a click on a marker in a list: that marker is selected, or the
    /// selection is cleared where it was selected already.
    pub open spec fn toggled(self, marker: SelectedMarker) -> PlannerModel {
        if self.selected == Some(marker) {
            PlannerModel { selected: None, ..self }
        } else {
            PlannerModel { selected: Some(marker), ..self }
        }
    }
}

impl Planner {
    /// The target for which gun `gun` needs a firing solution, if any.
    pub fn needs_solution(&self, gun: usize) -> (target: Option<usize>)
        ensures
            target == solution_target(self@.plan, gun as int),
    {
        if gun < self.plan.gun_weapon_ids.len() {
            if self.plan.gun_weapon_ids[gun].as_str().unicode_len() > 0 {
                return paired_target(
                    &self.plan.gun_target_indices,
                    gun,
                    self.plan.target_positions.len(),
                );
            }
        }
        None
    }

    /// The end points of the firing lines to draw.
    pub fn firing_lines(&self) -> (lines: Vec<(usize, usize)>)
        ensures
            lines@ == firing_pairs(self@.plan, self@.plan.guns.len() as int),
    {
        let mut lines: Vec<(usize, usize)> = Vec::new();
        let mut g: usize = 0;
        while g < self.plan.gun_positions.len()
            invariant
                g <= self.plan.gun_positions.len(),
                lines@ == firing_pairs(self@.plan, g as int),
            decreases self.plan.gun_positions.len() - g,
        {
            match paired_target(
                &self.plan.gun_target_indices,
                g,
                self.plan.target_positions.len(),
            ) {
                Some(t) => {
                    lines.push((g, t));
                },
                None => {},
            }
            g += 1;
        }
        lines
    }

    /// Chooses what the next click places.
    pub fn set_mode(&mut self, mode: PlacementMode)
        ensures
            final(self)@ == (PlannerModel { mode, ..old(self)@ }),
    {
        self.placement_mode = mode;
    }

    /// Selects the given marker, or clears the selection where it is selected already.
    pub fn toggle_selection(&mut self, marker: SelectedMarker)
        ensures
            final(self)@ == old(self)@.toggled(marker),
    {
        let same = match self.selected_marker {
            Some(sm) => sm == marker,
            None => false,
        };
        if same {
            self.selected_marker = None;
        } else {
            self.selected_marker = Some(marker);
        }
    }

    /// Handles Escape: closes the help where it is open, else clears the selection.
    pub fn dismiss(&mut self)
        ensures
            final(self)@ == old(self)@.dismissed(),
    {
        if self.show_help {
            self.show_help = false;
        } else {
            self.selected_marker = None;
        }
    }

    /// Shows the help where it is hidden and hides it where it is shown.
    pub fn toggle_help(&mut self)
        ensures
            final(self)@ == (PlannerModel { show_help: !old(self)@.show_help, ..old(self)@ }),
    {
        self.show_help = !self.show_help;
    }

    /// Asks the view to reset: the counter that the view watches moves on by one, and
    /// starts again at zero after its greatest value.
    pub fn request_view_reset(&mut self)
        ensures
            final(self)@ == (PlannerModel {
                reset_view_counter: if old(self)@.reset_view_counter == u64::MAX {
                    0
                } else {
                    (old(self)@.reset_view_counter + 1) as u64
                },
                ..old(self)@
            }),
    {
        if self.reset_view_counter == u64::MAX {
            self.reset_view_counter = 0;
        } else {
            self.reset_view_counter = self.reset_view_counter + 1;
        }
    }

    /// Handles the choice of another map.
    pub fn change_map(&mut self)
        ensures
            final(self)@ == old(self)@.map_changed(),
            final(self)@.redo.len() == 0,
            old(self)@.undo.len() <= UNDO_LIMIT ==> final(self)@.wf(),
    {
        self.push_snapshot();
        self.plan.gun_positions = Vec::new();
        self.plan.target_positions = Vec::new();
        self.plan.spotter_positions = Vec::new();
        self.plan.gun_weapon_ids = Vec::new();
        self.plan.gun_target_indices = Vec::new();
        self.selected_marker = None;
        assert(id_chars(self.plan.gun_weapon_ids@) =~= Seq::<Seq<char>>::empty());
    }

    /// Sets the wind.
    pub fn set_wind(&mut self, direction: Option<i64>, strength: u32)
        ensures
            final(self)@ == old(self)@.wind_set(direction, strength),
            final(self)@.redo.len() == 0,
            old(self)@.undo.len() <= UNDO_LIMIT ==> final(self)@.wf(),
    {
        self.push_snapshot();
        self.plan.wind_direction = direction;
        self.plan.wind_strength = strength;
    }
}

/// The positions of a stored plan on the map image.
pub open spec fn on_image(points: Seq<PositionData>) -> Seq<(i64, i64)> {
    Seq::new(
        points.len(),
        |i: int| (x_pixels(points[i].x as int) as i64, y_pixels(points[i].y as int) as i64),
    )
}

/// The planning state that a stored plan describes. A plan without a wind direction
/// leaves the direction `wind_direction` that was set before.
pub open spec fn plan_model_of(plan: &PlanData, wind_direction: Option<i64>) -> PlanModel {
    PlanModel {
        guns: on_image(plan.gun_positions@),
        targets: on_image(plan.target_positions@),
        spotters: on_image(plan.spotter_positions@),
        weapons: id_chars(plan.weapon_ids@),
        pairings: loaded_pairings(
            plan.gun_target_indices@,
            plan.gun_positions@.len() as int,
            plan.target_positions@.len() as int,
        ),
        wind_direction: match plan.wind_direction {
            Some(d) => Some(d),
            None => wind_direction,
        },
        wind_strength: plan.wind_strength,
    }
}

/// Converts the positions of a stored plan to positions on the map image.
pub fn to_map_px(points: &Vec<PositionData>) -> (out: Vec<(i64, i64)>)
    ensures
        out@ == on_image(points@),
{
    let mut out: Vec<(i64, i64)> = Vec::new();
    let mut i: usize = 0;
    while i < points.len()
        invariant
            i <= points.len(),
            out@.len() == i,
            forall|j: int| 0 <= j < i ==> out@[j] == on_image(points@)[j],
        decreases points.len() - i,
    {
        out.push(meters_to_px(points[i].x, points[i].y));
        i += 1;
    }
    assert(out@ =~= on_image(points@));
    out
}

impl Planner {
    /// Makes a stored plan the live state. The first weapon of the plan, where it has
    /// one, becomes the active weapon. The history stays as it is.
    pub fn load_plan(&mut self, plan: &PlanData)
        ensures
            final(self)@ == (PlannerModel {
                plan: plan_model_of(plan, old(self)@.plan.wind_direction),
                weapon: if plan.weapon_ids@.len() > 0 {
                    plan.weapon_ids@[0]@
                } else {
                    old(self)@.weapon
                },
                ..old(self)@
            }),
    {
        if plan.weapon_ids.len() > 0 {
            self.selected_weapon = plan.weapon_ids[0].clone();
        }
        self.plan.gun_weapon_ids = copy_ids(&plan.weapon_ids);
        self.plan.gun_positions = to_map_px(&plan.gun_positions);
        self.plan.target_positions = to_map_px(&plan.target_positions);
        self.plan.spotter_positions = to_map_px(&plan.spotter_positions);
        self.plan.gun_target_indices = pairings_from_plan(
            &plan.gun_target_indices,
            plan.gun_positions.len(),
            plan.target_positions.len(),
        );
        match plan.wind_direction {
            Some(d) => {
                self.plan.wind_direction = Some(d);
            },
            None => {},
        }
        self.plan.wind_strength = plan.wind_strength;
    }
}

/// The wind direction after a click on the button of `direction`: none where that
/// direction was set, else that direction.
pub open spec fn toggled_direction(current: Option<i64>, direction: i64) -> Option<i64> {
    if current == Some(direction) {
        None
    } else {
        Some(direction)
    }
}

impl Planner {
    /// Handles a click on the button of a wind direction.
    pub fn toggle_wind_direction(&mut self, direction: i64)
        ensures
            final(self)@ == old(self)@.wind_set(
                toggled_direction(old(self)@.plan.wind_direction, direction),
                old(self)@.plan.wind_strength,
            ),
            final(self)@.redo.len() == 0,
            old(self)@.undo.len() <= UNDO_LIMIT ==> final(self)@.wf(),
    {
        let same: bool = match self.plan.wind_direction {
            Some(d) => d == direction,
            None => false,
        };
        let strength: u32 = self.plan.wind_strength;
        if same {
            self.set_wind(None, strength);
        } else {
            self.set_wind(Some(direction), strength);
        }
    }

    /// Sets the weapon of the gun at `gun`, after the live state was saved for undo. A
    /// gun that does not exist changes nothing but the history.
    pub fn set_gun_weapon(&mut self, gun: usize, weapon: &str)
        ensures
            final(self)@ == (PlannerModel {
                plan: PlanModel {
                    weapons: if gun < old(self)@.plan.weapons.len() {
                        old(self)@.plan.weapons.update(gun as int, weapon@)
                    } else {
                        old(self)@.plan.weapons
                    },
                    ..old(self)@.plan
                },
                ..old(self)@.saved()
            }),
            final(self)@.redo.len() == 0,
            old(self)@.undo.len() <= UNDO_LIMIT ==> final(self)@.wf(),
    {
        self.push_snapshot();
        if gun < self.plan.gun_weapon_ids.len() {
            self.plan.gun_weapon_ids[gun] = String::from_str(weapon);
            assert(id_chars(self.plan.gun_weapon_ids@) =~= id_chars(
                old(self).plan.gun_weapon_ids@,
            ).update(gun as int, weapon@));
        }
    }
}

/// Every point lies in the coordinate domain.
pub open spec fn all_in_domain(points: Seq<(i64, i64)>) -> bool {
    forall|i: int|
        0 <= i < points.len() ==> in_domain((#[trigger] points[i]).0 as int) && in_domain(
            points[i].1 as int,
        )
}

/// Positions on the map image in metres, as a stored plan holds them.
pub open spec fn in_metres(points: Seq<(i64, i64)>) -> Seq<PositionData> {
    Seq::new(
        points.len(),
        |i: int|
            PositionData {
                x: x_metres(points[i].0 as int) as i64,
                y: y_metres(points[i].1 as int) as i64,
            },
    )
}

/// Converts positions on the map image to metres for storing; none where a position
/// lies outside the coordinate domain.
pub fn to_meters(points: &Vec<(i64, i64)>) -> (out: Option<Vec<PositionData>>)
    ensures
        match out {
            Some(list) => all_in_domain(points@) && list@ == in_metres(points@),
            None => !all_in_domain(points@),
        },
{
    let mut list: Vec<PositionData> = Vec::new();
    let mut i: usize = 0;
    while i < points.len()
        invariant
            i <= points.len(),
            list@.len() == i,
            forall|j: int|
                0 <= j < i ==> in_domain((#[trigger] points@[j]).0 as int) && in_domain(
                    points@[j].1 as int,
                ),
            forall|j: int| 0 <= j < i ==> list@[j] == in_metres(points@)[j],
        decreases points.len() - i,
    {
        let p: (i64, i64) = points[i];
        if !is_in_domain(p.0) || !is_in_domain(p.1) {
            return None;
        }
        let (x, y) = px_to_meters(p.0, p.1);
        list.push(PositionData { x, y });
        i += 1;
    }
    assert(list@ =~= in_metres(points@));
    Some(list)
}

} // verus!
