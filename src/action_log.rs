//! A bounded history of the drawer's actions, with a cursor that separates
//! what could be undone from what could be redone. The history is kept but
//! no editing operation records into it yet.
use vstd::prelude::*;

verus! {

/// Number of actions a log keeps when no other bound is given.
pub const DEFAULT_MAX_ACTIONS: usize = 10;

/// What a log holds, as mathematical values.
pub ghost struct ActionLogView {
    pub position: nat,
    pub max_actions: nat,
    pub actions: Seq<usize>,
}

/// A history of at most `max_actions` entries; `position` is the cursor.
#[derive(Clone, PartialEq, Debug)]
pub struct ActionLog {
    position: usize,
    max_actions: usize,
    action_list: Vec<usize>,
}

impl View for ActionLog {
    type V = ActionLogView;

    closed spec fn view(&self) -> ActionLogView {
        ActionLogView {
            position: self.position as nat,
            max_actions: self.max_actions as nat,
            actions: self.action_list@,
        }
    }
}

impl ActionLog {
    /// An empty log that keeps at most `max` actions.
    pub fn new(max: usize) -> (r: ActionLog)
        ensures
            r@ == (ActionLogView { position: 0, max_actions: max as nat, actions: Seq::empty() }),
    {
        ActionLog { position: 0, max_actions: max, action_list: Vec::new() }
    }

    /// An empty log that keeps at most `DEFAULT_MAX_ACTIONS` actions.
    pub fn default() -> (r: ActionLog)
        ensures
            r@ == (ActionLogView {
                position: 0,
                max_actions: DEFAULT_MAX_ACTIONS as nat,
                actions: Seq::empty(),
            }),
    {
        ActionLog::new(DEFAULT_MAX_ACTIONS)
    }

    pub fn position(&self) -> (r: usize)
        ensures
            r == self@.position,
    {
        self.position
    }

    pub fn max_actions(&self) -> (r: usize)
        ensures
            r == self@.max_actions,
    {
        self.max_actions
    }

    pub fn len(&self) -> (r: usize)
        ensures
            r == self@.actions.len(),
    {
        self.action_list.len()
    }
}

/// The kinds of action the history tells apart.
#[derive(Clone, Copy, PartialEq, Eq, Debug)]
pub enum ActionType {
    Creation,
    Adjustment,
}

/// One recorded action: a circle was created, or its radius was adjusted
/// (with the radius that it had).
#[derive(Clone, Copy, PartialEq, Eq, Debug)]
pub struct ActionItem {
    pub action_type: ActionType,
    pub radius: Option<u32>,
    pub circle_id: usize,
}

impl ActionItem {
    /// The creation of circle `circle_id`.
    pub fn creation(circle_id: usize) -> (r: ActionItem)
        ensures
            r == (ActionItem { action_type: ActionType::Creation, radius: None, circle_id }),
    {
        ActionItem { action_type: ActionType::Creation, radius: None, circle_id }
    }

    /// A change of the radius of circle `circle_id`, which had `radius`.
    pub fn adjustment(circle_id: usize, radius: u32) -> (r: ActionItem)
        ensures
            r == (ActionItem {
                action_type: ActionType::Adjustment,
                radius: Some(radius),
                circle_id,
            }),
    {
        ActionItem { action_type: ActionType::Adjustment, radius: Some(radius), circle_id }
    }
}

} // verus!
