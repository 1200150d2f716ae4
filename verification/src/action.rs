//! What the library asks its caller to do.
//!
//! The library decides and the caller acts: every event handler returns an
//! [`Action`], and the result of the action comes back as a later event.

use crate::flash::{Target, TargetModel};
use crate::model::LaunchModel;
use crate::operation::LaunchOrder;
use vstd::prelude::*;

verus! {

/// The functional areas of the application, one tab each.
#[derive(Clone, Copy, Debug, PartialEq, Eq, Hash, Structural)]
pub enum TabId {
    Flash,
    Backup,
}

impl Default for TabId {
    /// The application opens on the flash tab.
    fn default() -> (tab: TabId)
        ensures
            tab == TabId::Flash,
    {
        TabId::Flash
    }
}

/// The work that an event leaves to the caller.
#[derive(Debug, PartialEq, Eq)]
pub enum Action {
    /// Nothing to do.
    Nothing,
    /// Let the user pick a file, and answer with a file-path event that
    /// names the given tab.
    PickFile(TabId),
    /// Let the user pick a folder for the given tab, and answer with the
    /// event that starts its operation.
    PickFolder(TabId),
    /// Spawn a worker that flashes the image of the order onto the device of
    /// the order, for the given radio model.
    StartFlash { target: Target, order: LaunchOrder },
    /// Spawn a worker that backs the radio up as the order says.
    StartBackup(LaunchOrder),
}

impl Clone for Action {
    fn clone(&self) -> (copy: Action)
        ensures
            copy == *self,
    {
        match self {
            Action::Nothing => Action::Nothing,
            Action::PickFile(tab) => Action::PickFile(*tab),
            Action::PickFolder(tab) => Action::PickFolder(*tab),
            Action::StartFlash { target, order } => Action::StartFlash {
                target: target.clone(),
                order: order.clone(),
            },
            Action::StartBackup(order) => Action::StartBackup(order.clone()),
        }
    }
}

/// The mathematical value of an [`Action`].
pub enum ActionModel {
    Nothing,
    PickFile(TabId),
    PickFolder(TabId),
    StartFlash { target: TargetModel, order: LaunchModel },
    StartBackup(LaunchModel),
}

impl View for Action {
    type V = ActionModel;

    open spec fn view(&self) -> ActionModel {
        match self {
            Action::Nothing => ActionModel::Nothing,
            Action::PickFile(tab) => ActionModel::PickFile(*tab),
            Action::PickFolder(tab) => ActionModel::PickFolder(*tab),
            Action::StartFlash { target, order } => ActionModel::StartFlash {
                target: target@,
                order: order@,
            },
            Action::StartBackup(order) => ActionModel::StartBackup(order@),
        }
    }
}

impl ActionModel {
    /// Whether the action makes the caller spawn a worker.
    pub open spec fn spawns_worker(self) -> bool {
        self is StartFlash || self is StartBackup
    }
}

impl Action {
    /// Whether the action makes the caller spawn a worker.
    pub fn spawns_worker(&self) -> (r: bool)
        ensures
            r == self@.spawns_worker(),
    {
        match self {
            Action::StartFlash { .. } => true,
            Action::StartBackup(_) => true,
            _ => false,
        }
    }
}

} // verus!
