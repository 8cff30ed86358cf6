//! What may be done to a sales transaction in each status, and how one
//! status follows another.

use vstd::prelude::*;
use vstd::string::*;
use crate::text::text_views;
use crate::transaksi::model::StatusTransaksi;

verus! {

/// What can be asked of a transaction to change its status.
#[derive(Debug, Clone, Copy, PartialEq, Eq, Structural)]
pub enum StateAction {
    Complete,
    Cancel,
    Reopen,
}

/// The status that follows from an action, or `None` where the action is
/// refused: a transaction in process can be completed or cancelled; a
/// completed or cancelled one can only be reopened.
pub open spec fn transition(from: StatusTransaksi, action: StateAction) -> Option<StatusTransaksi> {
    match (from, action) {
        (StatusTransaksi::MasihDiproses, StateAction::Complete) => Some(StatusTransaksi::Selesai),
        (StatusTransaksi::MasihDiproses, StateAction::Cancel) => Some(StatusTransaksi::Dibatalkan),
        (StatusTransaksi::MasihDiproses, StateAction::Reopen) => None,
        (_, StateAction::Reopen) => Some(StatusTransaksi::MasihDiproses),
        (_, _) => None,
    }
}

/// The message with which a status refuses an action.
pub open spec fn refusal(from: StatusTransaksi) -> Seq<char> {
    match from {
        StatusTransaksi::MasihDiproses => "Transaksi sudah dalam status diproses"@,
        StatusTransaksi::Selesai => "Transaksi selesai tidak dapat diubah statusnya"@,
        StatusTransaksi::Dibatalkan => "Transaksi dibatalkan tidak dapat diubah statusnya"@,
    }
}

/// What a user may do with a transaction in a status.
pub open spec fn allowed_actions(status: StatusTransaksi) -> Seq<Seq<char>> {
    match status {
        StatusTransaksi::MasihDiproses => seq!["complete"@, "cancel"@, "add_item"@, "update_item"@],
        StatusTransaksi::Selesai => seq!["print_receipt"@, "view_details"@],
        StatusTransaksi::Dibatalkan => seq!["view_details"@],
    }
}

/// The state of a transaction in process.
#[derive(Debug, Clone, Copy)]
pub struct MasihDiprosesState;

/// The state of a completed transaction.
#[derive(Debug, Clone, Copy)]
pub struct SelesaiState;

/// The state of a cancelled transaction.
#[derive(Debug, Clone, Copy)]
pub struct DibatalkanState;

/// Any one of the three states.
#[derive(Debug, Clone, Copy)]
pub enum AnyState {
    MasihDiproses(MasihDiprosesState),
    Selesai(SelesaiState),
    Dibatalkan(DibatalkanState),
}

/// The status that a state stands for.
pub open spec fn status_of(state: AnyState) -> StatusTransaksi {
    match state {
        AnyState::MasihDiproses(_) => StatusTransaksi::MasihDiproses,
        AnyState::Selesai(_) => StatusTransaksi::Selesai,
        AnyState::Dibatalkan(_) => StatusTransaksi::Dibatalkan,
    }
}

/// The rules of a status. Only a transaction in process can be modified,
/// cancelled or completed, and only its items can be added, updated or
/// deleted.
pub trait TransaksiState {
    /// The status that this state stands for.
    spec fn status_spec(&self) -> StatusTransaksi;

    fn can_be_modified(&self) -> (r: bool)
        ensures
            r == (self.status_spec() == StatusTransaksi::MasihDiproses),
    ;

    fn can_be_cancelled(&self) -> (r: bool)
        ensures
            r == (self.status_spec() == StatusTransaksi::MasihDiproses),
    ;

    fn can_be_completed(&self) -> (r: bool)
        ensures
            r == (self.status_spec() == StatusTransaksi::MasihDiproses),
    ;

    fn can_add_items(&self) -> (r: bool)
        ensures
            r == (self.status_spec() == StatusTransaksi::MasihDiproses),
    ;

    fn can_update_items(&self) -> (r: bool)
        ensures
            r == (self.status_spec() == StatusTransaksi::MasihDiproses),
    ;

    fn can_delete_items(&self) -> (r: bool)
        ensures
            r == (self.status_spec() == StatusTransaksi::MasihDiproses),
    ;

    /// The state that follows from an action, or the message with which the
    /// action is refused.
    fn next_state(&self, action: StateAction) -> (r: Result<AnyState, String>)
        ensures
            match transition(self.status_spec(), action) {
                Some(s) => r is Ok && status_of(r->Ok_0) == s,
                None => r is Err && r->Err_0@ == refusal(self.status_spec()),
            },
    ;

    fn status(&self) -> (r: StatusTransaksi)
        ensures
            r == self.status_spec(),
    ;

    fn get_allowed_actions(&self) -> (r: Vec<String>)
        ensures
            text_views(r@) == allowed_actions(self.status_spec()),
    ;
}

/// The state for a status.
fn state_for(status: StatusTransaksi) -> (r: AnyState)
    ensures
        status_of(r) == status,
{
    match status {
        StatusTransaksi::MasihDiproses => AnyState::MasihDiproses(MasihDiprosesState),
        StatusTransaksi::Selesai => AnyState::Selesai(SelesaiState),
        StatusTransaksi::Dibatalkan => AnyState::Dibatalkan(DibatalkanState),
    }
}

/// The state that follows a status under an action.
fn step(from: StatusTransaksi, action: StateAction) -> (r: Result<AnyState, String>)
    ensures
        match transition(from, action) {
            Some(s) => r is Ok && status_of(r->Ok_0) == s,
            None => r is Err && r->Err_0@ == refusal(from),
        },
{
    match from {
        StatusTransaksi::MasihDiproses => match action {
            StateAction::Complete => Ok(state_for(StatusTransaksi::Selesai)),
            StateAction::Cancel => Ok(state_for(StatusTransaksi::Dibatalkan)),
            StateAction::Reopen => Err("Transaksi sudah dalam status diproses".to_string()),
        },
        StatusTransaksi::Selesai => match action {
            StateAction::Reopen => Ok(state_for(StatusTransaksi::MasihDiproses)),
            _ => Err("Transaksi selesai tidak dapat diubah statusnya".to_string()),
        },
        StatusTransaksi::Dibatalkan => match action {
            StateAction::Reopen => Ok(state_for(StatusTransaksi::MasihDiproses)),
            _ => Err("Transaksi dibatalkan tidak dapat diubah statusnya".to_string()),
        },
    }
}

/// The actions allowed in a status, as owned texts.
fn actions_for(status: StatusTransaksi) -> (r: Vec<String>)
    ensures
        text_views(r@) == allowed_actions(status),
{
    let r = match status {
        StatusTransaksi::MasihDiproses => vec![
            "complete".to_string(),
            "cancel".to_string(),
            "add_item".to_string(),
            "update_item".to_string(),
        ],
        StatusTransaksi::Selesai => vec!["print_receipt".to_string(), "view_details".to_string()],
        StatusTransaksi::Dibatalkan => vec!["view_details".to_string()],
    };
    assert(text_views(r@) =~= allowed_actions(status));
    r
}

impl TransaksiState for MasihDiprosesState {
    open spec fn status_spec(&self) -> StatusTransaksi {
        StatusTransaksi::MasihDiproses
    }

    fn can_be_modified(&self) -> (r: bool) {
        true
    }

    fn can_be_cancelled(&self) -> (r: bool) {
        true
    }

    fn can_be_completed(&self) -> (r: bool) {
        true
    }

    fn can_add_items(&self) -> (r: bool) {
        true
    }

    fn can_update_items(&self) -> (r: bool) {
        true
    }

    fn can_delete_items(&self) -> (r: bool) {
        true
    }

    fn next_state(&self, action: StateAction) -> (r: Result<AnyState, String>) {
        step(StatusTransaksi::MasihDiproses, action)
    }

    fn status(&self) -> (r: StatusTransaksi) {
        StatusTransaksi::MasihDiproses
    }

    fn get_allowed_actions(&self) -> (r: Vec<String>) {
        actions_for(StatusTransaksi::MasihDiproses)
    }
}

impl TransaksiState for SelesaiState {
    open spec fn status_spec(&self) -> StatusTransaksi {
        StatusTransaksi::Selesai
    }

    fn can_be_modified(&self) -> (r: bool) {
        false
    }

    fn can_be_cancelled(&self) -> (r: bool) {
        false
    }

    fn can_be_completed(&self) -> (r: bool) {
        false
    }

    fn can_add_items(&self) -> (r: bool) {
        false
    }

    fn can_update_items(&self) -> (r: bool) {
        false
    }

    fn can_delete_items(&self) -> (r: bool) {
        false
    }

    fn next_state(&self, action: StateAction) -> (r: Result<AnyState, String>) {
        step(StatusTransaksi::Selesai, action)
    }

    fn status(&self) -> (r: StatusTransaksi) {
        StatusTransaksi::Selesai
    }

    fn get_allowed_actions(&self) -> (r: Vec<String>) {
        actions_for(StatusTransaksi::Selesai)
    }
}

impl TransaksiState for DibatalkanState {
    open spec fn status_spec(&self) -> StatusTransaksi {
        StatusTransaksi::Dibatalkan
    }

    fn can_be_modified(&self) -> (r: bool) {
        false
    }

    fn can_be_cancelled(&self) -> (r: bool) {
        false
    }

    fn can_be_completed(&self) -> (r: bool) {
        false
    }

    fn can_add_items(&self) -> (r: bool) {
        false
    }

    fn can_update_items(&self) -> (r: bool) {
        false
    }

    fn can_delete_items(&self) -> (r: bool) {
        false
    }

    fn next_state(&self, action: StateAction) -> (r: Result<AnyState, String>) {
        step(StatusTransaksi::Dibatalkan, action)
    }

    fn status(&self) -> (r: StatusTransaksi) {
        StatusTransaksi::Dibatalkan
    }

    fn get_allowed_actions(&self) -> (r: Vec<String>) {
        actions_for(StatusTransaksi::Dibatalkan)
    }
}

impl TransaksiState for AnyState {
    open spec fn status_spec(&self) -> StatusTransaksi {
        status_of(*self)
    }

    fn can_be_modified(&self) -> (r: bool) {
        matches!(self, AnyState::MasihDiproses(_))
    }

    fn can_be_cancelled(&self) -> (r: bool) {
        matches!(self, AnyState::MasihDiproses(_))
    }

    fn can_be_completed(&self) -> (r: bool) {
        matches!(self, AnyState::MasihDiproses(_))
    }

    fn can_add_items(&self) -> (r: bool) {
        matches!(self, AnyState::MasihDiproses(_))
    }

    fn can_update_items(&self) -> (r: bool) {
        matches!(self, AnyState::MasihDiproses(_))
    }

    fn can_delete_items(&self) -> (r: bool) {
        matches!(self, AnyState::MasihDiproses(_))
    }

    fn next_state(&self, action: StateAction) -> (r: Result<AnyState, String>) {
        step(self.status(), action)
    }

    fn status(&self) -> (r: StatusTransaksi) {
        match self {
            AnyState::MasihDiproses(_) => StatusTransaksi::MasihDiproses,
            AnyState::Selesai(_) => StatusTransaksi::Selesai,
            AnyState::Dibatalkan(_) => StatusTransaksi::Dibatalkan,
        }
    }

    fn get_allowed_actions(&self) -> (r: Vec<String>) {
        actions_for(self.status())
    }
}

/// Makes the state for a status.
pub struct TransaksiStateFactory;

impl TransaksiStateFactory {
    /// The state that holds the rules of a status.
    pub fn create_state(status: &StatusTransaksi) -> (r: AnyState)
        ensures
            r.status_spec() == *status,
    {
        state_for(*status)
    }
}

/// A transaction can always be brought back into process, and from there
/// to either end: whatever its status, reopening is refused only where it
/// is in process already, and completing or cancelling only where it is
/// not.
pub proof fn lemma_transitions(from: StatusTransaksi, action: StateAction)
    ensures
        transition(from, action) is Some <==> ((from == StatusTransaksi::MasihDiproses) != (action
            == StateAction::Reopen)),
        transition(from, action) is Some ==> transition(from, action) != Some(from),
{
}

} // verus!
