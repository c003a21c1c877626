//! The session store: one record per battle, created once, read, and
//! rewritten only where it exists and has not been rewritten meanwhile.

use crate::errors::{ApiError, ErrorModel};
use crate::ids::BattleId;
use crate::types::{clone_turn_logs, StoredBattle, StoredModel};
use std::collections::HashMap;
use vstd::prelude::*;

verus! {

/// Whether the store takes `battle` as a rewrite of a record: the record
/// exists and still has the version that the writer read, and that version
/// can be counted up.
pub open spec fn update_admitted(records: Map<u128, StoredModel>, battle: StoredModel) -> bool {
    &&& records.contains_key(battle.battle_id)
    &&& records[battle.battle_id].version == battle.version
    &&& battle.version < u64::MAX
}

/// The record as it stands after a rewrite: the battle state, the turn log
/// and the time of the last update are the writer's, the version is the
/// next, and the identifier, the participants and the time of creation are
/// those of the stored record.
pub open spec fn rewritten(stored: StoredModel, battle: StoredModel) -> StoredModel {
    StoredModel {
        battle_state: battle.battle_state,
        turn_logs: battle.turn_logs,
        last_updated: battle.last_updated,
        version: (stored.version + 1) as u64,
        ..stored
    }
}

/// Why a store did not take a write, as a mathematical value.
pub enum StoreErrorModel {
    Conflict { message: Seq<char> },
    Failure { message: Seq<char> },
}

/// Why a store did not take a write.
#[derive(Debug)]
pub enum StoreError {
    /// The condition of the write did not hold.
    Conflict { message: String },
    /// The store failed for reasons of its own.
    Failure { message: String },
}

impl View for StoreError {
    type V = StoreErrorModel;

    open spec fn view(&self) -> StoreErrorModel {
        match self {
            StoreError::Conflict { message } => StoreErrorModel::Conflict { message: message@ },
            StoreError::Failure { message } => StoreErrorModel::Failure { message: message@ },
        }
    }
}

/// The error of the service for a write that the store did not take: a
/// store conflict where the condition of the write did not hold, a
/// database error where the store failed.
pub open spec fn write_error(error: StoreErrorModel) -> ErrorModel {
    match error {
        StoreErrorModel::Conflict { message } => ErrorModel::StoreConflict { message },
        StoreErrorModel::Failure { message } => ErrorModel::DatabaseError { message },
    }
}

impl StoreError {
    /// The error of the service for a write that the store did not take.
    pub fn into_api_error(self) -> (e: ApiError)
        ensures
            e@ == write_error(self@),
    {
        match self {
            StoreError::Conflict { message } => ApiError::StoreConflict { message },
            StoreError::Failure { message } => ApiError::DatabaseError { message },
        }
    }
}

/// A store of sessions keyed by battle identifier.
///
/// The writes are conditional. `create_battle` never overwrites a record.
/// `update_battle` never creates one, and never overwrites a record that
/// has been rewritten since the writer read it: of two writers that read
/// the same version, the second fails. A write whose condition does not
/// hold fails, and only such a write fails with a conflict. A failed
/// operation changes nothing.
///
/// A store may fail any operation for reasons of its own (it may be
/// remote), so no method here promises success; an implementation may
/// promise more.
pub trait Db {
    /// The stored records by identifier.
    ///
    /// A store that is implemented where the verifier does not look (a
    /// remote table, say) cannot say what it holds, and leaves this as it
    /// stands here: some map that is not known further. Of such a store the
    /// contracts below are believed, not proved.
    open spec fn records(&self) -> Map<u128, StoredModel> {
        arbitrary()
    }

    /// Stores a new record. Fails if a record already exists for the
    /// battle's identifier.
    fn create_battle(&mut self, battle: &StoredBattle) -> (r: Result<(), StoreError>)
        ensures
            old(self).records().contains_key(battle.battle_id.0) ==> r is Err,
            r matches Err(e) && e is Conflict ==> old(self).records().contains_key(
                battle.battle_id.0,
            ),
            r is Ok ==> final(self).records() == old(self).records().insert(
                battle.battle_id.0,
                battle@,
            ),
            r is Err ==> final(self).records() == old(self).records(),
    ;

    /// Reads the record of a battle, if there is one.
    fn get_battle(&self, battle_id: BattleId) -> (r: Result<Option<StoredBattle>, String>)
        ensures
            r matches Ok(Some(battle)) ==> battle.battle_id == battle_id
                && self.records().contains_key(battle_id.0) && self.records()[battle_id.0]
                == battle@,
            r matches Ok(None) ==> !self.records().contains_key(battle_id.0),
    ;

    /// Rewrites the battle state, the turn log and the time of the last
    /// update of a stored record, and counts its version up. The
    /// identifier, the participants and the time of creation of the record
    /// stay as they are stored, whatever `battle` holds of them. Fails if no
    /// record exists for the battle's identifier, or if the stored record
    /// does not have the version of `battle`. The other records stay as
    /// they are.
    fn update_battle(&mut self, battle: &StoredBattle) -> (r: Result<(), StoreError>)
        ensures
            !update_admitted(old(self).records(), battle@) ==> r is Err,
            r matches Err(e) && e is Conflict ==> !update_admitted(old(self).records(), battle@),
            r is Ok ==> final(self).records() == old(self).records().insert(
                battle.battle_id.0,
                rewritten(old(self).records()[battle.battle_id.0], battle@),
            ),
            r is Err ==> final(self).records() == old(self).records(),
    ;
}

/// A session store in memory.
pub struct MemoryDb {
    battles: HashMap<u128, StoredBattle>,
}

impl MemoryDb {
    /// Every record is kept under its own identifier.
    #[verifier::type_invariant]
    spec fn keyed_by_id(self) -> bool {
        forall|id: u128| #[trigger]
            self.battles@.contains_key(id) ==> self.battles@[id].battle_id.0 == id
    }

    /// An empty store.
    pub fn new() -> (db: Self)
        ensures
            db.records() == Map::<u128, StoredModel>::empty(),
    {
        let db = MemoryDb { battles: HashMap::new() };
        assert(db.records() =~= Map::<u128, StoredModel>::empty());
        db
    }

    /// How many battles are stored.
    pub fn len(&self) -> (n: usize)
        ensures
            n == self.records().dom().len(),
    {
        assert(self.records().dom() =~= self.battles@.dom());
        self.battles.len()
    }
}

impl Db for MemoryDb {
    closed spec fn records(&self) -> Map<u128, StoredModel> {
        Map::new(|id: u128| self.battles@.contains_key(id), |id: u128| self.battles@[id]@)
    }

    /// Succeeds exactly when the identifier is new.
    fn create_battle(&mut self, battle: &StoredBattle) -> (r: Result<(), StoreError>)
        ensures
            r is Ok <==> !old(self).records().contains_key(battle.battle_id.0),
            r matches Err(e) ==> e@ == (StoreErrorModel::Conflict {
                message: "Battle already exists"@,
            }),
    {
        broadcast use vstd::std_specs::hash::group_hash_axioms;

        proof {
            use_type_invariant(&*self);
        }
        if self.battles.contains_key(&battle.battle_id.0) {
            return Err(StoreError::Conflict { message: String::from_str("Battle already exists") });
        }
        let mut battles = HashMap::new();
        std::mem::swap(&mut battles, &mut self.battles);
        battles.insert(battle.battle_id.0, battle.clone());
        self.battles = battles;
        assert(self.records() =~= old(self).records().insert(battle.battle_id.0, battle@));
        Ok(())
    }

    /// Never fails.
    fn get_battle(&self, battle_id: BattleId) -> (r: Result<Option<StoredBattle>, String>)
        ensures
            r is Ok,
            r matches Ok(None) <==> !self.records().contains_key(battle_id.0),
    {
        broadcast use vstd::std_specs::hash::group_hash_axioms;

        proof {
            use_type_invariant(self);
        }
        match self.battles.get(&battle_id.0) {
            Some(battle) => Ok(Some(battle.clone())),
            None => Ok(None),
        }
    }

    /// Succeeds exactly when the rewrite is admitted.
    fn update_battle(&mut self, battle: &StoredBattle) -> (r: Result<(), StoreError>)
        ensures
            r is Ok <==> update_admitted(old(self).records(), battle@),
            r matches Err(e) ==> e@ == (StoreErrorModel::Conflict {
                message: if !old(self).records().contains_key(battle.battle_id.0) {
                    "Battle not found"@
                } else {
                    "Battle was updated concurrently"@
                },
            }),
    {
        broadcast use vstd::std_specs::hash::group_hash_axioms;

        proof {
            use_type_invariant(&*self);
        }
        let stored = match self.battles.get(&battle.battle_id.0) {
            Some(stored) => stored,
            None => {
                return Err(StoreError::Conflict { message: String::from_str("Battle not found") });
            },
        };
        if stored.version != battle.version || battle.version == u64::MAX {
            let message = String::from_str("Battle was updated concurrently");
            return Err(StoreError::Conflict { message });
        }
        let record = StoredBattle {
            battle_id: stored.battle_id,
            player1_id: stored.player1_id.clone(),
            player2_id: stored.player2_id.clone(),
            battle_state: battle.battle_state.clone(),
            turn_logs: clone_turn_logs(&battle.turn_logs),
            created_at: stored.created_at,
            last_updated: battle.last_updated,
            version: stored.version + 1,
        };
        let mut battles = HashMap::new();
        std::mem::swap(&mut battles, &mut self.battles);
        battles.insert(battle.battle_id.0, record);
        self.battles = battles;
        assert(self.records() =~= old(self).records().insert(
            battle.battle_id.0,
            rewritten(old(self).records()[battle.battle_id.0], battle@),
        ));
        Ok(())
    }
}

/// Of two writers that read the same record, only the first is taken: once
/// a rewrite has been stored, a second rewrite made from the same reading
/// is not admitted.
pub proof fn lemma_stale_update_refused(
    records: Map<u128, StoredModel>,
    first: StoredModel,
    second: StoredModel,
)
    requires
        update_admitted(records, first),
        second.battle_id == first.battle_id,
        second.version == first.version,
    ensures
        !update_admitted(
            records.insert(first.battle_id, rewritten(records[first.battle_id], first)),
            second,
        ),
{
}

/// A rewrite keeps what a record is: its identifier, its participants and
/// its time of creation stay, whatever the writer hands in, and so does
/// every other record.
pub proof fn lemma_rewrite_keeps_identity(
    records: Map<u128, StoredModel>,
    battle: StoredModel,
    other: u128,
)
    requires
        records.contains_key(battle.battle_id),
    ensures
        ({
            let after = records.insert(
                battle.battle_id,
                rewritten(records[battle.battle_id], battle),
            );
            &&& after.dom() == records.dom()
            &&& after[battle.battle_id].battle_id == records[battle.battle_id].battle_id
            &&& after[battle.battle_id].player1_id == records[battle.battle_id].player1_id
            &&& after[battle.battle_id].player2_id == records[battle.battle_id].player2_id
            &&& after[battle.battle_id].created_at == records[battle.battle_id].created_at
            &&& other != battle.battle_id && records.contains_key(other) ==> after[other]
                == records[other]
        }),
{
    let after = records.insert(battle.battle_id, rewritten(records[battle.battle_id], battle));
    assert(after.dom() =~= records.dom());
}

} // verus!
