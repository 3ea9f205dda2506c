use vstd::prelude::*;
use crate::address::Address;
use crate::admin::{ID, STATE_SEED, InitializeArbitrageState, found_program_address, initial_state, initialize_arbitrage_state};
use crate::model::{ArbitrageError, ArbitrageState, ArbitrageStateInitialized};

verus! {

/// The records of every authority, at most one each.
#[derive(Clone, Debug)]
pub struct BotStateStore {
    pub records: Vec<ArbitrageState>,
}

impl View for BotStateStore {
    type V = Map<Address, ArbitrageState>;

    /// Each authority that has a record, mapped to it.
    open spec fn view(&self) -> Map<Address, ArbitrageState> {
        Map::new(
            |a: Address| exists|i: int| 0 <= i < self.records.len() && self.records@[i].authority == a,
            |a: Address|
                self.records@[choose|i: int|
                    0 <= i < self.records.len() && self.records@[i].authority == a],
        )
    }
}

impl BotStateStore {
    /// No two records share an authority.
    pub open spec fn wf(&self) -> bool {
        forall|i: int, j: int|
            0 <= i < j < self.records.len() ==> #[trigger] self.records@[i].authority
                != #[trigger] self.records@[j].authority
    }

    proof fn lemma_view_at(&self, i: int)
        requires
            self.wf(),
            0 <= i < self.records.len(),
        ensures
            self@.contains_key(self.records@[i].authority),
            self@[self.records@[i].authority] == self.records@[i],
    {
        let a = self.records@[i].authority;
        assert(self@.contains_key(a));
        let k = choose|k: int| 0 <= k < self.records.len() && self.records@[k].authority == a;
        if k != i {
            if k < i {
                assert(self.records@[k].authority != self.records@[i].authority);
            } else {
                assert(self.records@[i].authority != self.records@[k].authority);
            }
        }
    }

    /// An empty store.
    pub fn new() -> (r: BotStateStore)
        ensures
            r.wf(),
            r@ == Map::<Address, ArbitrageState>::empty(),
    {
        let r = BotStateStore { records: Vec::new() };
        assert(r@ =~= Map::<Address, ArbitrageState>::empty());
        r
    }

    /// Where the record of `authority` stands, if it has one.
    fn position(&self, authority: &Address) -> (r: Option<usize>)
        requires
            self.wf(),
        ensures
            r is None <==> !self@.contains_key(*authority),
            r matches Some(i) ==> i < self.records.len() && self.records@[i as int].authority
                == *authority,
    {
        let mut i: usize = 0;
        while i < self.records.len()
            invariant
                i <= self.records.len(),
                forall|j: int| 0 <= j < i ==> self.records@[j].authority != *authority,
            decreases self.records.len() - i,
        {
            if self.records[i].authority.same_as(authority) {
                return Some(i);
            }
            i = i + 1;
        }
        None
    }

    /// The record of `authority`.
    pub fn load(&self, authority: &Address) -> (r: Option<ArbitrageState>)
        requires
            self.wf(),
        ensures
            r is None <==> !self@.contains_key(*authority),
            r matches Some(s) ==> s == self@[*authority],
    {
        match self.position(authority) {
            Some(i) => {
                proof {
                    self.lemma_view_at(i as int);
                }
                Some(self.records[i])
            },
            None => None,
        }
    }

    /// Replaces the record of `state.authority`; `AccountValidationFailed`,
    /// with nothing changed, when that authority has none.
    pub fn save(&mut self, state: ArbitrageState) -> (r: Result<(), ArbitrageError>)
        requires
            old(self).wf(),
        ensures
            final(self).wf(),
            old(self)@.contains_key(state.authority) ==> r is Ok && final(self)@ == old(
                self,
            )@.insert(state.authority, state),
            !old(self)@.contains_key(state.authority) ==> r == Err::<(), ArbitrageError>(
                ArbitrageError::AccountValidationFailed,
            ) && *final(self) == *old(self),
    {
        match self.position(&state.authority) {
            None => Err(ArbitrageError::AccountValidationFailed),
            Some(i) => {
                let ghost before = self.records@;
                self.records.set(i, state);
                proof {
                    assert(self.records@ == before.update(i as int, state));
                    assert forall|a: Address|
                        #![auto]
                        self@.contains_key(a) == old(self)@.insert(state.authority, state).contains_key(a)
                        by {
                        if a == state.authority {
                            assert(self.records@[i as int].authority == a);
                        } else if old(self)@.contains_key(a) {
                            let k = choose|k: int| 0 <= k < before.len() && before[k].authority == a;
                            assert(self.records@[k].authority == a);
                        } else if self@.contains_key(a) {
                            let k = choose|k: int|
                                0 <= k < self.records.len() && self.records@[k].authority == a;
                            assert(before[k].authority == a);
                        }
                    }
                    assert forall|a: Address| #![auto] self@.contains_key(a) implies self@[a]
                        == old(self)@.insert(state.authority, state)[a] by {
                        let k = choose|k: int| 0 <= k < self.records.len() && self.records@[k].authority == a;
                        self.lemma_view_at(k);
                        old(self).lemma_view_at(k);
                    }
                    assert(self@ =~= old(self)@.insert(state.authority, state));
                }
                Ok(())
            },
        }
    }

    /// Creates the record of the signing authority, which must have none yet
    /// (`AccountValidationFailed` otherwise, with nothing changed).
    pub fn initialize(
        &mut self,
        ctx: &InitializeArbitrageState,
        min_execution_interval: i64,
        now: i64,
    ) -> (r: Result<ArbitrageStateInitialized, ArbitrageError>)
        requires
            old(self).wf(),
        ensures
            final(self).wf(),
            old(self)@.contains_key(ctx.authority) ==> r == Err::<
                ArbitrageStateInitialized,
                ArbitrageError,
            >(ArbitrageError::AccountValidationFailed) && *final(self) == *old(self),
            !old(self)@.contains_key(ctx.authority) && min_execution_interval < 0 ==> r == Err::<
                ArbitrageStateInitialized,
                ArbitrageError,
            >(ArbitrageError::InvalidAmount) && *final(self) == *old(self),
            !old(self)@.contains_key(ctx.authority) && min_execution_interval >= 0 ==> match found_program_address(
                STATE_SEED@,
                ctx.authority@,
                ID@,
            ) {
                None => r == Err::<ArbitrageStateInitialized, ArbitrageError>(
                    ArbitrageError::AccountValidationFailed,
                ) && *final(self) == *old(self),
                Some((_, bump)) => r == Ok::<ArbitrageStateInitialized, ArbitrageError>(
                    ArbitrageStateInitialized {
                        authority: ctx.authority,
                        min_execution_interval,
                        timestamp: now,
                    },
                ) && final(self)@ == old(self)@.insert(
                    ctx.authority,
                    initial_state(ctx.authority, min_execution_interval, bump),
                ),
            },
    {
        if self.position(&ctx.authority).is_some() {
            return Err(ArbitrageError::AccountValidationFailed);
        }
        let (state, event) = initialize_arbitrage_state(ctx, min_execution_interval, now)?;
        let ghost before = self.records@;
        self.records.push(state);
        proof {
            let n = before.len() as int;
            assert(self.records@ == before.push(state));
            assert forall|i: int, j: int|
                0 <= i < j < self.records.len() implies #[trigger] self.records@[i].authority
                != #[trigger] self.records@[j].authority by {
                if j == n {
                    assert(!old(self)@.contains_key(ctx.authority));
                    assert(before[i].authority != ctx.authority);
                }
            }
            assert forall|a: Address|
                #![auto]
                self@.contains_key(a) == old(self)@.insert(ctx.authority, state).contains_key(a) by {
                if a != ctx.authority && old(self)@.contains_key(a) {
                    let k = choose|k: int| 0 <= k < before.len() && before[k].authority == a;
                    assert(self.records@[k].authority == a);
                }
                if a == ctx.authority {
                    assert(self.records@[n].authority == a);
                }
            }
            assert forall|a: Address| #![auto] self@.contains_key(a) implies self@[a]
                == old(self)@.insert(ctx.authority, state)[a] by {
                let k = choose|k: int| 0 <= k < self.records.len() && self.records@[k].authority == a;
                self.lemma_view_at(k);
                if k < n {
                    old(self).lemma_view_at(k);
                }
            }
            assert(self@ =~= old(self)@.insert(ctx.authority, state));
        }
        Ok(event)
    }
}

} // verus!
