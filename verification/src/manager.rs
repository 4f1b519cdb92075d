//! The position manager: the positions of one strategy run, in the order in
//! which they were created.

use vstd::prelude::*;
use vstd::string::StringExecFns;
use crate::candle::Candle;
use crate::code::{format_code, lemma_codes_differ, position_code};
use crate::error::Error;
use crate::ident::fresh_id;
use crate::model::PositionView;
use crate::position::Position;
use crate::model::signal_records;
use crate::records::{
    PositionState, PositionStateView, SignalEvent, SignalEventView, SignalState,
};
use crate::robot::RobotStateView;
use crate::signal::Signal;
use crate::state::PositionStatus;
use crate::timestamp::Timestamp;

verus! {

/// The positions of one strategy run.
#[derive(Debug)]
pub struct PositionManager {
    last_position_num: u32,
    positions: Vec<Position>,
    candle: Option<Candle>,
    backtest: bool,
}

/// The contents of a position manager.
pub struct ManagerView {
    /// The sequence number of the position created last.
    pub last_position_num: u32,
    /// The positions, oldest first.
    pub positions: Seq<PositionView>,
    /// The latest candle.
    pub candle: Option<Candle>,
    pub backtest: bool,
}

impl View for PositionManager {
    type V = ManagerView;

    closed spec fn view(&self) -> ManagerView {
        ManagerView {
            last_position_num: self.last_position_num,
            positions: self.positions@.map_values(|position: Position| position@),
            candle: self.candle,
            backtest: self.backtest,
        }
    }
}

/// The prefix of the default slot.
pub open spec fn default_prefix() -> Seq<char> {
    "p"@
}

/// The index of the first position at or after `from` that passes `test`, if
/// there is one.
pub open spec fn first_where(
    positions: Seq<PositionView>,
    test: spec_fn(PositionView) -> bool,
    from: int,
) -> Option<int>
    decreases positions.len() - from,
{
    if from < 0 || from >= positions.len() {
        None
    } else if test(positions[from]) {
        Some(from)
    } else {
        first_where(positions, test, from + 1)
    }
}

/// The index of the oldest position with the given code, if there is one.
pub open spec fn index_of_code(positions: Seq<PositionView>, code: Seq<char>) -> Option<int> {
    first_where(positions, |position: PositionView| position.code == code, 0)
}

/// The index of the oldest position of the default slot that is new or open,
/// if there is one.
pub open spec fn active_index(positions: Seq<PositionView>) -> Option<int> {
    first_where(
        positions,
        |position: PositionView| position.prefix == default_prefix() && position.is_active(),
        0,
    )
}

/// The positions after `position` was put among them under its code: in the
/// place of the one that had the code, or at the end.
pub open spec fn put(positions: Seq<PositionView>, position: PositionView) -> Seq<PositionView> {
    match index_of_code(positions, position.code) {
        Some(index) => positions.update(index, position),
        None => positions.push(position),
    }
}

/// What reading a sequence of wire records gives: the positions, each put
/// under its code in the order of the records, or the error of the first
/// record that cannot be read.
pub open spec fn rehydrated(records: Seq<PositionStateView>, backtest: bool) -> Result<
    Seq<PositionView>,
    Error,
>
    decreases records.len(),
{
    if records.len() == 0 {
        Ok(Seq::empty())
    } else {
        match rehydrated(records.drop_last(), backtest) {
            Err(error) => Err(error),
            Ok(positions) => match PositionView::restored(records.last(), None, backtest) {
                Err(error) => Err(error),
                Ok(position) => Ok(put(positions, position)),
            },
        }
    }
}

/// Whether no two of the positions share a code.
pub open spec fn distinct_codes(positions: Seq<PositionView>) -> bool {
    forall|i: int, j: int|
        0 <= i < j < positions.len() ==> (#[trigger] positions[i]).code != (
        #[trigger] positions[j]).code
}

impl ManagerView {
    /// No two positions share a code, and each position is well formed. Every
    /// manager that this library makes is well formed.
    pub open spec fn wf(self) -> bool {
        &&& distinct_codes(self.positions)
        &&& forall|i: int| 0 <= i < self.positions.len() ==> (#[trigger] self.positions[i]).wf()
    }

    /// Whether every code was given out by the sequence counter: it is made of
    /// some prefix and a sequence number that the counter has reached.
    pub open spec fn sequenced(self) -> bool {
        forall|i: int|
            0 <= i < self.positions.len() ==> exists|prefix: Seq<char>, number: nat|
                number <= self.last_position_num && (#[trigger] self.positions[i]).code
                    == position_code(prefix, number)
    }

    /// Whether every position runs in the mode of the manager.
    pub open spec fn one_mode(self) -> bool {
        forall|i: int|
            0 <= i < self.positions.len() ==> (#[trigger] self.positions[i]).backtest
                == self.backtest
    }

    /// Whether at most one position is in the default slot.
    pub open spec fn single_default(self) -> bool {
        forall|i: int, j: int|
            0 <= i < j < self.positions.len() ==> !((#[trigger] self.positions[i]).prefix
                == default_prefix() && (#[trigger] self.positions[j]).prefix == default_prefix())
    }

    /// Whether this is `before` with one more position, `added`, created under
    /// the next sequence number.
    pub open spec fn grown_from(self, before: ManagerView, added: PositionView) -> bool {
        &&& self.last_position_num == before.last_position_num + 1
        &&& self.positions =~= before.positions.push(added)
        &&& self.candle == before.candle
        &&& self.backtest == before.backtest
    }

    /// Whether this is `before` with the position at `index` replaced by
    /// `changed`.
    pub open spec fn changed_from(self, before: ManagerView, index: int, changed: PositionView) -> bool {
        &&& self.last_position_num == before.last_position_num
        &&& self.positions =~= before.positions.update(index, changed)
        &&& self.candle == before.candle
        &&& self.backtest == before.backtest
    }

    /// Whether a position with the given prefix exists, whatever its status.
    pub open spec fn has_prefix(self, prefix: Seq<char>) -> bool {
        exists|i: int| 0 <= i < self.positions.len() && (#[trigger] self.positions[i]).prefix == prefix
    }

    /// Whether a position with the given code exists.
    pub open spec fn has_code(self, code: Seq<char>) -> bool {
        exists|i: int| 0 <= i < self.positions.len() && (#[trigger] self.positions[i]).code == code
    }

    /// The manager after it received a candle: the candle becomes the latest
    /// one, and every position receives it.
    pub open spec fn with_candle(self, candle: Candle) -> ManagerView {
        ManagerView {
            candle: Some(candle),
            positions: self.positions.map_values(
                |position: PositionView| position.with_candle(Some(candle)),
            ),
            ..self
        }
    }

    /// The prefix that a new position gets: the one asked for, or that of the
    /// default slot.
    pub open spec fn prefix_for(prefix: Option<Seq<char>>) -> Seq<char> {
        match prefix {
            Some(text) => text,
            None => default_prefix(),
        }
    }

    /// The position that creating one under `id` would add.
    pub open spec fn next_position(
        self,
        id: u128,
        prefix: Option<Seq<char>>,
        parent_id: Option<Seq<char>>,
    ) -> PositionView {
        PositionView::fresh(
            id,
            Self::prefix_for(prefix),
            position_code(Self::prefix_for(prefix), (self.last_position_num + 1) as nat),
            parent_id,
            self.candle,
            self.backtest,
        )
    }

    /// Why no position can be created, if none can: the sequence counter is at
    /// its end, or the code that the next position would get is taken.
    pub open spec fn creation_error(self, prefix: Option<Seq<char>>) -> Option<Error> {
        if self.last_position_num == u32::MAX {
            Some(Error::SequenceExhausted)
        } else if self.has_code(
            position_code(Self::prefix_for(prefix), (self.last_position_num + 1) as nat),
        ) {
            Some(Error::DuplicateCode)
        } else {
            None
        }
    }
}

impl PositionManager {
    /// Makes a manager from persisted positions and a persisted sequence
    /// counter. Without positions the manager starts empty, without a counter
    /// it starts at zero.
    #[verifier::loop_isolation(false)]
    pub fn new(
        positions: &Option<Vec<PositionState>>,
        last_position_num: &Option<u32>,
        backtest: bool,
    ) -> (r: Result<PositionManager, Error>)
        ensures
            match rehydrated(
                match positions {
                    Some(records) => records.deep_view(),
                    None => Seq::empty(),
                },
                backtest,
            ) {
                Ok(restored) => r matches Ok(manager) && manager@ == (ManagerView {
                    last_position_num: match last_position_num {
                        Some(number) => *number,
                        None => 0,
                    },
                    positions: restored,
                    candle: None,
                    backtest,
                }) && manager@.wf() && manager@.one_mode(),
                Err(error) => r matches Err(e) && e == error,
            },
    {
        let mut manager = PositionManager {
            last_position_num: match last_position_num {
                Some(number) => *number,
                None => 0,
            },
            positions: Vec::new(),
            candle: None,
            backtest,
        };
        assert(manager@.positions =~= Seq::empty());
        match positions {
            Some(records) => {
                let mut index: usize = 0;
                while index < records.len()
                    invariant
                        index <= records.len(),
                        rehydrated(records.deep_view().take(index as int), backtest) == Ok::<
                            Seq<PositionView>,
                            Error,
                        >(manager@.positions),
                        manager@.wf(),
                        manager@.candle is None,
                        manager@.backtest == backtest,
                        manager@.last_position_num == match last_position_num {
                            Some(number) => *number,
                            None => 0,
                        },
                    decreases records.len() - index,
                {
                    let ghost next = records.deep_view().take(index + 1);
                    proof {
                        assert(next.drop_last() =~= records.deep_view().take(index as int));
                        lemma_rehydrated_prefix(records.deep_view(), backtest, index + 1);
                    }
                    let position = Position::restore(&records[index], &None, backtest)?;
                    manager.put(position);
                    index += 1;
                }
                proof {
                    assert(records.deep_view().take(index as int) =~= records.deep_view());
                    lemma_rehydrated_in_one_mode(records.deep_view(), backtest);
                }
            },
            None => {},
        }
        Ok(manager)
    }

    /// Puts a position under its code: in the place of the one that has the
    /// code, or at the end.
    fn put(&mut self, position: Position)
        requires
            old(self)@.wf(),
            position@.wf(),
        ensures
            final(self)@ == (ManagerView {
                positions: put(old(self)@.positions, position@),
                ..old(self)@
            }),
            final(self)@.wf(),
    {
        let mut index: usize = 0;
        let ghost test = |other: PositionView| other.code == position@.code;
        while index < self.positions.len()
            invariant
                index <= self.positions.len(),
                self@ == old(self)@,
                old(self)@.wf(),
                position@.wf(),
                test == |other: PositionView| other.code == position@.code,
                first_where(self@.positions, test, 0) == first_where(
                    self@.positions,
                    test,
                    index as int,
                ),
                forall|i: int| 0 <= i < index ==> (#[trigger] self@.positions[i]).code != position@.code,
            decreases self.positions.len() - index,
        {
            if *self.positions[index].get_code() == *position.get_code() {
                self.positions[index] = position;
                proof {
                    assert(self@.positions =~= old(self)@.positions.update(
                        index as int,
                        position@,
                    ));
                    lemma_put_keeps_distinct(old(self)@.positions, position@);
                }
                return ;
            }
            index += 1;
        }
        self.positions.push(position);
        proof {
            assert(self@.positions =~= old(self)@.positions.push(position@));
            lemma_put_keeps_distinct(old(self)@.positions, position@);
        }
    }

    /// The position at `index`, to be changed in place.
    fn position_mut(&mut self, index: usize) -> (position: &mut Position)
        requires
            index < old(self)@.positions.len(),
        ensures
            position@ == old(self)@.positions[index as int],
            final(self)@.changed_from(old(self)@, index as int, final(position)@),
    {
        &mut self.positions[index]
    }

    /// The sequence number of the position created last.
    pub fn position_last_num(&self) -> (number: u32)
        ensures
            number == self@.last_position_num,
    {
        self.last_position_num
    }

    /// The latest candle, if one has been received.
    pub fn get_candle(&self) -> (candle: &Option<Candle>)
        ensures
            *candle == self@.candle,
    {
        &self.candle
    }

    /// Whether the manager runs a back test.
    pub fn is_backtest(&self) -> (backtest: bool)
        ensures
            backtest == self@.backtest,
    {
        self.backtest
    }

    /// The number of positions.
    pub fn len(&self) -> (count: usize)
        ensures
            count == self@.positions.len(),
    {
        self.positions.len()
    }
}

/// The position that `first_where` finds passes the test and is the oldest
/// that does; where it finds none, none passes.
pub proof fn lemma_first_where(
    positions: Seq<PositionView>,
    test: spec_fn(PositionView) -> bool,
    from: int,
)
    requires
        0 <= from,
    ensures
        match first_where(positions, test, from) {
            Some(index) => {
                &&& from <= index < positions.len()
                &&& test(positions[index])
                &&& forall|i: int| from <= i < index ==> !test(#[trigger] positions[i])
            },
            None => forall|i: int| from <= i < positions.len() ==> !test(#[trigger] positions[i]),
        },
    decreases positions.len() - from,
{
    if from < positions.len() && !test(positions[from]) {
        lemma_first_where(positions, test, from + 1);
    }
}

/// Putting a position among positions with distinct codes leaves the codes
/// distinct.
pub proof fn lemma_put_keeps_distinct(positions: Seq<PositionView>, position: PositionView)
    requires
        distinct_codes(positions),
    ensures
        distinct_codes(put(positions, position)),
{
    let test = |other: PositionView| other.code == position.code;
    lemma_first_where(positions, test, 0);
    let after = put(positions, position);
    match index_of_code(positions, position.code) {
        Some(index) => {
            assert forall|i: int, j: int| 0 <= i < j < after.len() implies (#[trigger] after[i]).code
                != (#[trigger] after[j]).code by {
                if i == index {
                    assert(positions[index].code != positions[j].code);
                } else if j == index {
                    assert(positions[i].code != positions[index].code);
                } else {
                    assert(positions[i].code != positions[j].code);
                }
            }
        },
        None => {
            assert forall|i: int, j: int| 0 <= i < j < after.len() implies (#[trigger] after[i]).code
                != (#[trigger] after[j]).code by {
                if j == positions.len() {
                    assert(!test(positions[i]));
                } else {
                    assert(positions[i].code != positions[j].code);
                }
            }
        },
    }
}

/// Where a prefix of the records cannot be read, the whole cannot, and the
/// error is that of the prefix.
proof fn lemma_rehydrated_prefix(records: Seq<PositionStateView>, backtest: bool, length: int)
    requires
        0 <= length <= records.len(),
    ensures
        rehydrated(records.take(length), backtest) matches Err(error) ==> rehydrated(
            records,
            backtest,
        ) == Err::<Seq<PositionView>, Error>(error),
    decreases records.len() - length,
{
    if length < records.len() {
        let longer = records.take(length + 1);
        assert(longer.drop_last() =~= records.take(length));
        lemma_rehydrated_prefix(records, backtest, length + 1);
    } else {
        assert(records.take(length) =~= records);
    }
}

/// Whether a position is kept when the closed ones are cleared.
pub open spec fn is_kept(position: PositionView) -> bool {
    position.status != PositionStatus::Closed
}

/// The index of the oldest position whose pending orders cannot be resolved,
/// if there is one.
pub open spec fn first_refusal(positions: Seq<PositionView>, now: Timestamp) -> Option<int> {
    first_where(positions, |position: PositionView| position.resolved(now) is Err, 0)
}

impl ManagerView {
    /// The manager without its closed positions. The others keep their order.
    pub open spec fn without_closed(self) -> ManagerView {
        ManagerView {
            positions: self.positions.filter(|position: PositionView| is_kept(position)),
            ..self
        }
    }

    /// The manager with no pending order left on any position.
    pub open spec fn without_alerts(self) -> ManagerView {
        ManagerView {
            positions: self.positions.map_values(
                |position: PositionView| PositionView { alerts: Seq::empty(), ..position },
            ),
            ..self
        }
    }

    /// The manager with no recorded fill left on any position.
    pub open spec fn without_trades(self) -> ManagerView {
        ManagerView {
            positions: self.positions.map_values(
                |position: PositionView| PositionView { trades: Seq::empty(), ..position },
            ),
            ..self
        }
    }

    /// The manager after a sweep over the pending orders. The positions are
    /// resolved oldest first, each on its own. The sweep stops at the first
    /// position that refuses: the ones before it are resolved, that one and
    /// the ones after it are as they were.
    pub open spec fn swept(self, now: Timestamp) -> ManagerView {
        let stop = match first_refusal(self.positions, now) {
            Some(index) => index,
            None => self.positions.len() as int,
        };
        ManagerView {
            positions: Seq::new(
                self.positions.len(),
                |i: int|
                    if i < stop {
                        self.positions[i].resolved(now).unwrap()
                    } else {
                        self.positions[i]
                    },
            ),
            ..self
        }
    }

    /// The error that stops a sweep, if one does: that of the oldest position
    /// that refuses.
    pub open spec fn sweep_error(self, now: Timestamp) -> Option<Error> {
        match first_refusal(self.positions, now) {
            Some(index) => Some(self.positions[index].resolved(now)->Err_0),
            None => None,
        }
    }
}

impl PositionManager {
    /// Takes in the latest candle and hands it to every position.
    pub fn handle_candle(&mut self, candle: &Candle)
        ensures
            final(self)@ == old(self)@.with_candle(*candle),
    {
        self.candle = Some(*candle);
        let latest = Some(*candle);
        let mut index: usize = 0;
        while index < self.len()
            invariant
                index <= self@.positions.len(),
                latest == Some(*candle),
                self@.positions.len() == old(self)@.positions.len(),
                self@.candle == Some(*candle),
                self@.backtest == old(self)@.backtest,
                self@.last_position_num == old(self)@.last_position_num,
                forall|i: int|
                    0 <= i < index ==> #[trigger] self@.positions[i] == old(
                        self,
                    )@.positions[i].with_candle(latest),
                forall|i: int|
                    index <= i < self@.positions.len() ==> #[trigger] self@.positions[i] == old(
                        self,
                    )@.positions[i],
            decreases self@.positions.len() - index,
        {
            self.position_mut(index).handle_candle(&latest);
            index += 1;
        }
        assert(self@.positions =~= old(self)@.with_candle(*candle).positions);
    }

    /// Whether a position with the given code exists.
    fn has_code(&self, code: &String) -> (found: bool)
        ensures
            found == self@.has_code(code@),
    {
        let mut index: usize = 0;
        while index < self.positions.len()
            invariant
                index <= self.positions.len(),
                forall|i: int| 0 <= i < index ==> (#[trigger] self@.positions[i]).code != code@,
            decreases self.positions.len() - index,
        {
            if *self.positions[index].get_code() == *code {
                assert(self@.positions[index as int].code == code@);
                return true;
            }
            index += 1;
        }
        false
    }

    /// Creates a new position under the given identifier. The sequence counter
    /// goes up by one and gives the position its code. Nothing changes where
    /// the counter is at its end or the code is taken.
    pub fn create_with_id(&mut self, id: u128, prefix: Option<String>, parent_id: Option<String>) -> (r:
        Result<&mut Position, Error>)
        ensures
            match old(self)@.creation_error(prefix.deep_view()) {
                Some(error) => r matches Err(e) && e == error && final(self)@ == old(self)@,
                None => r matches Ok(position) && position@ == old(self)@.next_position(
                    id,
                    prefix.deep_view(),
                    parent_id.deep_view(),
                ) && final(self)@.grown_from(old(self)@, final(position)@),
            },
    {
        if self.last_position_num == u32::MAX {
            return Err(Error::SequenceExhausted);
        }
        let position_prefix = match prefix {
            Some(text) => text,
            None => String::from_str("p"),
        };
        let position_code = format_code(&position_prefix, self.last_position_num + 1);
        if self.has_code(&position_code) {
            return Err(Error::DuplicateCode);
        }
        self.last_position_num = self.last_position_num + 1;
        self.positions.push(
            Position::with_id(
                id,
                &position_prefix,
                &position_code,
                &parent_id,
                &self.candle,
                self.backtest,
            ),
        );
        let last = self.positions.len() - 1;
        Ok(self.position_mut(last))
    }

    /// Creates a new position under a fresh random identifier.
    pub fn create_position_ext(&mut self, prefix: Option<String>, parent_id: Option<String>) -> (r:
        Result<&mut Position, Error>)
        ensures
            match old(self)@.creation_error(prefix.deep_view()) {
                Some(error) => r matches Err(e) && e == error && final(self)@ == old(self)@,
                None => r matches Ok(position) && position@ == old(self)@.next_position(
                    position@.id,
                    prefix.deep_view(),
                    parent_id.deep_view(),
                ) && final(self)@.grown_from(old(self)@, final(position)@),
            },
    {
        self.create_with_id(fresh_id(), prefix, parent_id)
    }

    /// Creates a new position in the default slot.
    pub fn create(&mut self) -> (r: Result<&mut Position, Error>)
        ensures
            match old(self)@.creation_error(None) {
                Some(error) => r matches Err(e) && e == error && final(self)@ == old(self)@,
                None => r matches Ok(position) && position@ == old(self)@.next_position(
                    position@.id,
                    None,
                    None,
                ) && final(self)@.grown_from(old(self)@, final(position)@),
            },
    {
        self.create_position_ext(None, None)
    }

    /// Whether a position exists in the default slot. The status is not
    /// looked at: a closed position counts until it is cleared.
    pub fn has_active_position(&self) -> (found: bool)
        ensures
            found == self@.has_prefix(default_prefix()),
    {
        self.has_active_position_prefix(&String::from_str("p"))
    }

    /// Whether a position exists with the given prefix. The status is not
    /// looked at: a closed position counts until it is cleared.
    pub fn has_active_position_prefix(&self, prefix: &String) -> (found: bool)
        ensures
            found == self@.has_prefix(prefix@),
    {
        let mut index: usize = 0;
        while index < self.positions.len()
            invariant
                index <= self.positions.len(),
                forall|i: int| 0 <= i < index ==> (#[trigger] self@.positions[i]).prefix != prefix@,
            decreases self.positions.len() - index,
        {
            if *self.positions[index].get_prefix() == *prefix {
                assert(self@.positions[index as int].prefix == prefix@);
                return true;
            }
            index += 1;
        }
        false
    }

    /// The oldest position of the default slot that is new or open.
    pub fn get_active_position(&mut self) -> (r: Result<&mut Position, Error>)
        ensures
            match active_index(old(self)@.positions) {
                Some(index) => r matches Ok(position) && 0 <= index < old(self)@.positions.len()
                    && position@ == old(self)@.positions[index] && final(self)@.changed_from(
                    old(self)@,
                    index,
                    final(position)@,
                ),
                None => r matches Err(e) && e == Error::NoActivePosition && final(self)@ == old(
                    self,
                )@,
            },
    {
        let default = String::from_str("p");
        let ghost test = |position: PositionView|
            position.prefix == default_prefix() && position.is_active();
        let mut index: usize = 0;
        while index < self.positions.len()
            invariant
                index <= self.positions.len(),
                self@ == old(self)@,
                default@ == default_prefix(),
                test == |position: PositionView|
                    position.prefix == default_prefix() && position.is_active(),
                first_where(self@.positions, test, 0) == first_where(
                    self@.positions,
                    test,
                    index as int,
                ),
            decreases self.positions.len() - index,
        {
            if *self.positions[index].get_prefix() == default && self.positions[index].is_active() {
                proof {
                    lemma_first_where(self@.positions, test, 0);
                }
                return Ok(self.position_mut(index));
            }
            index += 1;
        }
        Err(Error::NoActivePosition)
    }

    /// Removes every closed position. This is the only way in which a position
    /// leaves the manager.
    pub fn clear_closed_positions(&mut self)
        ensures
            final(self)@ == old(self)@.without_closed(),
    {
        let ghost pred = |position: PositionView| is_kept(position);
        let ghost before = self@.positions;
        let ghost mut done: int = 0;
        let mut index: usize = 0;
        proof {
            reveal(Seq::filter);
        }
        while index < self.positions.len()
            invariant
                index <= self.positions.len(),
                0 <= done <= before.len(),
                before == old(self)@.positions,
                pred == |position: PositionView| is_kept(position),
                self@.candle == old(self)@.candle,
                self@.backtest == old(self)@.backtest,
                self@.last_position_num == old(self)@.last_position_num,
                self@.positions.len() - index == before.len() - done,
                self@.positions.take(index as int) == before.take(done).filter(pred),
                self@.positions.skip(index as int) == before.skip(done),
            decreases self.positions.len() - index,
        {
            proof {
                reveal(Seq::filter);
                assert(before[done] == before.skip(done)[0]);
                assert(before.take(done + 1).drop_last() =~= before.take(done));
                assert(before.skip(done).skip(1) =~= before.skip(done + 1));
            }
            match self.positions[index].get_status() {
                PositionStatus::Closed => {
                    self.positions.remove(index);
                },
                _ => {
                    index += 1;
                },
            }
            proof {
                done = done + 1;
            }
        }
        proof {
            assert(self@.positions.take(index as int) =~= self@.positions);
            assert(before.take(done) =~= before);
        }
    }

    /// Drops the pending orders of every position.
    pub fn clear_alerts(&mut self)
        ensures
            final(self)@ == old(self)@.without_alerts(),
    {
        let mut index: usize = 0;
        while index < self.len()
            invariant
                index <= self@.positions.len(),
                self@.positions.len() == old(self)@.positions.len(),
                self@.candle == old(self)@.candle,
                self@.backtest == old(self)@.backtest,
                self@.last_position_num == old(self)@.last_position_num,
                forall|i: int|
                    0 <= i < index ==> #[trigger] self@.positions[i] == (PositionView {
                        alerts: Seq::empty(),
                        ..old(self)@.positions[i]
                    }),
                forall|i: int|
                    index <= i < self@.positions.len() ==> #[trigger] self@.positions[i] == old(
                        self,
                    )@.positions[i],
            decreases self@.positions.len() - index,
        {
            self.position_mut(index).clear_alerts();
            index += 1;
        }
        assert(self@.positions =~= old(self)@.without_alerts().positions);
    }

    /// Drops the recorded fills of every position. They are the fills since
    /// the last report, not a ledger.
    pub fn clear_trades(&mut self)
        ensures
            final(self)@ == old(self)@.without_trades(),
    {
        let mut index: usize = 0;
        while index < self.len()
            invariant
                index <= self@.positions.len(),
                self@.positions.len() == old(self)@.positions.len(),
                self@.candle == old(self)@.candle,
                self@.backtest == old(self)@.backtest,
                self@.last_position_num == old(self)@.last_position_num,
                forall|i: int|
                    0 <= i < index ==> #[trigger] self@.positions[i] == (PositionView {
                        trades: Seq::empty(),
                        ..old(self)@.positions[i]
                    }),
                forall|i: int|
                    index <= i < self@.positions.len() ==> #[trigger] self@.positions[i] == old(
                        self,
                    )@.positions[i],
            decreases self@.positions.len() - index,
        {
            self.position_mut(index).clear_trades();
            index += 1;
        }
        assert(self@.positions =~= old(self)@.without_trades().positions);
    }

    /// Removes the closed positions and drops the pending orders and the
    /// recorded fills of the others: the start of a strategy cycle.
    pub fn clear_all(&mut self)
        ensures
            final(self)@ == old(self)@.without_closed().without_alerts().without_trades(),
    {
        self.clear_closed_positions();
        self.clear_alerts();
        self.clear_trades();
    }

    /// Resolves the pending orders of every position, oldest position first,
    /// dating a fill `now` in a live run. The first error stops the sweep and
    /// is returned; what was resolved before it stays resolved.
    pub fn check_alerts_at(&mut self, now: Timestamp) -> (r: Result<(), Error>)
        ensures
            final(self)@ == old(self)@.swept(now),
            r == match old(self)@.sweep_error(now) {
                Some(error) => Err::<(), Error>(error),
                None => Ok(()),
            },
    {
        let ghost test = |position: PositionView| position.resolved(now) is Err;
        let mut index: usize = 0;
        while index < self.len()
            invariant
                index <= self@.positions.len(),
                test == |position: PositionView| position.resolved(now) is Err,
                self@.positions.len() == old(self)@.positions.len(),
                self@.candle == old(self)@.candle,
                self@.backtest == old(self)@.backtest,
                self@.last_position_num == old(self)@.last_position_num,
                first_where(old(self)@.positions, test, 0) == first_where(
                    old(self)@.positions,
                    test,
                    index as int,
                ),
                forall|i: int|
                    0 <= i < index ==> (#[trigger] old(self)@.positions[i]).resolved(now) == Ok::<
                        PositionView,
                        Error,
                    >(self@.positions[i]),
                forall|i: int|
                    index <= i < self@.positions.len() ==> #[trigger] self@.positions[i] == old(
                        self,
                    )@.positions[i],
            decreases self@.positions.len() - index,
        {
            match self.position_mut(index).check_alerts_at(now) {
                Ok(()) => {},
                Err(error) => {
                    proof {
                        lemma_first_where(old(self)@.positions, test, 0);
                        assert(self@.positions =~= old(self)@.swept(now).positions);
                    }
                    return Err(error);
                },
            }
            index += 1;
        }
        proof {
            lemma_first_where(old(self)@.positions, test, 0);
            assert(self@.positions =~= old(self)@.swept(now).positions);
        }
        Ok(())
    }

    /// Resolves the pending orders of every position. A live run dates the
    /// fills by one reading of the wall clock; a back test never reads it.
    pub fn check_alerts(&mut self) -> (r: Result<(), Error>)
        ensures
            exists|now: Timestamp|
                {
                    &&& final(self)@ == #[trigger] old(self)@.swept(now)
                    &&& r == match old(self)@.sweep_error(now) {
                        Some(error) => Err::<(), Error>(error),
                        None => Ok(()),
                    }
                },
    {
        let now = self.clock();
        let r = self.check_alerts_at(now);
        r
    }

    /// The instant by which a live run dates what happens now: the reading of
    /// the wall clock. A back test dates by its candles, so no clock is read
    /// for it and the epoch is handed out in its place.
    pub(crate) fn clock(&self) -> (now: Timestamp)
        ensures
            self@.backtest ==> now == Timestamp::epoch(),
    {
        if self.backtest {
            Timestamp { nanos: 0 }
        } else {
            Timestamp::now()
        }
    }
}

/// The position as it is after it was persisted and read back in the given
/// mode: without its candle and without its recorded fills.
pub open spec fn restart(position: PositionView, backtest: bool) -> PositionView {
    PositionView { candle: None, backtest, trades: Seq::empty(), ..position }
}

/// The positions as they are after they were persisted and read back.
pub open spec fn restarted(positions: Seq<PositionView>, backtest: bool) -> Seq<PositionView> {
    positions.map_values(|position: PositionView| restart(position, backtest))
}

/// A position whose code is not taken is put at the end.
pub proof fn lemma_put_new_code(positions: Seq<PositionView>, position: PositionView)
    requires
        forall|i: int| 0 <= i < positions.len() ==> (#[trigger] positions[i]).code != position.code,
    ensures
        put(positions, position) == positions.push(position),
{
    lemma_first_where(positions, |other: PositionView| other.code == position.code, 0);
}

/// The wire records of a sequence of positions.
pub open spec fn position_records(positions: Seq<PositionView>) -> Seq<PositionStateView> {
    positions.map_values(|position: PositionView| position.state_view())
}

/// The pending orders of all the positions: those of the oldest position
/// first, and those of one position in their own order.
pub open spec fn pending(positions: Seq<PositionView>) -> Seq<Signal>
    decreases positions.len(),
{
    if positions.len() == 0 {
        Seq::empty()
    } else {
        pending(positions.drop_last()) + positions.last().alerts
    }
}

/// The recorded fills of all the positions: those of the oldest position
/// first, and those of one position in their own order.
pub open spec fn recorded(positions: Seq<PositionView>) -> Seq<Signal>
    decreases positions.len(),
{
    if positions.len() == 0 {
        Seq::empty()
    } else {
        recorded(positions.drop_last()) + positions.last().trades
    }
}

/// Whether `events` report the pending orders of the positions (or, with
/// `fills`, their recorded fills) at `now`: the events of the oldest position
/// first, one event for each signal of a position and in the order of its
/// signals, each event naming the position it belongs to.
pub open spec fn reported(
    positions: Seq<PositionView>,
    fills: bool,
    now: Timestamp,
    events: Seq<SignalEventView>,
) -> bool
    decreases positions.len(),
{
    if positions.len() == 0 {
        events.len() == 0
    } else {
        let last = positions.last();
        let signals = if fills {
            last.trades
        } else {
            last.alerts
        };
        let split = events.len() - signals.len();
        &&& split >= 0
        &&& reported(positions.drop_last(), fills, now, events.take(split))
        &&& last.reports_all(signals, now, events.skip(split))
    }
}

impl ManagerView {
    /// Whether `state` is what a robot persists and reports of these positions
    /// at `now`: the sequence counter, the wire record of every position, and
    /// one event for every pending order and every recorded fill.
    pub open spec fn described_by(self, state: RobotStateView, now: Timestamp) -> bool {
        &&& state.position_last_num == Some(self.last_position_num)
        &&& state.positions == Some(position_records(self.positions))
        &&& state.alerts matches Some(events) && reported(self.positions, false, now, events)
        &&& state.trades matches Some(events) && reported(self.positions, true, now, events)
    }
}

/// Appending the records of further signals to the records of signals gives
/// the records of all of them.
proof fn lemma_signal_records_add(first: Seq<Signal>, second: Seq<Signal>)
    ensures
        signal_records(first + second) == signal_records(first) + signal_records(second),
{
    assert(signal_records(first + second) =~= signal_records(first) + signal_records(second));
}

/// Moves every element of `more` to the end of `all`.
fn append_states(all: &mut Vec<SignalState>, more: Vec<SignalState>)
    ensures
        final(all).deep_view() == old(all).deep_view() + more.deep_view(),
{
    let mut more = more;
    all.append(&mut more);
}

/// Moves every element of `more` to the end of `all`.
fn append_events(all: &mut Vec<SignalEvent>, more: Vec<SignalEvent>)
    ensures
        final(all).deep_view() == old(all).deep_view() + more.deep_view(),
{
    let mut more = more;
    all.append(&mut more);
}

impl PositionManager {
    /// The wire records of the positions, oldest first. Reading the records of
    /// a well formed manager back, in any mode, gives its positions in the
    /// same order, each without its candle and its recorded fills.
    pub fn positions_state(&self) -> (records: Vec<PositionState>)
        ensures
            records.deep_view() == position_records(self@.positions),
            self@.wf() ==> forall|backtest: bool| #[trigger]
                rehydrated(records.deep_view(), backtest) == Ok::<Seq<PositionView>, Error>(
                    restarted(self@.positions, backtest),
                ),
    {
        let mut records: Vec<PositionState> = Vec::new();
        let mut index: usize = 0;
        proof {
            assert forall|backtest: bool| #[trigger]
                rehydrated(records.deep_view(), backtest) == Ok::<Seq<PositionView>, Error>(
                    restarted(self@.positions.take(0), backtest),
                ) by {
                assert(restarted(self@.positions.take(0), backtest) =~= Seq::empty());
            }
        }
        while index < self.positions.len()
            invariant
                index <= self.positions.len(),
                records.deep_view() == position_records(self@.positions.take(index as int)),
                self@.wf() ==> forall|backtest: bool| #[trigger]
                    rehydrated(records.deep_view(), backtest) == Ok::<Seq<PositionView>, Error>(
                        restarted(self@.positions.take(index as int), backtest),
                    ),
            decreases self.positions.len() - index,
        {
            let ghost before = records.deep_view();
            let record = self.positions[index].state();
            records.push(record);
            proof {
                let position = self@.positions[index as int];
                let done = self@.positions.take(index as int);
                let next = self@.positions.take(index + 1);
                assert(records.deep_view() =~= before.push(record@));
                if self@.wf() {
                    assert forall|backtest: bool| #[trigger]
                        rehydrated(records.deep_view(), backtest) == Ok::<
                            Seq<PositionView>,
                            Error,
                        >(restarted(next, backtest)) by {
                        let kept = restarted(done, backtest);
                        let added = restart(position, backtest);
                        assert(records.deep_view().drop_last() =~= before);
                        assert(rehydrated(before, backtest) == Ok::<Seq<PositionView>, Error>(
                            kept,
                        ));
                        lemma_put_new_code(kept, added);
                        assert(restarted(next, backtest) =~= kept.push(added));
                    }
                }
            }
            index += 1;
        }
        proof {
            assert(self@.positions.take(index as int) =~= self@.positions);
        }
        records
    }

    /// The wire records of the pending orders of all the positions.
    pub fn alerts_state(&self) -> (records: Vec<SignalState>)
        ensures
            records.deep_view() == signal_records(pending(self@.positions)),
    {
        let mut records: Vec<SignalState> = Vec::new();
        let mut index: usize = 0;
        while index < self.positions.len()
            invariant
                index <= self.positions.len(),
                records.deep_view() == signal_records(
                    pending(self@.positions.take(index as int)),
                ),
            decreases self.positions.len() - index,
        {
            let more = self.positions[index].alerts_state();
            proof {
                let next = self@.positions.take(index + 1);
                assert(next.drop_last() =~= self@.positions.take(index as int));
                lemma_signal_records_add(
                    pending(self@.positions.take(index as int)),
                    self@.positions[index as int].alerts,
                );
            }
            append_states(&mut records, more);
            index += 1;
        }
        proof {
            assert(self@.positions.take(index as int) =~= self@.positions);
        }
        records
    }

    /// The wire records of the recorded fills of all the positions.
    pub fn trades_state(&self) -> (records: Vec<SignalState>)
        ensures
            records.deep_view() == signal_records(recorded(self@.positions)),
    {
        let mut records: Vec<SignalState> = Vec::new();
        let mut index: usize = 0;
        while index < self.positions.len()
            invariant
                index <= self.positions.len(),
                records.deep_view() == signal_records(
                    recorded(self@.positions.take(index as int)),
                ),
            decreases self.positions.len() - index,
        {
            let more = self.positions[index].trades_state();
            proof {
                let next = self@.positions.take(index + 1);
                assert(next.drop_last() =~= self@.positions.take(index as int));
                lemma_signal_records_add(
                    recorded(self@.positions.take(index as int)),
                    self@.positions[index as int].trades,
                );
            }
            append_states(&mut records, more);
            index += 1;
        }
        proof {
            assert(self@.positions.take(index as int) =~= self@.positions);
        }
        records
    }

    /// Reports the pending orders of all the positions, or with `fills` their
    /// recorded fills, each under a fresh identifier and timed `now` in a live
    /// run.
    fn events(&self, fills: bool, now: Timestamp) -> (events: Vec<SignalEvent>)
        ensures
            reported(self@.positions, fills, now, events.deep_view()),
    {
        let mut events: Vec<SignalEvent> = Vec::new();
        let mut index: usize = 0;
        while index < self.positions.len()
            invariant
                index <= self.positions.len(),
                reported(self@.positions.take(index as int), fills, now, events.deep_view()),
            decreases self.positions.len() - index,
        {
            let ghost before = events.deep_view();
            let more = if fills {
                self.positions[index].trade_events_at(now)
            } else {
                self.positions[index].alert_events_at(now)
            };
            let ghost added = more.deep_view();
            append_events(&mut events, more);
            proof {
                let next = self@.positions.take(index + 1);
                assert(next.drop_last() =~= self@.positions.take(index as int));
                let split = events.deep_view().len() - added.len();
                assert(events.deep_view().take(split) =~= before);
            }
            index += 1;
        }
        proof {
            assert(self@.positions.take(index as int) =~= self@.positions);
        }
        events
    }

    /// Reports the pending orders of all the positions, timed `now` in a live
    /// run.
    pub fn alert_events_at(&self, now: Timestamp) -> (events: Vec<SignalEvent>)
        ensures
            reported(self@.positions, false, now, events.deep_view()),
    {
        self.events(false, now)
    }

    /// Reports the recorded fills of all the positions, timed `now` in a live
    /// run.
    pub fn trade_events_at(&self, now: Timestamp) -> (events: Vec<SignalEvent>)
        ensures
            reported(self@.positions, true, now, events.deep_view()),
    {
        self.events(true, now)
    }

    /// Reports the pending orders of all the positions. A live run times the
    /// reports by one reading of the wall clock.
    pub fn alert_events(&self) -> (events: Vec<SignalEvent>)
        ensures
            exists|now: Timestamp| reported(self@.positions, false, now, events.deep_view()),
    {
        let now = self.clock();
        let events = self.events(false, now);
        events
    }

    /// Reports the recorded fills of all the positions. A live run times the
    /// reports by one reading of the wall clock.
    pub fn trade_events(&self) -> (events: Vec<SignalEvent>)
        ensures
            exists|now: Timestamp| reported(self@.positions, true, now, events.deep_view()),
    {
        let now = self.clock();
        let events = self.events(true, now);
        events
    }
}

/// A sweep leaves every position in its place and fills at most one order on
/// each: the trades of a position are as they were, or one longer with the old
/// ones in front and no order left pending. The identity of a position does
/// not change.
pub proof fn lemma_sweep_fills_at_most_one_each(manager: ManagerView, now: Timestamp, index: int)
    requires
        0 <= index < manager.positions.len(),
    ensures
        manager.swept(now).positions.len() == manager.positions.len(),
        manager.swept(now).last_position_num == manager.last_position_num,
        ({
            let before = manager.positions[index];
            let after = manager.swept(now).positions[index];
            &&& after.id == before.id
            &&& after.prefix == before.prefix
            &&& after.code == before.code
            &&& after.parent_id == before.parent_id
            &&& {
                ||| after == before
                ||| {
                    &&& after.trades.len() == before.trades.len() + 1
                    &&& after.trades.drop_last() == before.trades
                    &&& after.alerts.len() == 0
                }
            }
        }),
{
    let before = manager.positions[index];
    let after = manager.swept(now).positions[index];
    lemma_sweep_stops_at_first_refusal(manager, now);
    if after != before {
        crate::model::lemma_resolve_fills_at_most_one(before, now);
        crate::model::lemma_resolving_keeps_identity(before, now);
    }
}

/// A sweep that is stopped by an error has resolved every position before the
/// one that refused, and has left that one and every later one as it was.
pub proof fn lemma_sweep_stops_at_first_refusal(manager: ManagerView, now: Timestamp)
    ensures
        match first_refusal(manager.positions, now) {
            Some(stop) => {
                &&& 0 <= stop < manager.positions.len()
                &&& manager.sweep_error(now) == Some(manager.positions[stop].resolved(now)->Err_0)
                &&& manager.positions[stop].resolved(now) is Err
                &&& forall|i: int|
                    0 <= i < stop ==> (#[trigger] manager.positions[i]).resolved(now) == Ok::<
                        PositionView,
                        Error,
                    >(manager.swept(now).positions[i])
                &&& forall|i: int|
                    stop <= i < manager.positions.len() ==> #[trigger] manager.swept(
                        now,
                    ).positions[i] == manager.positions[i]
            },
            None => {
                &&& manager.sweep_error(now) is None
                &&& forall|i: int|
                    0 <= i < manager.positions.len() ==> (#[trigger] manager.positions[i]).resolved(
                        now,
                    ) == Ok::<PositionView, Error>(manager.swept(now).positions[i])
            },
        },
{
    lemma_first_where(
        manager.positions,
        |position: PositionView| position.resolved(now) is Err,
        0,
    );
}

/// Every operation on the positions that are there keeps a well formed
/// manager well formed.
pub proof fn lemma_operations_keep_manager_wf(manager: ManagerView, candle: Candle, now: Timestamp)
    requires
        manager.wf(),
    ensures
        manager.with_candle(candle).wf(),
        manager.swept(now).wf(),
        manager.without_alerts().wf(),
        manager.without_trades().wf(),
        manager.without_closed().wf(),
{
    let shown = manager.with_candle(candle);
    assert forall|i: int| 0 <= i < shown.positions.len() implies (#[trigger] shown.positions[i]).wf()
        && shown.positions[i].code == manager.positions[i].code by {
        assert(manager.positions[i].wf());
    }
    let swept = manager.swept(now);
    lemma_sweep_stops_at_first_refusal(manager, now);
    assert forall|i: int| 0 <= i < swept.positions.len() implies (#[trigger] swept.positions[i]).wf()
        && swept.positions[i].code == manager.positions[i].code by {
        assert(manager.positions[i].wf());
        if swept.positions[i] != manager.positions[i] {
            crate::model::lemma_operations_keep_wf(
                manager.positions[i],
                None,
                crate::state::TradeAction::Long,
                crate::state::OrderType::Market,
                0,
                arbitrary(),
                now,
            );
            crate::model::lemma_resolving_keeps_identity(manager.positions[i], now);
        }
    }
    let quiet = manager.without_alerts();
    assert forall|i: int| 0 <= i < quiet.positions.len() implies (#[trigger] quiet.positions[i]).wf()
        && quiet.positions[i].code == manager.positions[i].code by {
        assert(manager.positions[i].wf());
    }
    let blank = manager.without_trades();
    assert forall|i: int| 0 <= i < blank.positions.len() implies (#[trigger] blank.positions[i]).wf()
        && blank.positions[i].code == manager.positions[i].code by {
        assert(manager.positions[i].wf());
    }
    lemma_codes_carry_over(manager.positions, shown.positions);
    lemma_codes_carry_over(manager.positions, swept.positions);
    lemma_codes_carry_over(manager.positions, quiet.positions);
    lemma_codes_carry_over(manager.positions, blank.positions);
    lemma_kept_are_well_formed(manager.positions);
}

/// Positions that bear, place by place, the codes of positions with distinct
/// codes have distinct codes.
proof fn lemma_codes_carry_over(before: Seq<PositionView>, after: Seq<PositionView>)
    requires
        distinct_codes(before),
        after.len() == before.len(),
        forall|i: int| 0 <= i < after.len() ==> (#[trigger] after[i]).code == before[i].code,
    ensures
        distinct_codes(after),
{
    assert forall|i: int, j: int| 0 <= i < j < after.len() implies (#[trigger] after[i]).code != (
    #[trigger] after[j]).code by {
        assert(before[i].code != before[j].code);
    }
}

/// Clearing the closed positions of well formed positions with distinct codes
/// leaves well formed positions with distinct codes, none of them closed, and
/// every one of them among those that were there.
pub proof fn lemma_kept_are_well_formed(positions: Seq<PositionView>)
    requires
        distinct_codes(positions),
        forall|i: int| 0 <= i < positions.len() ==> (#[trigger] positions[i]).wf(),
    ensures
        ({
            let kept = positions.filter(|position: PositionView| is_kept(position));
            &&& distinct_codes(kept)
            &&& forall|i: int|
                0 <= i < kept.len() ==> (#[trigger] kept[i]).wf() && is_kept(kept[i])
                    && positions.contains(kept[i])
        }),
    decreases positions.len(),
{
    reveal(Seq::filter);
    let pred = |position: PositionView| is_kept(position);
    let kept = positions.filter(pred);
    if positions.len() > 0 {
        let front = positions.drop_last();
        assert forall|i: int, j: int| 0 <= i < j < front.len() implies (#[trigger] front[i]).code != (
        #[trigger] front[j]).code by {
            assert(positions[i].code != positions[j].code);
        }
        assert forall|i: int| 0 <= i < front.len() implies (#[trigger] front[i]).wf() by {
            assert(positions[i].wf());
        }
        lemma_kept_are_well_formed(front);
        let kept_front = front.filter(pred);
        assert forall|i: int| 0 <= i < kept.len() implies (#[trigger] kept[i]).wf() && is_kept(
            kept[i],
        ) && positions.contains(kept[i]) by {
            if i < kept_front.len() {
                assert(kept[i] == kept_front[i]);
                assert(front.contains(kept_front[i]));
                let k = choose|k: int| 0 <= k < front.len() && front[k] == kept_front[i];
                assert(positions[k] == kept[i]);
            } else {
                assert(kept[i] == positions.last());
                assert(positions[positions.len() - 1] == kept[i]);
            }
        }
        assert forall|i: int, j: int| 0 <= i < j < kept.len() implies (#[trigger] kept[i]).code != (
        #[trigger] kept[j]).code by {
            if j < kept_front.len() {
                assert(kept_front[i].code != kept_front[j].code);
            } else {
                assert(kept[j] == positions.last());
                assert(kept[i] == kept_front[i]);
                assert(front.contains(kept_front[i]));
                let k = choose|k: int| 0 <= k < front.len() && front[k] == kept_front[i];
                assert(positions[k].code != positions[positions.len() - 1].code);
            }
        }
    }
}

/// Creating a position in a well formed manager gives a well formed manager.
pub proof fn lemma_creation_keeps_manager_wf(
    manager: ManagerView,
    id: u128,
    prefix: Option<Seq<char>>,
    parent_id: Option<Seq<char>>,
    grown: ManagerView,
)
    requires
        manager.wf(),
        manager.creation_error(prefix) is None,
        grown.grown_from(manager, manager.next_position(id, prefix, parent_id)),
    ensures
        grown.wf(),
{
    let added = manager.next_position(id, prefix, parent_id);
    assert forall|i: int, j: int| 0 <= i < j < grown.positions.len() implies (
    #[trigger] grown.positions[i]).code != (#[trigger] grown.positions[j]).code by {
        if j == manager.positions.len() {
            assert(manager.positions[i].code != added.code);
        } else {
            assert(manager.positions[i].code != manager.positions[j].code);
        }
    }
    assert forall|i: int| 0 <= i < grown.positions.len() implies (#[trigger] grown.positions[i]).wf() by {
        if i < manager.positions.len() {
            assert(manager.positions[i].wf());
        }
    }
}

/// The sequence counter never gives a code out twice. In a manager whose
/// codes all come from the counter, the code of the next position is free, so
/// creating fails only at the end of the counter; and the codes of the grown
/// manager all come from the counter again.
pub proof fn lemma_counter_gives_fresh_codes(
    manager: ManagerView,
    id: u128,
    prefix: Option<Seq<char>>,
    parent_id: Option<Seq<char>>,
    grown: ManagerView,
)
    requires
        manager.sequenced(),
        manager.last_position_num < u32::MAX,
        grown.grown_from(manager, manager.next_position(id, prefix, parent_id)),
    ensures
        manager.creation_error(prefix) is None,
        grown.sequenced(),
{
    let next = (manager.last_position_num + 1) as nat;
    let code = position_code(ManagerView::prefix_for(prefix), next);
    assert forall|i: int| 0 <= i < manager.positions.len() implies (
    #[trigger] manager.positions[i]).code != code by {
        let (other, number) = choose|other: Seq<char>, number: nat|
            number <= manager.last_position_num && manager.positions[i].code == position_code(
                other,
                number,
            );
        lemma_codes_differ(other, number, ManagerView::prefix_for(prefix), next);
    }
    assert forall|i: int| 0 <= i < grown.positions.len() implies exists|
        other: Seq<char>,
        number: nat,
    |
        number <= grown.last_position_num && (#[trigger] grown.positions[i]).code == position_code(
            other,
            number,
        ) by {
        if i < manager.positions.len() {
            let (other, number) = choose|other: Seq<char>, number: nat|
                number <= manager.last_position_num && manager.positions[i].code
                    == position_code(other, number);
            assert(number <= grown.last_position_num && grown.positions[i].code == position_code(
                other,
                number,
            ));
        } else {
            assert(next <= grown.last_position_num && grown.positions[i].code == position_code(
                ManagerView::prefix_for(prefix),
                next,
            ));
        }
    }
}

/// Every operation on the positions that are there keeps a manager with at
/// most one position in the default slot such a manager.
pub proof fn lemma_operations_keep_single_default(
    manager: ManagerView,
    candle: Candle,
    now: Timestamp,
)
    requires
        manager.wf(),
        manager.single_default(),
    ensures
        manager.with_candle(candle).single_default(),
        manager.swept(now).single_default(),
        manager.without_alerts().single_default(),
        manager.without_trades().single_default(),
        manager.without_closed().single_default(),
{
    let shown = manager.with_candle(candle);
    assert forall|i: int, j: int| 0 <= i < j < shown.positions.len() implies !((
    #[trigger] shown.positions[i]).prefix == default_prefix() && (
    #[trigger] shown.positions[j]).prefix == default_prefix()) by {
        assert(!(manager.positions[i].prefix == default_prefix() && manager.positions[j].prefix
            == default_prefix()));
    }
    let swept = manager.swept(now);
    assert forall|i: int, j: int| 0 <= i < j < swept.positions.len() implies !((
    #[trigger] swept.positions[i]).prefix == default_prefix() && (
    #[trigger] swept.positions[j]).prefix == default_prefix()) by {
        lemma_sweep_fills_at_most_one_each(manager, now, i);
        lemma_sweep_fills_at_most_one_each(manager, now, j);
        assert(!(manager.positions[i].prefix == default_prefix() && manager.positions[j].prefix
            == default_prefix()));
    }
    let quiet = manager.without_alerts();
    assert forall|i: int, j: int| 0 <= i < j < quiet.positions.len() implies !((
    #[trigger] quiet.positions[i]).prefix == default_prefix() && (
    #[trigger] quiet.positions[j]).prefix == default_prefix()) by {
        assert(!(manager.positions[i].prefix == default_prefix() && manager.positions[j].prefix
            == default_prefix()));
    }
    let blank = manager.without_trades();
    assert forall|i: int, j: int| 0 <= i < j < blank.positions.len() implies !((
    #[trigger] blank.positions[i]).prefix == default_prefix() && (
    #[trigger] blank.positions[j]).prefix == default_prefix()) by {
        assert(!(manager.positions[i].prefix == default_prefix() && manager.positions[j].prefix
            == default_prefix()));
    }
    lemma_kept_are_well_formed(manager.positions);
    let kept = manager.without_closed();
    assert forall|i: int, j: int| 0 <= i < j < kept.positions.len() implies !((
    #[trigger] kept.positions[i]).prefix == default_prefix() && (
    #[trigger] kept.positions[j]).prefix == default_prefix()) by {
        let first = kept.positions[i];
        let second = kept.positions[j];
        assert(first.code != second.code);
        assert(manager.positions.contains(first));
        assert(manager.positions.contains(second));
        let k = choose|k: int| 0 <= k < manager.positions.len() && manager.positions[k] == first;
        let l = choose|l: int| 0 <= l < manager.positions.len() && manager.positions[l] == second;
        if k < l {
            assert(!(manager.positions[k].prefix == default_prefix() && manager.positions[l].prefix
                == default_prefix()));
        } else {
            assert(!(manager.positions[l].prefix == default_prefix() && manager.positions[k].prefix
                == default_prefix()));
        }
    }
}

/// The positions that are read from wire records all run in the mode they
/// were read for.
pub proof fn lemma_rehydrated_in_one_mode(records: Seq<PositionStateView>, backtest: bool)
    requires
        rehydrated(records, backtest) is Ok,
    ensures
        forall|i: int|
            0 <= i < rehydrated(records, backtest).unwrap().len() ==> (#[trigger] rehydrated(
                records,
                backtest,
            ).unwrap()[i]).backtest == backtest,
    decreases records.len(),
{
    if records.len() > 0 {
        lemma_rehydrated_in_one_mode(records.drop_last(), backtest);
        let front = rehydrated(records.drop_last(), backtest).unwrap();
        let last = PositionView::restored(records.last(), None, backtest).unwrap();
        lemma_first_where(front, |other: PositionView| other.code == last.code, 0);
    }
}

/// Every operation keeps the positions in the mode of the manager, and so
/// does creating a position.
pub proof fn lemma_operations_keep_one_mode(
    manager: ManagerView,
    candle: Candle,
    now: Timestamp,
    id: u128,
    prefix: Option<Seq<char>>,
    parent_id: Option<Seq<char>>,
    grown: ManagerView,
)
    requires
        manager.one_mode(),
    ensures
        manager.with_candle(candle).one_mode(),
        manager.swept(now).one_mode(),
        manager.without_alerts().one_mode(),
        manager.without_trades().one_mode(),
        manager.without_closed().one_mode(),
        grown.grown_from(manager, manager.next_position(id, prefix, parent_id))
            ==> grown.one_mode(),
{
    let swept = manager.swept(now);
    lemma_sweep_stops_at_first_refusal(manager, now);
    assert forall|i: int| 0 <= i < swept.positions.len() implies (
    #[trigger] swept.positions[i]).backtest == swept.backtest by {
        assert(manager.positions[i].backtest == manager.backtest);
        if swept.positions[i] != manager.positions[i] {
            crate::model::lemma_resolving_keeps_identity(manager.positions[i], now);
        }
    }
    let shown = manager.with_candle(candle);
    assert forall|i: int| 0 <= i < shown.positions.len() implies (
    #[trigger] shown.positions[i]).backtest == shown.backtest by {
        assert(manager.positions[i].backtest == manager.backtest);
    }
    let quiet = manager.without_alerts();
    assert forall|i: int| 0 <= i < quiet.positions.len() implies (
    #[trigger] quiet.positions[i]).backtest == quiet.backtest by {
        assert(manager.positions[i].backtest == manager.backtest);
    }
    let blank = manager.without_trades();
    assert forall|i: int| 0 <= i < blank.positions.len() implies (
    #[trigger] blank.positions[i]).backtest == blank.backtest by {
        assert(manager.positions[i].backtest == manager.backtest);
    }
    let kept = manager.without_closed();
    assert forall|i: int| 0 <= i < kept.positions.len() implies (
    #[trigger] kept.positions[i]).backtest == kept.backtest by {
        let pred = |position: PositionView| is_kept(position);
        manager.positions.lemma_filter_contains_rev(pred, kept.positions[i]);
        let k = choose|k: int|
            0 <= k < manager.positions.len() && manager.positions[k] == kept.positions[i];
        assert(manager.positions[k].backtest == manager.backtest);
    }
    if grown.grown_from(manager, manager.next_position(id, prefix, parent_id)) {
        assert forall|i: int| 0 <= i < grown.positions.len() implies (
        #[trigger] grown.positions[i]).backtest == grown.backtest by {
            if i < manager.positions.len() {
                assert(manager.positions[i].backtest == manager.backtest);
            }
        }
    }
}

/// A back test never depends on the clock: in a manager whose positions all
/// run a back test, a sweep comes out the same whatever instant is handed in.
pub proof fn lemma_backtest_sweep_ignores_clock(
    manager: ManagerView,
    now: Timestamp,
    other: Timestamp,
)
    requires
        manager.one_mode(),
        manager.backtest,
    ensures
        manager.swept(now) == manager.swept(other),
        manager.sweep_error(now) == manager.sweep_error(other),
{
    assert forall|i: int| 0 <= i < manager.positions.len() implies (
    #[trigger] manager.positions[i]).resolved(now) == manager.positions[i].resolved(other) by {
        crate::model::lemma_backtest_ignores_clock(manager.positions[i], arbitrary(), now, other);
    }
    lemma_sweep_stops_at_first_refusal(manager, now);
    lemma_sweep_stops_at_first_refusal(manager, other);
    let first = first_refusal(manager.positions, now);
    let second = first_refusal(manager.positions, other);
    assert(first == second) by {
        if first is Some && second is Some {
            let a = first.unwrap();
            let b = second.unwrap();
            if a < b {
                assert(manager.positions[a].resolved(other) is Ok);
            } else if b < a {
                assert(manager.positions[b].resolved(now) is Ok);
            }
        } else if first is Some {
            assert(manager.positions[first.unwrap()].resolved(other) is Ok);
        } else if second is Some {
            assert(manager.positions[second.unwrap()].resolved(now) is Ok);
        }
    }
    assert(manager.swept(now).positions =~= manager.swept(other).positions);
}

} // verus!
