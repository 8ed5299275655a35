//! Per-column output fields and the pull-based row cursor.
//!
//! The cursor is a three-state machine (`Active`, `Exhausted`, `Failed`).
//! Each advance consumes what one native single-row fetch reported — handed
//! in by the unverified foreign-call layer — updates the fields' buffers and
//! indicators, and yields a row snapshot, the end of the sequence, or the
//! fetch failure. Exhaustion is terminal and idempotent: once the native
//! fetch reports no more data, no later advance yields a row.
use vstd::prelude::*;

use crate::error::OciError;
use crate::types::OciDataType;

verus! {

/// One result column's output state: the fixed-width output buffer, the
/// null-indicator cell, and the normalized type tag the column was defined
/// with. The native output-registration handle itself lives with the
/// foreign-call layer.
pub struct Field {
    /// Output buffer the fetched bytes of this column are copied into.
    pub buffer: Vec<u8>,
    /// Null-indicator cell; -1 means SQL NULL.
    pub indicator: i16,
    /// Normalized type tag resolved for this column.
    pub typ: OciDataType,
}

impl Field {
    /// A field over a fresh output buffer and indicator cell.
    pub fn new(buffer: Vec<u8>, indicator: i16, typ: OciDataType) -> (f: Field)
        ensures
            f.buffer == buffer,
            f.indicator == indicator,
            f.typ == typ,
    {
        Field { buffer, indicator, typ }
    }

    /// SQL NULL exactly when the stored indicator equals -1; any other
    /// indicator value ever stored means not-null.
    pub fn is_null(&self) -> (r: bool)
        ensures
            r == (self.indicator == -1),
    {
        self.indicator == -1
    }
}

/// The cursor's state: pulling rows, past the last row, or stopped on a
/// fetch failure.
#[derive(Clone, Copy, Debug, PartialEq, Eq, Structural)]
pub enum CursorState {
    /// Rows may still arrive.
    Active,
    /// The native fetch reported no more data; terminal.
    Exhausted,
    /// A native fetch failed; terminal.
    Failed,
}

/// What one native single-row fetch reported, as the foreign-call layer
/// hands it in.
pub enum FetchOutcome {
    /// The fetch call failed; carries the extracted diagnostic bytes.
    Failure(Vec<u8>),
    /// The fetch reported that no more rows exist.
    NoData,
    /// One row arrived: per column in order, the output buffer's bytes and
    /// the indicator value the native call stored.
    Row(Vec<(Vec<u8>, i16)>),
}

/// The transient view of one fetched row that is handed to the row-decoding
/// collaborator: per column, the raw bytes and whether the value is SQL NULL.
pub struct RowSnapshot {
    /// Raw buffer contents per column, in column order.
    pub columns: Vec<Vec<u8>>,
    /// Per column, true exactly when its indicator reported SQL NULL.
    pub nulls: Vec<bool>,
}

/// What one advance of the cursor yields.
pub enum CursorStep {
    /// A fetched row, ready for the row-decoding collaborator.
    Row(RowSnapshot),
    /// The sequence is over (exhaustion, or a defensive end after failure).
    End,
    /// The native fetch failed; the cursor is now stopped.
    Failure(OciError),
}

/// The cursor state after consuming one fetch outcome.
pub open spec fn next_state(s: CursorState, o: FetchOutcome) -> CursorState {
    match s {
        CursorState::Active => match o {
            FetchOutcome::Failure(_) => CursorState::Failed,
            FetchOutcome::NoData => CursorState::Exhausted,
            FetchOutcome::Row(_) => CursorState::Active,
        },
        CursorState::Exhausted => CursorState::Exhausted,
        CursorState::Failed => CursorState::Failed,
    }
}

/// True when consuming this outcome in this state yields a row item.
pub open spec fn yields_row(s: CursorState, o: FetchOutcome) -> bool {
    s == CursorState::Active && o matches FetchOutcome::Row(_)
}

/// The state after consuming a whole sequence of fetch outcomes.
pub open spec fn run_states(s: CursorState, os: Seq<FetchOutcome>) -> CursorState
    decreases os.len(),
{
    if os.len() == 0 {
        s
    } else {
        run_states(next_state(s, os[0]), os.drop_first())
    }
}

/// Exhaustion is terminal: a cursor that has reached exhaustion stays
/// exhausted under every further sequence of fetch outcomes.
pub proof fn lemma_exhausted_stays_exhausted(os: Seq<FetchOutcome>)
    ensures
        run_states(CursorState::Exhausted, os) == CursorState::Exhausted,
    decreases os.len(),
{
    if os.len() > 0 {
        lemma_exhausted_stays_exhausted(os.drop_first());
    }
}

/// Exhaustion is idempotent: after reaching exhaustion, no advance in any
/// further sequence of fetch outcomes ever yields a row item.
pub proof fn lemma_exhausted_never_yields(os: Seq<FetchOutcome>, i: int)
    requires
        0 <= i < os.len(),
    ensures
        !yields_row(run_states(CursorState::Exhausted, os.take(i)), os[i]),
{
    lemma_exhausted_stays_exhausted(os.take(i));
}

/// The pull-based iteration object over an executed result-producing
/// statement: it exclusively owns its fields and counts the rows fetched.
pub struct Cursor {
    /// Per-column output fields, created by column definition.
    pub fields: Vec<Field>,
    /// Where in the pull protocol the cursor stands.
    pub state: CursorState,
    /// How many rows the native fetch has delivered so far.
    pub current_row: u32,
}

impl Cursor {
    /// A fresh cursor over the defined fields, ready to pull rows.
    pub fn new(fields: Vec<Field>) -> (c: Cursor)
        ensures
            c.fields == fields,
            c.state == CursorState::Active,
            c.current_row == 0,
    {
        Cursor { fields, state: CursorState::Active, current_row: 0 }
    }

    /// Consumes what one native fetch reported and moves the state machine.
    ///
    /// From `Active`: a failure is yielded as the error item and stops the
    /// cursor; no-more-data ends the sequence; a row snapshots every
    /// column's bytes and null flag — unchanged — for the row-decoding
    /// collaborator and increments the row counter. From `Exhausted` or
    /// `Failed`, nothing is consumed and nothing is yielded, whatever the
    /// outcome says.
    pub fn advance(&mut self, outcome: FetchOutcome) -> (r: CursorStep)
        requires
            old(self).current_row < u32::MAX,
            (outcome matches FetchOutcome::Row(cols) ==> cols@.len() == old(self).fields@.len()),
        ensures
            final(self).state == next_state(old(self).state, outcome),
            final(self).fields@.len() == old(self).fields@.len(),
            (r matches CursorStep::Row(_)) == yields_row(old(self).state, outcome),
            old(self).state == CursorState::Exhausted ==> r is End && *final(self) == *old(self),
            old(self).state == CursorState::Failed ==> r is End && *final(self) == *old(self),
            old(self).state == CursorState::Active ==> match outcome {
                FetchOutcome::Failure(diag) => {
                    &&& (r matches CursorStep::Failure(e) && e matches OciError::CommandFailure(d)
                        && d == diag)
                    &&& final(self).fields == old(self).fields
                    &&& final(self).current_row == old(self).current_row
                },
                FetchOutcome::NoData => {
                    &&& r is End
                    &&& final(self).fields == old(self).fields
                    &&& final(self).current_row == old(self).current_row
                },
                FetchOutcome::Row(cols) => {
                    &&& final(self).current_row == old(self).current_row + 1
                    &&& (forall|i: int|
                        0 <= i < cols@.len() ==> {
                            &&& (#[trigger] final(self).fields@[i]).buffer@ == cols@[i].0@
                            &&& final(self).fields@[i].indicator == cols@[i].1
                            &&& final(self).fields@[i].typ == old(self).fields@[i].typ
                        })
                    &&& (r matches CursorStep::Row(row) && {
                        &&& row.columns@.len() == cols@.len()
                        &&& row.nulls@.len() == cols@.len()
                        &&& (forall|i: int|
                            0 <= i < cols@.len() ==> (#[trigger] row.columns@[i])@ == cols@[i].0@
                                && row.nulls@[i] == (cols@[i].1 == -1i16))
                    })
                },
            },
    {
        match self.state {
            CursorState::Exhausted => CursorStep::End,
            CursorState::Failed => CursorStep::End,
            CursorState::Active => match outcome {
                FetchOutcome::Failure(diag) => {
                    self.state = CursorState::Failed;
                    CursorStep::Failure(OciError::CommandFailure(diag))
                },
                FetchOutcome::NoData => {
                    self.state = CursorState::Exhausted;
                    CursorStep::End
                },
                FetchOutcome::Row(cols) => {
                    let mut new_fields: Vec<Field> = Vec::new();
                    let mut columns: Vec<Vec<u8>> = Vec::new();
                    let mut nulls: Vec<bool> = Vec::new();
                    let mut i: usize = 0;
                    while i < cols.len()
                        invariant
                            i <= cols@.len(),
                            cols@.len() == self.fields@.len(),
                            new_fields@.len() == i,
                            columns@.len() == i,
                            nulls@.len() == i,
                            forall|k: int|
                                0 <= k < i ==> {
                                    &&& (#[trigger] new_fields@[k]).buffer@ == cols@[k].0@
                                    &&& new_fields@[k].indicator == cols@[k].1
                                    &&& new_fields@[k].typ == self.fields@[k].typ
                                },
                            forall|k: int|
                                0 <= k < i ==> (#[trigger] columns@[k])@ == cols@[k].0@
                                    && nulls@[k] == (cols@[k].1 == -1i16),
                            self == old(self),
                        decreases cols@.len() - i,
                    {
                        let field_bytes = cols[i].0.clone();
                        let snapshot_bytes = cols[i].0.clone();
                        let ind = cols[i].1;
                        let typ = self.fields[i].typ;
                        proof {
                            assert(field_bytes@ =~= cols@[i as int].0@);
                            assert(snapshot_bytes@ =~= cols@[i as int].0@);
                        }
                        new_fields.push(Field { buffer: field_bytes, indicator: ind, typ });
                        columns.push(snapshot_bytes);
                        nulls.push(ind == -1);
                        i = i + 1;
                    }
                    self.fields = new_fields;
                    self.current_row = self.current_row + 1;
                    CursorStep::Row(RowSnapshot { columns, nulls })
                },
            },
        }
    }
}

} // verus!
