use vstd::prelude::*;

use crate::decryption_id::DecryptionId;
use crate::kms_response::{KmsResponse, PendingEvent};

verus! {

/// The two tables of stored responses, one per variant.
#[derive(Clone, Copy, Debug, PartialEq, Eq)]
pub enum ResponseTable {
    PublicDecryptionResponses,
    UserDecryptionResponses,
}

/// A stored row as written: identifier, result bytes, signature.
pub type RowView = (Seq<u8>, Seq<u8>, Seq<u8>);

/// An insert of one row that is skipped when the table already holds a row
/// with the same identifier.
#[derive(Clone, Debug, PartialEq)]
pub struct InsertStatement {
    pub table: ResponseTable,
    pub decryption_id: DecryptionId,
    pub payload: Vec<u8>,
    pub signature: Vec<u8>,
}

impl InsertStatement {
    pub open spec fn row(&self) -> RowView {
        (self.decryption_id.le_bytes@, self.payload@, self.signature@)
    }
}

/// The SQL of an insert into a table: the three columns in order, and a
/// conflict on the identifier skips the row.
pub open spec fn insert_sql_spec(t: ResponseTable) -> Seq<char> {
    match t {
        ResponseTable::PublicDecryptionResponses => "INSERT INTO public_decryption_responses VALUES ($1, $2, $3) ON CONFLICT DO NOTHING"@,
        ResponseTable::UserDecryptionResponses => "INSERT INTO user_decryption_responses VALUES ($1, $2, $3) ON CONFLICT DO NOTHING"@,
    }
}

impl InsertStatement {
    /// The SQL to run, with the identifier, the result bytes and the
    /// signature bound to `$1`, `$2` and `$3`.
    pub fn sql(&self) -> (r: &'static str)
        ensures
            r@ == insert_sql_spec(self.table),
    {
        match self.table {
            ResponseTable::PublicDecryptionResponses => {
                proof {
                    reveal_strlit(
                        "INSERT INTO public_decryption_responses VALUES ($1, $2, $3) ON CONFLICT DO NOTHING",
                    );
                }
                "INSERT INTO public_decryption_responses VALUES ($1, $2, $3) ON CONFLICT DO NOTHING"
            },
            ResponseTable::UserDecryptionResponses => {
                proof {
                    reveal_strlit(
                        "INSERT INTO user_decryption_responses VALUES ($1, $2, $3) ON CONFLICT DO NOTHING",
                    );
                }
                "INSERT INTO user_decryption_responses VALUES ($1, $2, $3) ON CONFLICT DO NOTHING"
            },
        }
    }
}

pub open spec fn table_of(resp: KmsResponse) -> ResponseTable {
    if resp.is_public() {
        ResponseTable::PublicDecryptionResponses
    } else {
        ResponseTable::UserDecryptionResponses
    }
}

pub open spec fn row_of(resp: KmsResponse) -> RowView {
    (resp.id().le_bytes@, resp.payload(), resp.signature())
}

/// The insert that stores a response in its variant's table.
pub fn insert_statement(resp: &KmsResponse) -> (r: InsertStatement)
    ensures
        r.table == table_of(*resp),
        r.row() == row_of(*resp),
        r.decryption_id == resp.id(),
{
    match resp {
        KmsResponse::PublicDecryption { decryption_id, decrypted_result, signature } => {
            InsertStatement {
                table: ResponseTable::PublicDecryptionResponses,
                decryption_id: *decryption_id,
                payload: decrypted_result.clone(),
                signature: signature.clone(),
            }
        },
        KmsResponse::UserDecryption { decryption_id, user_decrypted_shares, signature } => {
            InsertStatement {
                table: ResponseTable::UserDecryptionResponses,
                decryption_id: *decryption_id,
                payload: user_decrypted_shares.clone(),
                signature: signature.clone(),
            }
        },
    }
}

pub open spec fn has_id(rows: Seq<RowView>, id: Seq<u8>) -> bool {
    exists|j: int| 0 <= j < rows.len() && (#[trigger] rows[j]).0 == id
}

pub open spec fn ids_unique(rows: Seq<RowView>) -> bool {
    forall|i: int, j: int|
        0 <= i < rows.len() && 0 <= j < rows.len() && i != j ==> (#[trigger] rows[i]).0 != (
        #[trigger] rows[j]).0
}

/// The number of rows with the identifier `id`.
pub open spec fn count_id(rows: Seq<RowView>, id: Seq<u8>) -> nat
    decreases rows.len(),
{
    if rows.len() == 0 {
        0
    } else {
        count_id(rows.drop_last(), id) + if rows.last().0 == id {
            1nat
        } else {
            0nat
        }
    }
}

/// A table after an insert that skips conflicts, with the number of rows
/// the insert wrote.
pub open spec fn insert_spec(rows: Seq<RowView>, row: RowView) -> (Seq<RowView>, u64) {
    if has_id(rows, row.0) {
        (rows, 0)
    } else {
        (rows.push(row), 1)
    }
}

/// What is done once the insert of a response has run.
#[derive(Clone, Copy, Debug, PartialEq, Eq)]
pub enum InsertOutcome {
    RowsAffected(u64),
    Failed,
}

#[derive(Clone, Copy, Debug, PartialEq, Eq)]
pub enum PublishDecision {
    /// One row was written: success.
    Stored,
    /// Another number of rows was written (zero for an answer that was
    /// already stored): success, to be reported as unexpected.
    Unexpected { rows_affected: u64 },
    /// The insert failed: put this event back to pending, then fail.
    RequeueAndFail(PendingEvent),
}

impl PublishDecision {
    pub open spec fn is_success(&self) -> bool {
        !(self is RequeueAndFail)
    }
}

/// What publishing a response comes to, from the insert's outcome.
pub open spec fn decision_spec(resp: KmsResponse, outcome: InsertOutcome) -> PublishDecision {
    match outcome {
        InsertOutcome::RowsAffected(n) => if n == 1 {
            PublishDecision::Stored
        } else {
            PublishDecision::Unexpected { rows_affected: n }
        },
        InsertOutcome::Failed => PublishDecision::RequeueAndFail(resp.pending_event()),
    }
}

/// Decides what publishing a response comes to, from the insert's outcome:
/// one row written is a success, another count a success to report, and a
/// failed insert puts the response's one gateway event back to pending
/// before failing.
pub fn publish_decision(resp: &KmsResponse, outcome: InsertOutcome) -> (r: PublishDecision)
    ensures
        r == decision_spec(*resp, outcome),
        r.is_success() <==> outcome != InsertOutcome::Failed,
{
    match outcome {
        InsertOutcome::RowsAffected(n) => {
            if n == 1 {
                PublishDecision::Stored
            } else {
                PublishDecision::Unexpected { rows_affected: n }
            }
        },
        InsertOutcome::Failed => PublishDecision::RequeueAndFail(resp.free_associated_event()),
    }
}

/// A store of responses held in memory, with the two tables' uniqueness
/// rule on the identifier.
pub struct ResponseStore {
    pub public_rows: Vec<InsertStatement>,
    pub user_rows: Vec<InsertStatement>,
}

pub open spec fn rows_view(rows: Seq<InsertStatement>) -> Seq<RowView> {
    rows.map_values(|s: InsertStatement| s.row())
}

impl ResponseStore {
    pub open spec fn table(&self, t: ResponseTable) -> Seq<RowView> {
        match t {
            ResponseTable::PublicDecryptionResponses => rows_view(self.public_rows@),
            ResponseTable::UserDecryptionResponses => rows_view(self.user_rows@),
        }
    }

    pub open spec fn wf(&self) -> bool {
        &&& ids_unique(self.table(ResponseTable::PublicDecryptionResponses))
        &&& ids_unique(self.table(ResponseTable::UserDecryptionResponses))
    }

    pub fn new() -> (r: ResponseStore)
        ensures
            r.wf(),
            r.table(ResponseTable::PublicDecryptionResponses).len() == 0,
            r.table(ResponseTable::UserDecryptionResponses).len() == 0,
    {
        ResponseStore { public_rows: Vec::new(), user_rows: Vec::new() }
    }

    fn find(rows: &Vec<InsertStatement>, id: &DecryptionId) -> (r: bool)
        ensures
            r == has_id(rows_view(rows@), id.le_bytes@),
    {
        let mut i: usize = 0;
        while i < rows.len()
            invariant
                i <= rows@.len(),
                forall|j: int| 0 <= j < i ==> (#[trigger] rows_view(rows@)[j]).0 != id.le_bytes@,
            decreases rows@.len() - i,
        {
            if rows[i].decryption_id.equals(id) {
                assert(rows_view(rows@)[i as int].0 == id.le_bytes@);
                return true;
            }
            assert(rows@[i as int].decryption_id.le_bytes@ != id.le_bytes@);
            i += 1;
        }
        false
    }

    fn insert_into(rows: &mut Vec<InsertStatement>, stmt: &InsertStatement) -> (r: u64)
        ensures
            (rows_view(final(rows)@), r) == insert_spec(rows_view(old(rows)@), stmt.row()),
            ids_unique(rows_view(old(rows)@)) ==> ids_unique(rows_view(final(rows)@)),
    {
        if Self::find(rows, &stmt.decryption_id) {
            0
        } else {
            let copy = InsertStatement {
                table: stmt.table,
                decryption_id: stmt.decryption_id,
                payload: stmt.payload.clone(),
                signature: stmt.signature.clone(),
            };
            rows.push(copy);
            proof {
                assert(rows_view(rows@) == rows_view(old(rows)@).push(stmt.row()));
                let v = rows_view(rows@);
                if ids_unique(rows_view(old(rows)@)) {
                    assert forall|i: int, j: int|
                        0 <= i < v.len() && 0 <= j < v.len() && i != j implies (#[trigger] v[i]).0
                        != (#[trigger] v[j]).0 by {
                        if i == v.len() - 1 {
                            assert(v[j] == rows_view(old(rows)@)[j]);
                        } else if j == v.len() - 1 {
                            assert(v[i] == rows_view(old(rows)@)[i]);
                        } else {
                            assert(v[i] == rows_view(old(rows)@)[i]);
                            assert(v[j] == rows_view(old(rows)@)[j]);
                        }
                    }
                }
            }
            1
        }
    }

    /// Runs an insert; the number of rows it wrote comes back.
    pub fn execute(&mut self, stmt: &InsertStatement) -> (r: u64)
        requires
            old(self).wf(),
        ensures
            final(self).wf(),
            (final(self).table(stmt.table), r) == insert_spec(old(self).table(stmt.table), stmt.row()),
            forall|t: ResponseTable| t != stmt.table ==> final(self).table(t) == old(self).table(t),
    {
        match stmt.table {
            ResponseTable::PublicDecryptionResponses => Self::insert_into(&mut self.public_rows, stmt),
            ResponseTable::UserDecryptionResponses => Self::insert_into(&mut self.user_rows, stmt),
        }
    }

    /// The number of rows of a table with the given identifier.
    pub fn rows_with_id(&self, t: ResponseTable, id: &DecryptionId) -> (r: usize)
        ensures
            r == count_id(self.table(t), id.le_bytes@),
    {
        let rows = match t {
            ResponseTable::PublicDecryptionResponses => &self.public_rows,
            ResponseTable::UserDecryptionResponses => &self.user_rows,
        };
        let mut n: usize = 0;
        let mut i: usize = 0;
        while i < rows.len()
            invariant
                i <= rows@.len(),
                rows_view(rows@) == self.table(t),
                n == count_id(rows_view(rows@).subrange(0, i as int), id.le_bytes@),
                n <= i,
            decreases rows@.len() - i,
        {
            proof {
                let next = rows_view(rows@).subrange(0, i + 1);
                assert(next.drop_last() == rows_view(rows@).subrange(0, i as int));
            }
            if rows[i].decryption_id.equals(id) {
                n += 1;
            }
            i += 1;
        }
        assert(rows_view(rows@).subrange(0, rows@.len() as int) == rows_view(rows@));
        n
    }
}

proof fn lemma_count_unique(rows: Seq<RowView>, id: Seq<u8>)
    requires
        ids_unique(rows),
    ensures
        count_id(rows, id) == if has_id(rows, id) {
            1nat
        } else {
            0nat
        },
    decreases rows.len(),
{
    if rows.len() > 0 {
        let init = rows.drop_last();
        assert(ids_unique(init)) by {
            assert forall|i: int, j: int|
                0 <= i < init.len() && 0 <= j < init.len() && i != j implies (#[trigger] init[i]).0
                != (#[trigger] init[j]).0 by {
                assert(init[i] == rows[i] && init[j] == rows[j]);
            }
        }
        lemma_count_unique(init, id);
        if rows.last().0 == id {
            assert(!has_id(init, id)) by {
                if has_id(init, id) {
                    let j = choose|j: int| 0 <= j < init.len() && (#[trigger] init[j]).0 == id;
                    assert(rows[j] == init[j]);
                    assert(rows[rows.len() - 1] == rows.last());
                }
            }
            assert(has_id(rows, id)) by {
                assert(rows[rows.len() - 1] == rows.last());
            }
        } else {
            assert(has_id(rows, id) == has_id(init, id)) by {
                if has_id(rows, id) {
                    let j = choose|j: int| 0 <= j < rows.len() && (#[trigger] rows[j]).0 == id;
                    assert(j != rows.len() - 1);
                    assert(rows[j] == init[j]);
                }
                if has_id(init, id) {
                    let j = choose|j: int| 0 <= j < init.len() && (#[trigger] init[j]).0 == id;
                    assert(rows[j] == init[j]);
                }
            }
        }
    }
}

proof fn lemma_insert_keeps_unique(rows: Seq<RowView>, row: RowView)
    requires
        ids_unique(rows),
    ensures
        ids_unique(insert_spec(rows, row).0),
        has_id(insert_spec(rows, row).0, row.0),
{
    let v = insert_spec(rows, row).0;
    if !has_id(rows, row.0) {
        assert forall|i: int, j: int|
            0 <= i < v.len() && 0 <= j < v.len() && i != j implies (#[trigger] v[i]).0 != (
            #[trigger] v[j]).0 by {
            if i == v.len() - 1 {
                assert(v[j] == rows[j]);
            } else if j == v.len() - 1 {
                assert(v[i] == rows[i]);
            } else {
                assert(v[i] == rows[i] && v[j] == rows[j]);
            }
        }
        assert(v[v.len() - 1] == row);
    }
}

/// Storing the same response twice leaves exactly one row with its
/// identifier; the second insert writes no row, which publishing reports as
/// a success.
pub proof fn lemma_publish_idempotent(rows: Seq<RowView>, resp: KmsResponse)
    requires
        ids_unique(rows),
    ensures
        ({
            let once = insert_spec(rows, row_of(resp));
            let twice = insert_spec(once.0, row_of(resp));
            &&& twice.0 == once.0
            &&& twice.1 == 0
            &&& decision_spec(resp, InsertOutcome::RowsAffected(twice.1)).is_success()
            &&& count_id(twice.0, resp.id().le_bytes@) == 1
            &&& ids_unique(twice.0)
        }),
{
    let once = insert_spec(rows, row_of(resp));
    lemma_insert_keeps_unique(rows, row_of(resp));
    lemma_count_unique(once.0, resp.id().le_bytes@);
}

/// A public and a user response with the same identifier are stored in
/// their own tables and never collide: each table then holds exactly one
/// row with that identifier.
pub proof fn lemma_variants_never_collide(
    public_rows: Seq<RowView>,
    user_rows: Seq<RowView>,
    public_resp: KmsResponse,
    user_resp: KmsResponse,
)
    requires
        ids_unique(public_rows),
        ids_unique(user_rows),
        public_resp.is_public(),
        !user_resp.is_public(),
        public_resp.id() == user_resp.id(),
    ensures
        table_of(public_resp) != table_of(user_resp),
        count_id(insert_spec(public_rows, row_of(public_resp)).0, public_resp.id().le_bytes@) == 1,
        count_id(insert_spec(user_rows, row_of(user_resp)).0, user_resp.id().le_bytes@) == 1,
{
    lemma_insert_keeps_unique(public_rows, row_of(public_resp));
    lemma_count_unique(insert_spec(public_rows, row_of(public_resp)).0, public_resp.id().le_bytes@);
    lemma_insert_keeps_unique(user_rows, row_of(user_resp));
    lemma_count_unique(insert_spec(user_rows, row_of(user_resp)).0, user_resp.id().le_bytes@);
}

} // verus!
