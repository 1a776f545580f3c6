//! Submitted queries and what came back for them.
use vstd::prelude::*;

verus! {

/// What running one query gave.
pub enum QueryOutcome {
    /// The query ran; `num_rows` rows came back.
    Success { num_rows: usize, elapsed_millis: u64 },
    /// The query was refused or failed, for the reason in `error`.
    Failure { error: String, elapsed_millis: u64 },
}

/// A submitted query: its text, the submission it belongs to, and once it has
/// run, its row count or its error and how long it took.
pub struct Query {
    pub sql: String,
    /// Which submission this is; later submissions carry larger numbers until
    /// the counter wraps.
    pub generation: u64,
    pub num_rows: Option<usize>,
    pub error: Option<String>,
    pub elapsed_millis: u64,
}

/// The sum of all entries of `s`.
pub open spec fn seq_sum(s: Seq<usize>) -> int
    decreases s.len(),
{
    if s.len() == 0 {
        0
    } else {
        seq_sum(s.drop_last()) + s.last()
    }
}

proof fn lemma_seq_sum_grows(s: Seq<usize>, i: int)
    requires
        0 <= i <= s.len(),
    ensures
        seq_sum(s.subrange(0, i)) <= seq_sum(s),
        0 <= seq_sum(s.subrange(0, i)),
    decreases s.len(),
{
    if i < s.len() {
        assert(s.drop_last().subrange(0, i) =~= s.subrange(0, i));
        lemma_seq_sum_grows(s.drop_last(), i);
    } else {
        assert(s.subrange(0, i) =~= s);
        if s.len() > 0 {
            lemma_seq_sum_grows(s.drop_last(), i - 1);
            assert(s.drop_last().subrange(0, i - 1) =~= s.drop_last());
        }
    }
}

/// The number of rows in a result made of batches of the given sizes; `None`
/// where the count does not fit a `usize`.
pub fn total_rows(batch_rows: &Vec<usize>) -> (r: Option<usize>)
    ensures
        seq_sum(batch_rows@) <= usize::MAX ==> r == Some(seq_sum(batch_rows@) as usize),
        seq_sum(batch_rows@) > usize::MAX ==> r == None::<usize>,
{
    let mut total: usize = 0;
    let mut i: usize = 0;
    while i < batch_rows.len()
        invariant
            i <= batch_rows@.len(),
            total == seq_sum(batch_rows@.subrange(0, i as int)),
        decreases batch_rows@.len() - i,
    {
        assert(batch_rows@.subrange(0, i + 1).drop_last() =~= batch_rows@.subrange(0, i as int));
        if total > usize::MAX - batch_rows[i] {
            proof {
                lemma_seq_sum_grows(batch_rows@, i + 1);
            }
            return None;
        }
        total = total + batch_rows[i];
        i = i + 1;
    }
    assert(batch_rows@.subrange(0, i as int) =~= batch_rows@);
    Some(total)
}

impl Query {
    /// A query that has been submitted and has not run yet.
    pub fn new(sql: String, generation: u64) -> (r: Query)
        ensures
            r.sql@ == sql@,
            r.generation == generation,
            r.num_rows == None::<usize>,
            r.error == None::<String>,
            r.elapsed_millis == 0,
    {
        Query { sql, generation, num_rows: None, error: None, elapsed_millis: 0 }
    }

    /// Records what running the query gave.
    pub fn complete(&mut self, outcome: QueryOutcome)
        ensures
            final(self).sql == old(self).sql,
            final(self).generation == old(self).generation,
            match outcome {
                QueryOutcome::Success { num_rows, elapsed_millis } => {
                    &&& final(self).num_rows == Some(num_rows)
                    &&& final(self).error == None::<String>
                    &&& final(self).elapsed_millis == elapsed_millis
                },
                QueryOutcome::Failure { error, elapsed_millis } => {
                    &&& final(self).num_rows == None::<usize>
                    &&& final(self).error == Some(error)
                    &&& final(self).elapsed_millis == elapsed_millis
                },
            },
    {
        match outcome {
            QueryOutcome::Success { num_rows, elapsed_millis } => {
                self.num_rows = Some(num_rows);
                self.error = None;
                self.elapsed_millis = elapsed_millis;
            },
            QueryOutcome::Failure { error, elapsed_millis } => {
                self.num_rows = None;
                self.error = Some(error);
                self.elapsed_millis = elapsed_millis;
            },
        }
    }

    /// A second record equal to this one.
    pub fn duplicate(&self) -> (r: Query)
        ensures
            r == *self,
    {
        let error = match &self.error {
            Some(e) => Some(e.clone()),
            None => None,
        };
        Query {
            sql: self.sql.clone(),
            generation: self.generation,
            num_rows: self.num_rows,
            error,
            elapsed_millis: self.elapsed_millis,
        }
    }

    /// Whether the query ran without error.
    pub fn succeeded(&self) -> (r: bool)
        ensures
            r == (self.error is None && self.num_rows is Some),
    {
        self.error.is_none() && self.num_rows.is_some()
    }
}

} // verus!
