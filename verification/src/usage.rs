//! Usage counts of API calls: the number of calls and of tokens in all, by
//! model and by day. What the calls cost is a fraction and is summed by the
//! caller.

use vstd::prelude::*;
use crate::keyed::{unique_keys, key_map, lemma_key_at, lemma_key_update, lemma_key_push, find_key};

verus! {

/// One recorded call: its model, its day as `YYYY-MM-DD`, and its tokens.
#[derive(Debug, Clone)]
pub struct UsageRow {
    pub model: String,
    pub date: String,
    pub input_tokens: u32,
    pub output_tokens: u32,
    pub total_tokens: u32,
}

/// The calls and tokens of one model.
#[derive(Debug, Clone, Copy)]
pub struct ModelCounts {
    pub calls: u32,
    pub input_tokens: u32,
    pub output_tokens: u32,
}

/// The calls and tokens of one day.
#[derive(Debug, Clone, Copy)]
pub struct DateCounts {
    pub calls: u32,
    pub total_tokens: u32,
}

/// The calls and tokens in all, by model and by day.
#[derive(Debug, Clone)]
pub struct UsageCounts {
    pub total_calls: u32,
    pub total_input_tokens: u32,
    pub total_output_tokens: u32,
    pub total_tokens: u32,
    pub by_model: Vec<(String, ModelCounts)>,
    pub by_date: Vec<(String, DateCounts)>,
}

/// What usage counts say: the totals, and per model (calls, input tokens,
/// output tokens) and per day (calls, tokens).
pub struct UsageCountsView {
    pub total_calls: nat,
    pub total_input_tokens: nat,
    pub total_output_tokens: nat,
    pub total_tokens: nat,
    pub by_model: Map<Seq<char>, (nat, nat, nat)>,
    pub by_date: Map<Seq<char>, (nat, nat)>,
}

impl View for UsageCounts {
    type V = UsageCountsView;

    open spec fn view(&self) -> UsageCountsView {
        UsageCountsView {
            total_calls: self.total_calls as nat,
            total_input_tokens: self.total_input_tokens as nat,
            total_output_tokens: self.total_output_tokens as nat,
            total_tokens: self.total_tokens as nat,
            by_model: key_map(self.by_model@).map_values(|c: ModelCounts|
                (c.calls as nat, c.input_tokens as nat, c.output_tokens as nat)),
            by_date: key_map(self.by_date@).map_values(|c: DateCounts| (c.calls as nat, c.total_tokens as nat)),
        }
    }
}

/// What is counted of a row.
pub enum UsageField {
    Calls,
    Input,
    Output,
    Total,
}

/// What a row adds to the count of `f`: one call, or its tokens.
pub open spec fn field_of(r: UsageRow, f: UsageField) -> nat {
    match f {
        UsageField::Calls => 1,
        UsageField::Input => r.input_tokens as nat,
        UsageField::Output => r.output_tokens as nat,
        UsageField::Total => r.total_tokens as nat,
    }
}

/// Whether a row is of the model and the day asked for (any, where none is).
pub open spec fn row_matches(r: UsageRow, model: Option<Seq<char>>, date: Option<Seq<char>>) -> bool {
    &&& model matches Some(m) ==> r.model@ == m
    &&& date matches Some(d) ==> r.date@ == d
}

/// The count of `f` over the rows of the model and the day asked for.
pub open spec fn usage_sum(rs: Seq<UsageRow>, model: Option<Seq<char>>, date: Option<Seq<char>>, f: UsageField) -> nat
    decreases rs.len(),
{
    if rs.len() == 0 {
        0
    } else {
        usage_sum(rs.drop_last(), model, date, f)
            + if row_matches(rs.last(), model, date) { field_of(rs.last(), f) } else { 0 }
    }
}

/// Whether some row is of model `m`.
pub open spec fn has_model(rs: Seq<UsageRow>, m: Seq<char>) -> bool {
    exists|i: int| 0 <= i < rs.len() && #[trigger] rs[i].model@ == m
}

/// Whether some row is of day `d`.
pub open spec fn has_date(rs: Seq<UsageRow>, d: Seq<char>) -> bool {
    exists|i: int| 0 <= i < rs.len() && #[trigger] rs[i].date@ == d
}

/// The usage counts of `rs`.
pub open spec fn counts_of(rs: Seq<UsageRow>) -> UsageCountsView {
    UsageCountsView {
        total_calls: usage_sum(rs, None, None, UsageField::Calls),
        total_input_tokens: usage_sum(rs, None, None, UsageField::Input),
        total_output_tokens: usage_sum(rs, None, None, UsageField::Output),
        total_tokens: usage_sum(rs, None, None, UsageField::Total),
        by_model: Map::new(|m: Seq<char>| has_model(rs, m), |m: Seq<char>| (
            usage_sum(rs, Some(m), None, UsageField::Calls),
            usage_sum(rs, Some(m), None, UsageField::Input),
            usage_sum(rs, Some(m), None, UsageField::Output),
        )),
        by_date: Map::new(|d: Seq<char>| has_date(rs, d), |d: Seq<char>| (
            usage_sum(rs, None, Some(d), UsageField::Calls),
            usage_sum(rs, None, Some(d), UsageField::Total),
        )),
    }
}

/// Whether the totals of `rs` fit the counters.
pub open spec fn counts_fit(rs: Seq<UsageRow>) -> bool {
    &&& rs.len() <= u32::MAX
    &&& usage_sum(rs, None, None, UsageField::Input) <= u32::MAX
    &&& usage_sum(rs, None, None, UsageField::Output) <= u32::MAX
    &&& usage_sum(rs, None, None, UsageField::Total) <= u32::MAX
}

proof fn lemma_step(rs: Seq<UsageRow>, i: int, model: Option<Seq<char>>, date: Option<Seq<char>>, f: UsageField)
    requires
        0 <= i < rs.len(),
    ensures
        usage_sum(rs.take(i + 1), model, date, f) == usage_sum(rs.take(i), model, date, f)
            + if row_matches(rs[i], model, date) { field_of(rs[i], f) } else { 0 },
{
    assert(rs.take(i + 1).drop_last() =~= rs.take(i));
    assert(rs.take(i + 1).last() == rs[i]);
}

proof fn lemma_part_le_all(rs: Seq<UsageRow>, model: Option<Seq<char>>, date: Option<Seq<char>>, f: UsageField)
    ensures
        usage_sum(rs, model, date, f) <= usage_sum(rs, None, None, f),
    decreases rs.len(),
{
    if rs.len() > 0 {
        lemma_part_le_all(rs.drop_last(), model, date, f);
    }
}

proof fn lemma_prefix_le(rs: Seq<UsageRow>, i: int, f: UsageField)
    requires
        0 <= i <= rs.len(),
    ensures
        usage_sum(rs.take(i), None, None, f) <= usage_sum(rs, None, None, f),
    decreases rs.len() - i,
{
    if i < rs.len() {
        lemma_prefix_le(rs, i + 1, f);
        lemma_step(rs, i, None, None, f);
    } else {
        assert(rs.take(i) =~= rs);
    }
}

proof fn lemma_calls_len(rs: Seq<UsageRow>)
    ensures
        usage_sum(rs, None, None, UsageField::Calls) == rs.len(),
    decreases rs.len(),
{
    if rs.len() > 0 {
        lemma_calls_len(rs.drop_last());
    }
}

proof fn lemma_absent_zero(rs: Seq<UsageRow>, model: Option<Seq<char>>, date: Option<Seq<char>>, f: UsageField)
    requires
        forall|j: int| 0 <= j < rs.len() ==> !row_matches(#[trigger] rs[j], model, date),
    ensures
        usage_sum(rs, model, date, f) == 0,
    decreases rs.len(),
{
    if rs.len() > 0 {
        let p = rs.drop_last();
        assert forall|j: int| 0 <= j < p.len() implies !row_matches(#[trigger] p[j], model, date) by {
            assert(p[j] == rs[j]);
        }
        lemma_absent_zero(p, model, date, f);
    }
}

/// The usage counts of `records`: the calls and tokens in all, and by model
/// and by day, each key listed once.
pub fn usage_counts(records: &Vec<UsageRow>) -> (u: UsageCounts)
    requires
        counts_fit(records@),
    ensures
        u@ == counts_of(records@),
{
    let ghost rs = records@;
    let mut total_calls: u32 = 0;
    let mut total_input: u32 = 0;
    let mut total_output: u32 = 0;
    let mut total_tokens: u32 = 0;
    let mut by_model: Vec<(String, ModelCounts)> = Vec::new();
    let mut by_date: Vec<(String, DateCounts)> = Vec::new();
    let mut i: usize = 0;
    while i < records.len()
        invariant
            rs == records@,
            counts_fit(rs),
            i <= rs.len(),
            total_calls == usage_sum(rs.take(i as int), None, None, UsageField::Calls),
            total_input == usage_sum(rs.take(i as int), None, None, UsageField::Input),
            total_output == usage_sum(rs.take(i as int), None, None, UsageField::Output),
            total_tokens == usage_sum(rs.take(i as int), None, None, UsageField::Total),
            unique_keys(by_model@),
            unique_keys(by_date@),
            forall|m: Seq<char>| #[trigger] key_map(by_model@).contains_key(m) <==> has_model(rs.take(i as int), m),
            forall|m: Seq<char>| #[trigger] key_map(by_model@).contains_key(m) ==> {
                let c = key_map(by_model@)[m];
                &&& c.calls == usage_sum(rs.take(i as int), Some(m), None, UsageField::Calls)
                &&& c.input_tokens == usage_sum(rs.take(i as int), Some(m), None, UsageField::Input)
                &&& c.output_tokens == usage_sum(rs.take(i as int), Some(m), None, UsageField::Output)
            },
            forall|d: Seq<char>| #[trigger] key_map(by_date@).contains_key(d) <==> has_date(rs.take(i as int), d),
            forall|d: Seq<char>| #[trigger] key_map(by_date@).contains_key(d) ==> {
                let c = key_map(by_date@)[d];
                &&& c.calls == usage_sum(rs.take(i as int), None, Some(d), UsageField::Calls)
                &&& c.total_tokens == usage_sum(rs.take(i as int), None, Some(d), UsageField::Total)
            },
        decreases records.len() - i,
    {
        let r = &records[i];
        let ghost ri = rs[i as int];
        let ghost pre = rs.take(i as int);
        let ghost post = rs.take(i + 1);
        proof {
            assert(*r == ri);
            lemma_step(rs, i as int, None, None, UsageField::Calls);
            lemma_step(rs, i as int, None, None, UsageField::Input);
            lemma_step(rs, i as int, None, None, UsageField::Output);
            lemma_step(rs, i as int, None, None, UsageField::Total);
            lemma_prefix_le(rs, i + 1, UsageField::Calls);
            lemma_prefix_le(rs, i + 1, UsageField::Input);
            lemma_prefix_le(rs, i + 1, UsageField::Output);
            lemma_prefix_le(rs, i + 1, UsageField::Total);
            lemma_calls_len(rs);
            lemma_step(rs, i as int, Some(ri.model@), None, UsageField::Calls);
            lemma_step(rs, i as int, Some(ri.model@), None, UsageField::Input);
            lemma_step(rs, i as int, Some(ri.model@), None, UsageField::Output);
            lemma_part_le_all(post, Some(ri.model@), None, UsageField::Calls);
            lemma_part_le_all(post, Some(ri.model@), None, UsageField::Input);
            lemma_part_le_all(post, Some(ri.model@), None, UsageField::Output);
            lemma_step(rs, i as int, None, Some(ri.date@), UsageField::Calls);
            lemma_step(rs, i as int, None, Some(ri.date@), UsageField::Total);
            lemma_part_le_all(post, None, Some(ri.date@), UsageField::Calls);
            lemma_part_le_all(post, None, Some(ri.date@), UsageField::Total);
            assert forall|j: int| 0 <= j < i implies #[trigger] pre[j] == rs[j] by {}
            assert forall|j: int| 0 <= j <= i implies #[trigger] post[j] == rs[j] by {}
        }
        total_calls = total_calls + 1;
        total_input = total_input + r.input_tokens;
        total_output = total_output + r.output_tokens;
        total_tokens = total_tokens + r.total_tokens;

        // by model
        let ghost bm = by_model@;
        match find_key(&by_model, r.model.as_str()) {
            Some(k) => {
                proof { lemma_key_at(bm, k as int); }
                let c = by_model[k].1;
                let item = (r.model.clone(), ModelCounts {
                    calls: c.calls + 1,
                    input_tokens: c.input_tokens + r.input_tokens,
                    output_tokens: c.output_tokens + r.output_tokens,
                });
                proof { lemma_key_update(bm, k as int, item); }
                by_model.set(k, item);
            },
            None => {
                proof {
                    assert forall|j: int| 0 <= j < pre.len() implies !row_matches(#[trigger] pre[j], Some(ri.model@), None) by {
                        if pre[j].model@ == ri.model@ {
                            assert(has_model(pre, ri.model@));
                        }
                    }
                    lemma_absent_zero(pre, Some(ri.model@), None, UsageField::Calls);
                    lemma_absent_zero(pre, Some(ri.model@), None, UsageField::Input);
                    lemma_absent_zero(pre, Some(ri.model@), None, UsageField::Output);
                }
                let item = (r.model.clone(), ModelCounts {
                    calls: 1,
                    input_tokens: r.input_tokens,
                    output_tokens: r.output_tokens,
                });
                proof { lemma_key_push(bm, item); }
                by_model.push(item);
            },
        }
        proof {
            assert forall|m: Seq<char>| #[trigger] key_map(by_model@).contains_key(m) <==> has_model(post, m) by {
                if has_model(pre, m) {
                    let j = choose|j: int| 0 <= j < pre.len() && #[trigger] pre[j].model@ == m;
                    assert(post[j].model@ == m);
                }
                if has_model(post, m) {
                    let j = choose|j: int| 0 <= j < post.len() && #[trigger] post[j].model@ == m;
                    if j < i { assert(pre[j].model@ == m); }
                }
                if m == ri.model@ {
                    assert(post[i as int].model@ == m);
                }
            }
            assert forall|m: Seq<char>| #[trigger] key_map(by_model@).contains_key(m) implies {
                let c = key_map(by_model@)[m];
                &&& c.calls == usage_sum(post, Some(m), None, UsageField::Calls)
                &&& c.input_tokens == usage_sum(post, Some(m), None, UsageField::Input)
                &&& c.output_tokens == usage_sum(post, Some(m), None, UsageField::Output)
            } by {
                if m != ri.model@ {
                    lemma_step(rs, i as int, Some(m), None, UsageField::Calls);
                    lemma_step(rs, i as int, Some(m), None, UsageField::Input);
                    lemma_step(rs, i as int, Some(m), None, UsageField::Output);
                }
            }
        }

        // by date
        let ghost bd = by_date@;
        match find_key(&by_date, r.date.as_str()) {
            Some(k) => {
                proof { lemma_key_at(bd, k as int); }
                let c = by_date[k].1;
                let item = (r.date.clone(), DateCounts {
                    calls: c.calls + 1,
                    total_tokens: c.total_tokens + r.total_tokens,
                });
                proof { lemma_key_update(bd, k as int, item); }
                by_date.set(k, item);
            },
            None => {
                proof {
                    assert forall|j: int| 0 <= j < pre.len() implies !row_matches(#[trigger] pre[j], None, Some(ri.date@)) by {
                        if pre[j].date@ == ri.date@ {
                            assert(has_date(pre, ri.date@));
                        }
                    }
                    lemma_absent_zero(pre, None, Some(ri.date@), UsageField::Calls);
                    lemma_absent_zero(pre, None, Some(ri.date@), UsageField::Total);
                }
                let item = (r.date.clone(), DateCounts { calls: 1, total_tokens: r.total_tokens });
                proof { lemma_key_push(bd, item); }
                by_date.push(item);
            },
        }
        proof {
            assert forall|d: Seq<char>| #[trigger] key_map(by_date@).contains_key(d) <==> has_date(post, d) by {
                if has_date(pre, d) {
                    let j = choose|j: int| 0 <= j < pre.len() && #[trigger] pre[j].date@ == d;
                    assert(post[j].date@ == d);
                }
                if has_date(post, d) {
                    let j = choose|j: int| 0 <= j < post.len() && #[trigger] post[j].date@ == d;
                    if j < i { assert(pre[j].date@ == d); }
                }
                if d == ri.date@ {
                    assert(post[i as int].date@ == d);
                }
            }
            assert forall|d: Seq<char>| #[trigger] key_map(by_date@).contains_key(d) implies {
                let c = key_map(by_date@)[d];
                &&& c.calls == usage_sum(post, None, Some(d), UsageField::Calls)
                &&& c.total_tokens == usage_sum(post, None, Some(d), UsageField::Total)
            } by {
                if d != ri.date@ {
                    lemma_step(rs, i as int, None, Some(d), UsageField::Calls);
                    lemma_step(rs, i as int, None, Some(d), UsageField::Total);
                }
            }
        }
        i = i + 1;
    }
    let u = UsageCounts {
        total_calls,
        total_input_tokens: total_input,
        total_output_tokens: total_output,
        total_tokens,
        by_model,
        by_date,
    };
    proof {
        assert(rs.take(rs.len() as int) =~= rs);
        assert(u@.by_model =~= counts_of(rs).by_model);
        assert(u@.by_date =~= counts_of(rs).by_date);
    }
    u
}

} // verus!
