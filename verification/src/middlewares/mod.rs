//! The middleware pipeline: stages that transform each item between the
//! sources and the destinations.

pub mod i2c_display;
pub mod regex_mw;
pub mod stub;

use vstd::prelude::*;
use crate::config::Config;
use crate::content::Content;
use self::regex_mw::RegexMiddleware;

verus! {

/// A stage of the pipeline.
pub trait TaryMiddleware: Sized {
    /// Sets the stage up from the configuration; `None` when the
    /// configuration leaves it out.
    fn init(cfg: &Config) -> Option<Self>;

    /// The stage's position in the pipeline.
    spec fn spec_order(&self) -> u32;

    /// `after` is what the stage makes of `before`.
    spec fn transforms(&self, before: Content, after: Content) -> bool;

    /// The stage's position in the pipeline.
    fn order(&self) -> (r: u32)
        ensures
            r == self.spec_order(),
    ;

    /// Transforms an item.
    fn transform(&self, ct: Content) -> (r: Content)
        ensures
            self.transforms(ct, r),
    ;
}

/// The pipeline. Its stages run by ascending `order`; stages of equal order
/// run in the order in which they stand here.
pub struct Middlewares {
    pub pipeline: Vec<RegexMiddleware>,
}

/// The text of an item after the stages, applied in order.
pub open spec fn pipeline_result(text: Seq<char>, stages: Seq<RegexMiddleware>) -> Seq<char>
    decreases stages.len(),
{
    if stages.len() == 0 {
        text
    } else {
        stages.last().rewrite(pipeline_result(text, stages.drop_last()))
    }
}

/// Stages apply one after the other: running a pipeline followed by another
/// is running the first, then the second on its result.
pub proof fn lemma_pipeline_compose(text: Seq<char>, first: Seq<RegexMiddleware>, then: Seq<RegexMiddleware>)
    ensures
        pipeline_result(text, first + then) == pipeline_result(pipeline_result(text, first), then),
    decreases then.len(),
{
    if then.len() == 0 {
        assert(first + then =~= first);
    } else {
        assert((first + then).drop_last() =~= first + then.drop_last());
        assert((first + then).last() == then.last());
        lemma_pipeline_compose(text, first, then.drop_last());
    }
}

/// An empty pipeline passes the text through, and a pipeline of one stage
/// does what that stage does.
pub proof fn lemma_pipeline_small(text: Seq<char>, stage: RegexMiddleware)
    ensures
        pipeline_result(text, Seq::<RegexMiddleware>::empty()) == text,
        pipeline_result(text, seq![stage]) == stage.rewrite(text),
{
    assert(seq![stage].drop_last() =~= Seq::<RegexMiddleware>::empty());
    assert(pipeline_result(text, seq![stage].drop_last()) == text);
}

/// `x` placed into `s` just after the last stage, counted from the end, whose
/// order is not above its own: behind every stage of lower or equal order
/// and in front of the trailing stages of higher order.
pub open spec fn insert_by_order(s: Seq<RegexMiddleware>, x: RegexMiddleware) -> Seq<RegexMiddleware>
    decreases s.len(),
{
    if s.len() == 0 {
        seq![x]
    } else if s.last().order <= x.order {
        s.push(x)
    } else {
        insert_by_order(s.drop_last(), x).push(s.last())
    }
}

/// The stages in the order in which they run: by ascending `order`, stages of
/// equal order keeping their places in the pipeline (each stage, in turn,
/// placed by `insert_by_order`).
pub open spec fn sort_by_order(s: Seq<RegexMiddleware>) -> Seq<RegexMiddleware>
    decreases s.len(),
{
    if s.len() == 0 {
        s
    } else {
        insert_by_order(sort_by_order(s.drop_last()), s.last())
    }
}

/// The stages that indices pick out of a pipeline.
pub open spec fn pick(stages: Seq<RegexMiddleware>, idx: Seq<usize>) -> Seq<RegexMiddleware> {
    idx.map_values(|i: usize| stages[i as int])
}

/// Orders are ascending.
pub open spec fn ascending(s: Seq<RegexMiddleware>) -> bool {
    forall|i: int, j: int| 0 <= i <= j < s.len() ==> #[trigger] s[i].order <= #[trigger] s[j].order
}

proof fn lemma_insert_at(s: Seq<RegexMiddleware>, x: RegexMiddleware, j: int)
    requires
        0 <= j <= s.len(),
        forall|t: int| j <= t < s.len() ==> #[trigger] s[t].order > x.order,
        j == 0 || s[j - 1].order <= x.order,
    ensures
        insert_by_order(s, x) == s.insert(j, x),
    decreases s.len(),
{
    if s.len() == 0 {
        assert(s.insert(j, x) =~= seq![x]);
    } else if s.last().order <= x.order {
        assert(s.insert(j, x) =~= s.push(x));
    } else {
        let d = s.drop_last();
        assert forall|t: int| j <= t < d.len() implies #[trigger] d[t].order > x.order by {
            assert(d[t] == s[t]);
        }
        lemma_insert_at(d, x, j);
        assert(d.insert(j, x).push(s.last()) =~= s.insert(j, x));
    }
}

proof fn lemma_insert_bounded(s: Seq<RegexMiddleware>, x: RegexMiddleware, b: u32)
    requires
        forall|i: int| 0 <= i < s.len() ==> #[trigger] s[i].order <= b,
        x.order <= b,
    ensures
        forall|i: int| 0 <= i < insert_by_order(s, x).len() ==> #[trigger] insert_by_order(s, x)[i].order <= b,
        insert_by_order(s, x).len() == s.len() + 1,
    decreases s.len(),
{
    if s.len() > 0 && s.last().order > x.order {
        lemma_insert_bounded(s.drop_last(), x, b);
    }
}

proof fn lemma_insert_ascending(s: Seq<RegexMiddleware>, x: RegexMiddleware)
    requires
        ascending(s),
    ensures
        ascending(insert_by_order(s, x)),
        insert_by_order(s, x).to_multiset() == s.to_multiset().insert(x),
    decreases s.len(),
{
    broadcast use vstd::seq_lib::group_to_multiset_ensures;
    if s.len() == 0 {
        assert(seq![x] =~= Seq::<RegexMiddleware>::empty().push(x));
    } else if s.last().order <= x.order {
    } else {
        let d = s.drop_last();
        lemma_insert_ascending(d, x);
        lemma_insert_bounded(d, x, s.last().order);
        assert(d.push(s.last()) =~= s);
        assert(insert_by_order(d, x).to_multiset().insert(s.last()) =~= s.to_multiset().insert(x));
    }
}

/// The stages run in ascending order, and they are exactly the stages of the
/// pipeline, each once.
pub proof fn lemma_run_order(s: Seq<RegexMiddleware>)
    ensures
        ascending(sort_by_order(s)),
        sort_by_order(s).to_multiset() == s.to_multiset(),
        sort_by_order(s).len() == s.len(),
    decreases s.len(),
{
    broadcast use vstd::seq_lib::group_to_multiset_ensures;
    if s.len() > 0 {
        lemma_run_order(s.drop_last());
        lemma_insert_ascending(sort_by_order(s.drop_last()), s.last());
        assert(s.drop_last().push(s.last()) =~= s);
    }
    vstd::seq_lib::to_multiset_len(sort_by_order(s));
    vstd::seq_lib::to_multiset_len(s);
}

/// Stages that already run in ascending order keep their places.
pub proof fn lemma_ascending_unchanged(s: Seq<RegexMiddleware>)
    requires
        ascending(s),
    ensures
        sort_by_order(s) == s,
    decreases s.len(),
{
    if s.len() > 0 {
        lemma_ascending_unchanged(s.drop_last());
        assert(s.drop_last().push(s.last()) =~= s);
    }
}

/// The indices of the pipeline's stages in the order in which they run.
fn run_order(stages: &Vec<RegexMiddleware>) -> (idx: Vec<usize>)
    ensures
        forall|i: int| 0 <= i < idx@.len() ==> #[trigger] idx@[i] < stages@.len(),
        pick(stages@, idx@) == sort_by_order(stages@),
{
    let mut idx: Vec<usize> = Vec::new();
    let mut k: usize = 0;
    proof {
        assert(pick(stages@, idx@) =~= sort_by_order(stages@.take(0)));
    }
    while k < stages.len()
        invariant
            k <= stages@.len(),
            forall|i: int| 0 <= i < idx@.len() ==> #[trigger] idx@[i] < k,
            pick(stages@, idx@) == sort_by_order(stages@.take(k as int)),
        decreases stages@.len() - k,
    {
        let x = stages[k].order;
        let mut j: usize = idx.len();
        while j > 0 && stages[idx[j - 1]].order > x
            invariant
                j <= idx@.len(),
                k < stages@.len(),
                x == stages@[k as int].order,
                forall|i: int| 0 <= i < idx@.len() ==> #[trigger] idx@[i] < k,
                forall|t: int| j <= t < idx@.len() ==> #[trigger] stages@[idx@[t] as int].order > x,
            decreases j,
        {
            j = j - 1;
        }
        let ghost before = idx@;
        idx.insert(j, k);
        proof {
            let p = pick(stages@, before);
            assert forall|t: int| j <= t < p.len() implies #[trigger] p[t].order > x by {
            }
            lemma_insert_at(p, stages@[k as int], j as int);
            assert(pick(stages@, idx@) =~= p.insert(j as int, stages@[k as int]));
            assert(stages@.take(k + 1).drop_last() =~= stages@.take(k as int));
            assert(stages@.take(k + 1).last() == stages@[k as int]);
            assert forall|i: int| 0 <= i < idx@.len() implies #[trigger] idx@[i] < k + 1 by {
                if i < j {
                    assert(idx@[i] == before[i]);
                } else if i > j {
                    assert(idx@[i] == before[i - 1]);
                }
            }
        }
        k = k + 1;
    }
    proof {
        assert(stages@.take(stages@.len() as int) =~= stages@);
    }
    idx
}

impl Middlewares {
    /// Sets the pipeline up from the configuration: the regex middleware,
    /// where the configuration enables it.
    pub fn new(cfg: &Config) -> (r: Middlewares)
        ensures
            r.pipeline@.len() <= 1,
            r.pipeline@.len() == 1 <==> (cfg.middlewares.regex matches Some(c) && c.enabled),
            r.pipeline@.len() == 1 ==> RegexMiddleware::spec_init(*cfg, Some(r.pipeline@[0])),
    {
        let mut pipeline: Vec<RegexMiddleware> = Vec::new();
        match RegexMiddleware::init(cfg) {
            Some(m) => pipeline.push(m),
            None => {},
        }
        Middlewares { pipeline }
    }

    /// The number of stages.
    pub fn count(&self) -> (n: usize)
        ensures
            n == self.pipeline@.len(),
    {
        self.pipeline.len()
    }

    /// Passes an item through every stage, by ascending `order` (stages of
    /// equal order in their places in the pipeline): its text is rewritten,
    /// everything else stays as it was.
    pub fn process(&self, ct: Content) -> (r: Content)
        ensures
            r.content@ == pipeline_result(ct.content@, sort_by_order(self.pipeline@)),
            r.content_type == ct.content_type,
            r.source == ct.source,
            r.dest == ct.dest,
            r.date == ct.date,
            r.due == ct.due,
    {
        let idx = run_order(&self.pipeline);
        let ghost run = sort_by_order(self.pipeline@);
        let mut out = ct;
        let mut i: usize = 0;
        while i < idx.len()
            invariant
                i <= idx@.len(),
                forall|t: int| 0 <= t < idx@.len() ==> #[trigger] idx@[t] < self.pipeline@.len(),
                pick(self.pipeline@, idx@) == run,
                out.content@ == pipeline_result(ct.content@, run.take(i as int)),
                out.content_type == ct.content_type,
                out.source == ct.source,
                out.dest == ct.dest,
                out.date == ct.date,
                out.due == ct.due,
            decreases idx@.len() - i,
        {
            out = self.pipeline[idx[i]].transform(out);
            proof {
                assert(run[i as int] == self.pipeline@[idx@[i as int] as int]);
                assert(run.take(i + 1).drop_last() =~= run.take(i as int));
            }
            i = i + 1;
        }
        proof {
            assert(run.take(idx@.len() as int) =~= run);
        }
        out
    }
}

} // verus!
