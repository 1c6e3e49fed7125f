use vstd::prelude::*;

verus! {

/// When a scheduled job runs: on a cron expression, or every so many seconds.
pub enum SchedulerJobPeriod {
    Cron(String),
    Repeat(u64),
}

/// When a scheduled job handler runs: on a cron expression, or every so
/// many seconds.
pub enum TimeType {
    Cron(String),
    Duration(u64),
}

/// A scheduled job: its identifier and period (its handler stays with the
/// caller, at the same position).
pub struct SchedulerJob {
    pub id: String,
    pub period: SchedulerJobPeriod,
}

/// A named group of scheduled jobs.
pub struct Scheduler {
    pub id: String,
    pub jobs: Vec<SchedulerJob>,
}

/// The jobs of scheduler `i` and of those after it, as (scheduler, job)
/// positions in the order in which they are registered.
pub open spec fn jobs_from(s: Seq<Scheduler>, i: int) -> Seq<(int, int)>
    decreases s.len() - i,
{
    if i < 0 || i >= s.len() {
        Seq::empty()
    } else {
        Seq::new(s[i].jobs@.len(), |j: int| (i, j)) + jobs_from(s, i + 1)
    }
}

/// The positions of the jobs to register with the job scheduler: every
/// job of every scheduler, the schedulers in order and the jobs of each in
/// order.
pub fn put_scheduler(schedulers: &Vec<Scheduler>) -> (r: Vec<(usize, usize)>)
    ensures
        r@.map_values(|p: (usize, usize)| (p.0 as int, p.1 as int)) == jobs_from(schedulers@, 0),
{
    let mut out: Vec<(usize, usize)> = Vec::new();
    let mut i: usize = 0;
    while i < schedulers.len()
        invariant
            i <= schedulers@.len(),
            out@.map_values(|p: (usize, usize)| (p.0 as int, p.1 as int)) + jobs_from(
                schedulers@,
                i as int,
            ) == jobs_from(schedulers@, 0),
        decreases schedulers@.len() - i,
    {
        let n = schedulers[i].jobs.len();
        let ghost before = out@.map_values(|p: (usize, usize)| (p.0 as int, p.1 as int));
        let ghost block = Seq::new(n as nat, |j: int| (i as int, j));
        let mut j: usize = 0;
        while j < n
            invariant
                n == schedulers@[i as int].jobs@.len(),
                i < schedulers@.len(),
                j <= n,
                block == Seq::new(n as nat, |k: int| (i as int, k)),
                out@.map_values(|p: (usize, usize)| (p.0 as int, p.1 as int)) == before
                    + block.take(j as int),
            decreases n - j,
        {
            let ghost prev = out@;
            out.push((i, j));
            assert(out@.map_values(|p: (usize, usize)| (p.0 as int, p.1 as int)) =~= prev.map_values(
                |p: (usize, usize)| (p.0 as int, p.1 as int),
            ).push((i as int, j as int)));
            assert(block[j as int] == (i as int, j as int));
            assert(block.take(j + 1) =~= block.take(j as int).push((i as int, j as int)));
            assert(out@.map_values(|p: (usize, usize)| (p.0 as int, p.1 as int)) =~= before
                + block.take(j + 1));
            j = j + 1;
        }
        assert(block.take(n as int) =~= block);
        assert(jobs_from(schedulers@, i as int) == block + jobs_from(schedulers@, i + 1));
        assert(before + block + jobs_from(schedulers@, i + 1) =~= before + (block + jobs_from(
            schedulers@,
            i + 1,
        )));
        i = i + 1;
    }
    assert(jobs_from(schedulers@, i as int) =~= Seq::<(int, int)>::empty());
    assert(out@.map_values(|p: (usize, usize)| (p.0 as int, p.1 as int)) + Seq::<(int, int)>::empty()
        =~= out@.map_values(|p: (usize, usize)| (p.0 as int, p.1 as int)));
    out
}

} // verus!
