use proc_qq::scheduler::{put_scheduler, Scheduler, SchedulerJob, SchedulerJobPeriod};
use proc_qq::text::{i64_to_string, replace, u64_to_string};

#[test]
fn replace_every_occurrence() {
    assert_eq!(replace("aXbXc", "X", "--"), "a--b--c");
    assert_eq!(replace("aaa", "aa", "b"), "ba");
    assert_eq!(replace("", "a", "b"), "");
    assert_eq!(replace("abc", "z", "y"), "abc");
}

#[test]
fn decimal_numbers() {
    assert_eq!(i64_to_string(0), "0");
    assert_eq!(i64_to_string(-120), "-120");
    assert_eq!(i64_to_string(i64::MIN), "-9223372036854775808");
    assert_eq!(u64_to_string(u64::MAX), "18446744073709551615");
}

#[test]
fn jobs_are_registered_in_order() {
    let job = |id: &str, period: SchedulerJobPeriod| SchedulerJob { id: id.to_owned(), period };
    let schedulers = vec![
        Scheduler { id: "a".to_owned(), jobs: vec![job("x", SchedulerJobPeriod::Cron("0 0/1 * * * ?".to_owned())), job("y", SchedulerJobPeriod::Repeat(180))] },
        Scheduler { id: "b".to_owned(), jobs: vec![] },
        Scheduler { id: "c".to_owned(), jobs: vec![job("z", SchedulerJobPeriod::Repeat(1))] },
    ];
    assert_eq!(put_scheduler(&schedulers), vec![(0, 0), (0, 1), (2, 0)]);
    assert_eq!(put_scheduler(&vec![]), vec![]);
}
