use tft_stat::scheduler::{Scheduler, Turn};

// Works a queue off, ending the running task that `pick` chooses each time
// the scheduler waits. Returns the order in which results were handed on and
// the largest number of tasks that ran at once.
fn work_off(total: usize, limit: usize, pick: fn(usize, usize) -> usize) -> (Vec<usize>, usize) {
    let mut scheduler = Scheduler::new(total, limit);
    let mut slots: Vec<usize> = Vec::new();
    let mut handled = Vec::new();
    let mut most = 0;
    let mut round = 0;
    loop {
        match scheduler.next_turn() {
            Turn::Start(task) => {
                slots.push(task);
                assert_eq!(scheduler.running(), slots.len());
                assert!(slots.len() <= limit);
                most = most.max(slots.len());
            }
            Turn::Wait => {
                assert!(!slots.is_empty());
                let slot = pick(round, slots.len());
                round += 1;
                let expected = slots.swap_remove(slot);
                assert_eq!(scheduler.complete(slot), Some(expected));
                handled.push(expected);
                assert_eq!(scheduler.handled(), handled.len());
            }
            Turn::Done => break,
        }
    }
    assert!(slots.is_empty());
    (handled, most)
}

fn first(_round: usize, _running: usize) -> usize {
    0
}

fn last(_round: usize, running: usize) -> usize {
    running - 1
}

fn mixed(round: usize, running: usize) -> usize {
    (round * 7 + 3) % running
}

fn assert_each_once(handled: &[usize], total: usize) {
    assert_eq!(handled.len(), total);
    let mut seen = vec![false; total];
    for task in handled {
        assert!(!seen[*task]);
        seen[*task] = true;
    }
    assert!(seen.iter().all(|s| *s));
}

#[test]
fn every_task_is_handled_once_within_the_limit() {
    for (total, limit) in [(10, 3), (50, 10), (7, 1), (5, 5), (3, 50), (1, 1), (100, 50)] {
        for pick in [first, last, mixed] {
            let (handled, most) = work_off(total, limit, pick);
            assert_each_once(&handled, total);
            assert_eq!(most, limit.min(total));
        }
    }
}

#[test]
fn tasks_start_in_the_order_of_the_queue() {
    let mut scheduler = Scheduler::new(4, 2);
    assert_eq!(scheduler.next_turn(), Turn::Start(0));
    assert_eq!(scheduler.next_turn(), Turn::Start(1));
    assert_eq!(scheduler.next_turn(), Turn::Wait);
    assert_eq!(scheduler.next_turn(), Turn::Wait);
    assert_eq!(scheduler.complete(0), Some(0));
    assert_eq!(scheduler.next_turn(), Turn::Start(2));
    assert_eq!(scheduler.next_turn(), Turn::Wait);
    // task 1 moved into slot 0 when task 0 ended
    assert_eq!(scheduler.complete(1), Some(2));
    assert_eq!(scheduler.next_turn(), Turn::Start(3));
    assert_eq!(scheduler.complete(0), Some(1));
    assert_eq!(scheduler.next_turn(), Turn::Wait);
    assert_eq!(scheduler.complete(0), Some(3));
    assert_eq!(scheduler.next_turn(), Turn::Done);
    assert_eq!(scheduler.next_turn(), Turn::Done);
    assert_eq!(scheduler.handled(), 4);
    assert_eq!(scheduler.running(), 0);
}

#[test]
fn with_one_slot_tasks_run_in_order() {
    let (handled, most) = work_off(6, 1, mixed);
    assert_eq!(handled, vec![0, 1, 2, 3, 4, 5]);
    assert_eq!(most, 1);
}

#[test]
fn empty_queue_is_done_at_once() {
    let mut scheduler = Scheduler::new(0, 3);
    assert_eq!(scheduler.next_turn(), Turn::Done);
    assert_eq!(scheduler.handled(), 0);
}

#[test]
fn limit_of_zero_starts_nothing() {
    let mut scheduler = Scheduler::new(3, 0);
    assert_eq!(scheduler.next_turn(), Turn::Done);
    assert_eq!(scheduler.handled(), 0);
    assert_eq!(scheduler.running(), 0);
}

#[test]
fn ending_a_task_that_does_not_run_changes_nothing() {
    let mut scheduler = Scheduler::new(3, 2);
    assert_eq!(scheduler.complete(0), None);
    assert_eq!(scheduler.next_turn(), Turn::Start(0));
    assert_eq!(scheduler.complete(1), None);
    assert_eq!(scheduler.running(), 1);
    assert_eq!(scheduler.handled(), 0);
    assert_eq!(scheduler.complete(0), Some(0));
    assert_eq!(scheduler.running(), 0);
    assert_eq!(scheduler.handled(), 1);
}
