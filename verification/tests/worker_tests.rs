use std::cell::RefCell;

use prompt_buffer::buffer::{PromptBuffer, PromptBufferPlugin};
use prompt_buffer::line::{PromptLine, PromptLineBuilder};
use prompt_buffer::supervisor::Supervisor;
use prompt_buffer::thread::{PromptBufferError, PromptThread, WorkerTask};

struct NoPlugin;

impl PromptBufferPlugin for NoPlugin {
    fn run(&mut self, _path: &String, _lines: &mut Vec<PromptLine>) {}
}

/// Contributes one recognizable line, so a fresh render can be told from
/// the seed render, which runs no plugins.
struct TickPlugin;

impl PromptBufferPlugin for TickPlugin {
    fn run(&mut self, _path: &String, lines: &mut Vec<PromptLine>) {
        lines.push(PromptLineBuilder::new_free().block("tick").build());
    }
}

fn make_plain() -> PromptBuffer<NoPlugin> {
    PromptBuffer::new()
}

fn make_ticking() -> PromptBuffer<TickPlugin> {
    let mut b = PromptBuffer::new();
    b.add_plugin(TickPlugin);
    b
}

#[test]
fn new_seeds_a_nonempty_cache() {
    let slot: RefCell<Option<WorkerTask<NoPlugin>>> = RefCell::new(None);
    let spawner = |t: WorkerTask<NoPlugin>| {
        *slot.borrow_mut() = Some(t);
        true
    };
    let mk = || make_plain();
    let t = PromptThread::new(String::from("/somewhere"), &mk, &spawner).unwrap();
    assert!(t.alive);
    assert!(!t.cached.is_empty());
    assert_eq!(t.cached, make_plain().to_string_fast());
    assert!(slot.borrow().is_some());
}

#[test]
fn spawner_failure_is_a_spawn_error() {
    let spawner = |_t: WorkerTask<NoPlugin>| false;
    let mk = || make_plain();
    let r = PromptThread::new(String::from("/somewhere"), &mk, &spawner);
    match r {
        Err(e) => assert_eq!(e, PromptBufferError::SpawnError),
        Ok(_) => panic!("a failed spawner must fail the construction"),
    }
}

#[test]
fn dropped_task_makes_get_a_channel_error() {
    let spawner = |_t: WorkerTask<NoPlugin>| true;
    let mk = || make_plain();
    let mut t = PromptThread::new(String::from("/somewhere"), &mk, &spawner).unwrap();
    let r = t.get(&mk, &spawner);
    match r {
        Err(e) => assert_eq!(e, PromptBufferError::ChannelError),
        Ok(_) => panic!("a request to a gone task must fail"),
    }
}

#[test]
fn get_falls_back_to_cache_and_adopts_the_late_result() {
    let slot: RefCell<Option<WorkerTask<TickPlugin>>> = RefCell::new(None);
    let spawner = |t: WorkerTask<TickPlugin>| {
        *slot.borrow_mut() = Some(t);
        true
    };
    let mk = || make_ticking();
    let mut t = PromptThread::new(String::from("/somewhere"), &mk, &spawner).unwrap();
    let seed = t.cached.clone();

    // the background task has not answered yet, so the first call falls
    // back to the cached seed, unchanged
    let first = t.get(&mk, &spawner).unwrap();
    assert_eq!(first, seed);
    assert!(!first.contains("tick"));
    assert_eq!(t.cached, seed);

    // let the background task serve the queued request
    let mut task = slot.borrow_mut().take().unwrap();
    assert!(task.serve_one());

    // the next call adopts the now-available fresh render
    let second = t.get(&mk, &spawner).unwrap();
    assert!(second.contains("tick"));
    assert_ne!(second, seed);
    assert_eq!(t.cached, second);
}

#[test]
fn every_get_well_within_budget_is_nonempty() {
    let slot: RefCell<Option<WorkerTask<TickPlugin>>> = RefCell::new(None);
    let spawner = |t: WorkerTask<TickPlugin>| {
        *slot.borrow_mut() = Some(t);
        true
    };
    let mk = || make_ticking();
    let mut t = PromptThread::new(String::from("/somewhere"), &mk, &spawner).unwrap();
    let mut task = slot.borrow_mut().take().unwrap();
    let mut previous = t.cached.clone();
    for _ in 0..3 {
        let got = t.get(&mk, &spawner).unwrap();
        // either the prior cached value or a fresh render, never empty
        assert!(got == previous || got.contains("tick"));
        assert!(!got.is_empty());
        previous = got;
        assert!(task.serve_one());
    }
}

#[test]
fn idle_death_is_observed_and_revival_succeeds() {
    let slot: RefCell<Option<WorkerTask<NoPlugin>>> = RefCell::new(None);
    let spawner = |t: WorkerTask<NoPlugin>| {
        *slot.borrow_mut() = Some(t);
        true
    };
    let mk = || make_plain();
    let mut t =
        PromptThread::new_with_idle_timeout(String::from("/somewhere"), &mk, &spawner, 10).unwrap();
    assert!(t.check_is_alive());

    // no request arrives within the idle timeout: the task announces its
    // death and stops
    let mut task = slot.borrow_mut().take().unwrap();
    assert!(!task.serve_one());
    assert!(!t.check_is_alive());
    assert!(!t.check_is_alive());

    // the next get revives the worker and returns a value again
    let got = t.get(&mk, &spawner).unwrap();
    assert!(!got.is_empty());
    assert!(t.check_is_alive());
    assert!(slot.borrow().is_some());
}

#[test]
fn supervisor_creates_and_replaces_workers() {
    let slot: RefCell<Option<WorkerTask<NoPlugin>>> = RefCell::new(None);
    let spawner = |t: WorkerTask<NoPlugin>| {
        *slot.borrow_mut() = Some(t);
        true
    };
    let mk = || make_plain();
    let mut s = Supervisor::new();
    assert_eq!(s.workers.len(), 0);

    let first = s.render(String::from("/one"), &mk, &spawner).unwrap();
    assert!(!first.is_empty());
    assert_eq!(s.workers.len(), 1);
    assert_eq!(s.workers[0].path, "/one");

    // the same path keeps the worker
    let again = s.render(String::from("/one"), &mk, &spawner).unwrap();
    assert!(!again.is_empty());
    assert_eq!(s.workers.len(), 1);
    assert_eq!(s.workers[0].path, "/one");

    // another path replaces it
    let other = s.render(String::from("/two"), &mk, &spawner).unwrap();
    assert!(!other.is_empty());
    assert_eq!(s.workers.len(), 1);
    assert_eq!(s.workers[0].path, "/two");
}
