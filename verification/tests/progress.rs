//! Progress towards a total, as a value with its state inside.
use cargo_msrv::storyteller::event::progress::Init;

#[test]
fn progress_usage() {
    let progression = Init::init(10);
    assert_eq!(progression.current(), 0);
    assert_eq!(progression.total(), 10);
    let progression = progression.add(1);
    assert_eq!(progression.current(), 1);
    assert_eq!(progression.total(), 10);
    let progression = progression.add(3);
    assert_eq!(progression.current(), 4);
    assert_eq!(progression.total(), 10);
    let progression = progression.reset();
    assert_eq!(progression.current(), 0);
    assert_eq!(progression.total(), 10);
    let progression = progression.complete();
    assert_eq!(progression.current(), 10);
    assert_eq!(progression.total(), 10);
}

#[test]
fn progress_add_identity() {
    let p = Init::init(2);
    assert_eq!(p.current(), 0);
    assert_eq!(p.total(), 2);
    let p = p.add(0);
    assert_eq!(p.current(), 0);
    assert_eq!(p.total(), 2);
}

#[test]
fn progress_add_identity_plus_one() {
    let p = Init::init(2);
    assert_eq!(p.current(), 0);
    assert_eq!(p.total(), 2);
    let p = p.add(1);
    assert_eq!(p.current(), 1);
    assert_eq!(p.total(), 2);
}

#[test]
fn progress_dont_go_beyond_total() {
    let p = Init::init(2);
    assert_eq!(p.current(), 0);
    assert_eq!(p.total(), 2);
    let p = p.add(3);
    assert_eq!(p.current(), 2);
    assert_eq!(p.total(), 2);
}

#[test]
fn progress_complete_from_identity() {
    let p = Init::init(2);
    assert_eq!(p.current(), 0);
    assert_eq!(p.total(), 2);
    let p = p.complete();
    assert_eq!(p.current(), 2);
    assert_eq!(p.total(), 2);
}

#[test]
fn progress_complete_from_identity_plus_one() {
    let p = Init::init(2);
    assert_eq!(p.current(), 0);
    assert_eq!(p.total(), 2);
    let p = p.add(1);
    assert_eq!(p.current(), 1);
    assert_eq!(p.total(), 2);
    let p = p.complete();
    assert_eq!(p.current(), 2);
    assert_eq!(p.total(), 2);
}

#[test]
fn progress_complete_total_zero() {
    let p = Init::init(0);
    assert_eq!(p.current(), 0);
    assert_eq!(p.total(), 0);
    let p = p.complete();
    assert_eq!(p.current(), 0);
    assert_eq!(p.total(), 0);
}

#[test]
fn progress_current() {
    let p = Init::init(2);
    assert_eq!(p.current(), 0);
    let p = p.add(1);
    assert_eq!(p.current(), 1);
    let p = p.complete();
    assert_eq!(p.current(), 2);
    let p = p.reset();
    assert_eq!(p.current(), 0);
}

#[test]
fn progress_total() {
    let p = Init::init(2);
    assert_eq!(p.total(), 2);
    let p = p.add(1);
    assert_eq!(p.total(), 2);
    let p = p.complete();
    assert_eq!(p.total(), 2);
    let p = p.reset();
    assert_eq!(p.total(), 2);
}

#[test]
fn progress_init() {
    let p = Init::init(100);
    assert_eq!(p.current(), 0);
    assert_eq!(p.total(), 100);
}

#[test]
fn progress_add() {
    let p = Init::init(100);
    assert_eq!(p.current(), 0);
    assert_eq!(p.total(), 100);
    let p = p.add(10);
    assert_eq!(p.current(), 10);
    assert_eq!(p.total(), 100);
    let p = p.add(10);
    assert_eq!(p.current(), 20);
    assert_eq!(p.total(), 100);
}

#[test]
fn progress_complete() {
    let p = Init::init(100);
    assert_eq!(p.current(), 0);
    assert_eq!(p.total(), 100);
    let p = p.complete();
    assert_eq!(p.current(), 100);
    assert_eq!(p.total(), 100);

    let p = Init::init(100);
    assert_eq!(p.current(), 0);
    assert_eq!(p.total(), 100);
    let p = p.add(10);
    assert_eq!(p.current(), 10);
    assert_eq!(p.total(), 100);
    let p = p.complete();
    assert_eq!(p.current(), 100);
    assert_eq!(p.total(), 100);
}

#[test]
fn progress_reset() {
    let p = Init::init(100);
    assert_eq!(p.current(), 0);
    assert_eq!(p.total(), 100);
    let p = p.add(10);
    assert_eq!(p.current(), 10);
    assert_eq!(p.total(), 100);
    let p = p.reset();
    assert_eq!(p.current(), 0);
    assert_eq!(p.total(), 100);

    let p = Init::init(100);
    assert_eq!(p.current(), 0);
    assert_eq!(p.total(), 100);
    let p = p.complete();
    assert_eq!(p.current(), 100);
    assert_eq!(p.total(), 100);
    let p = p.reset();
    assert_eq!(p.current(), 0);
    assert_eq!(p.total(), 100);
}
