//! Progress towards a total, with its state in its type.
use cargo_msrv::storyteller::progress::Progression;

#[test]
fn usage() {
    let progression = Progression::init(10);
    assert_eq!(progression.current(), 0);
    assert_eq!(progression.total(), 10);
    let progression = progression.add(1);
    assert_eq!(progression.current(), 1);
    assert_eq!(progression.total(), 10);
    let progression = progression.add(3);
    assert_eq!(progression.current(), 4);
    assert_eq!(progression.total(), 10);
    let progression = progression.reset();
    assert_eq!(progression.current(), 0);
    assert_eq!(progression.total(), 10);
    let progression = progression.complete();
    assert_eq!(progression.current(), 10);
    assert_eq!(progression.total(), 10);
}

#[test]
fn add_identity() {
    let p = Progression::init(2);
    assert_eq!(p.current(), 0);
    assert_eq!(p.total(), 2);
    let p = p.add(0);
    assert_eq!(p.current(), 0);
    assert_eq!(p.total(), 2);
}

#[test]
fn add_identity_plus_one() {
    let p = Progression::init(2);
    assert_eq!(p.current(), 0);
    assert_eq!(p.total(), 2);
    let p = p.add(1);
    assert_eq!(p.current(), 1);
    assert_eq!(p.total(), 2);
}

#[test]
fn dont_go_beyond_total() {
    let p = Progression::init(2);
    assert_eq!(p.current(), 0);
    assert_eq!(p.total(), 2);
    let p = p.add(3);
    assert_eq!(p.current(), 2);
    assert_eq!(p.total(), 2);
}

#[test]
fn complete_from_identity() {
    let p = Progression::init(2);
    assert_eq!(p.current(), 0);
    assert_eq!(p.total(), 2);
    let p = p.complete();
    assert_eq!(p.current(), 2);
    assert_eq!(p.total(), 2);
}

#[test]
fn complete_from_identity_plus_one() {
    let p = Progression::init(2);
    assert_eq!(p.current(), 0);
    assert_eq!(p.total(), 2);
    let p = p.add(1);
    assert_eq!(p.current(), 1);
    assert_eq!(p.total(), 2);
    let p = p.complete();
    assert_eq!(p.current(), 2);
    assert_eq!(p.total(), 2);
}

#[test]
fn complete_total_zero() {
    let p = Progression::init(0);
    assert_eq!(p.current(), 0);
    assert_eq!(p.total(), 0);
    let p = p.complete();
    assert_eq!(p.current(), 0);
    assert_eq!(p.total(), 0);
}

#[test]
fn current() {
    let p = Progression::init(2);
    assert_eq!(p.current(), 0);
    let p = p.add(1);
    assert_eq!(p.current(), 1);
    let p = p.complete();
    assert_eq!(p.current(), 2);
    let p = p.reset();
    assert_eq!(p.current(), 0);
}

#[test]
fn total() {
    let p = Progression::init(2);
    assert_eq!(p.total(), 2);
    let p = p.add(1);
    assert_eq!(p.total(), 2);
    let p = p.complete();
    assert_eq!(p.total(), 2);
    let p = p.reset();
    assert_eq!(p.total(), 2);
}

#[test]
fn init() {
    let p = Progression::init(100);
    assert_eq!(p.current(), 0);
    assert_eq!(p.total(), 100);
}

#[test]
fn add() {
    let p = Progression::init(100);
    assert_eq!(p.current(), 0);
    assert_eq!(p.total(), 100);
    let p = p.add(10);
    assert_eq!(p.current(), 10);
    assert_eq!(p.total(), 100);
    let p = p.add(10);
    assert_eq!(p.current(), 20);
    assert_eq!(p.total(), 100);
}

#[test]
fn complete() {
    let p = Progression::init(100);
    assert_eq!(p.current(), 0);
    assert_eq!(p.total(), 100);
    let p = p.complete();
    assert_eq!(p.current(), 100);
    assert_eq!(p.total(), 100);

    let p = Progression::init(100);
    assert_eq!(p.current(), 0);
    assert_eq!(p.total(), 100);
    let p = p.add(10);
    assert_eq!(p.current(), 10);
    assert_eq!(p.total(), 100);
    let p = p.complete();
    assert_eq!(p.current(), 100);
    assert_eq!(p.total(), 100);
}

#[test]
fn reset() {
    let p = Progression::init(100);
    assert_eq!(p.current(), 0);
    assert_eq!(p.total(), 100);
    let p = p.add(10);
    assert_eq!(p.current(), 10);
    assert_eq!(p.total(), 100);
    let p = p.reset();
    assert_eq!(p.current(), 0);
    assert_eq!(p.total(), 100);

    let p = Progression::init(100);
    assert_eq!(p.current(), 0);
    assert_eq!(p.total(), 100);
    let p = p.complete();
    assert_eq!(p.current(), 100);
    assert_eq!(p.total(), 100);
    let p = p.reset();
    assert_eq!(p.current(), 0);
    assert_eq!(p.total(), 100);
}
