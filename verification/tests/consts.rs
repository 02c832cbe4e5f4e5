use winfw::{Actions, Directions, Protocols};

#[test]
fn protocol_codes() {
    assert_eq!(Protocols::Tcp.code(), 6);
    assert_eq!(Protocols::Udp.code(), 17);
    assert_eq!(Protocols::Any.code(), 256);
    assert_eq!(Protocols::from(6), Protocols::Tcp);
    assert_eq!(Protocols::from(17), Protocols::Udp);
    assert_eq!(Protocols::from(256), Protocols::Any);
}

#[test]
fn every_other_protocol_code_means_any() {
    for code in [0, 1, -1, 7, 16, 18, 255, 257, i32::MAX, i32::MIN] {
        assert_eq!(Protocols::from(code), Protocols::Any);
        assert_eq!(Protocols::from(code).code(), 256);
    }
}

#[test]
fn direction_codes() {
    assert_eq!(Directions::In.code(), 1);
    assert_eq!(Directions::Out.code(), 2);
    assert_eq!(Directions::Any.code(), 0);
    assert_eq!(Directions::from(1), Directions::In);
    assert_eq!(Directions::from(2), Directions::Out);
    assert_eq!(Directions::from(0), Directions::Any);
}

#[test]
fn every_other_direction_code_means_any() {
    for code in [3, -1, 256, i32::MAX, i32::MIN] {
        assert_eq!(Directions::from(code), Directions::Any);
        assert_eq!(Directions::from(code).code(), 0);
    }
}

#[test]
fn action_codes() {
    assert_eq!(Actions::Block.code(), 0);
    assert_eq!(Actions::Allow.code(), 1);
    assert_eq!(Actions::from(0), Actions::Block);
    assert_eq!(Actions::from(1), Actions::Allow);
}

#[test]
fn every_code_but_zero_allows_and_is_written_back_as_one() {
    for code in [1, 2, -1, 256, i32::MAX, i32::MIN] {
        assert_eq!(Actions::from(code), Actions::Allow);
        assert_eq!(Actions::from(code).code(), 1);
    }
}

#[test]
fn each_choice_comes_back_from_its_code() {
    for p in [Protocols::Tcp, Protocols::Udp, Protocols::Any] {
        assert_eq!(Protocols::from(p.code()), p);
    }
    for d in [Directions::In, Directions::Out, Directions::Any] {
        assert_eq!(Directions::from(d.code()), d);
    }
    for a in [Actions::Block, Actions::Allow] {
        assert_eq!(Actions::from(a.code()), a);
    }
}

#[test]
fn defaults_are_any_any_block() {
    assert_eq!(Protocols::default(), Protocols::Any);
    assert_eq!(Directions::default(), Directions::Any);
    assert_eq!(Actions::default(), Actions::Block);
}
