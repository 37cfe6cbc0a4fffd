use izanami::connection::ReadyPoll;
use izanami::service::{Service, With};
use izanami::upgrade::{OnUpgrade, Upgrade, UpgradePoll};

struct Probe {
    answers: Vec<u8>,
    asked: usize,
}

impl Probe {
    fn new(answers: &[u8]) -> Probe {
        Probe { answers: answers.to_vec(), asked: 0 }
    }
}

impl Service for Probe {
    type Error = &'static str;

    fn ready(&self) -> ReadyPoll<&'static str> {
        unreachable!("only proofs speak of this")
    }

    fn probed(&self) -> Probe {
        unreachable!("only proofs speak of this")
    }

    fn poll_ready(&mut self) -> ReadyPoll<&'static str> {
        let answer = self.answers[self.asked];
        self.asked += 1;
        match answer {
            0 => ReadyPoll::Ready,
            1 => ReadyPoll::NotReady,
            _ => ReadyPoll::Failed("down"),
        }
    }
}

#[test]
fn pair_is_ready_when_both_are() {
    let mut pair = With::new(Probe::new(&[0]), Probe::new(&[0]));
    assert!(matches!(pair.poll_ready(), ReadyPoll::Ready));
    assert_eq!(pair.s1.asked, 1);
    assert_eq!(pair.s2.asked, 1);
}

#[test]
fn pair_waits_for_the_first_before_it_asks_the_second() {
    let mut pair = With::new(Probe::new(&[1, 0]), Probe::new(&[1, 0]));
    assert!(matches!(pair.poll_ready(), ReadyPoll::NotReady));
    assert_eq!(pair.s1.asked, 1);
    assert_eq!(pair.s2.asked, 0);
    assert!(matches!(pair.poll_ready(), ReadyPoll::NotReady));
    assert_eq!(pair.s2.asked, 1);
}

#[test]
fn pair_fails_with_either() {
    let mut pair = With::new(Probe::new(&[2]), Probe::new(&[0]));
    assert!(matches!(pair.poll_ready(), ReadyPoll::Failed("down")));
    assert_eq!(pair.s2.asked, 0);
    let mut pair = With::new(Probe::new(&[0]), Probe::new(&[2]));
    assert!(matches!(pair.poll_ready(), ReadyPoll::Failed("down")));
}

struct Socket {
    polls_left: u8,
}

impl Upgrade for Socket {
    type Upgraded = &'static str;
    type Error = ();

    fn upgraded(&self) -> UpgradePoll<&'static str, ()> {
        unreachable!("only proofs speak of this")
    }

    fn polled(&self) -> Socket {
        unreachable!("only proofs speak of this")
    }

    fn poll_upgrade(&mut self) -> UpgradePoll<&'static str, ()> {
        if self.polls_left == 0 {
            UpgradePoll::Ready("raw bytes")
        } else {
            self.polls_left -= 1;
            UpgradePoll::Pending
        }
    }
}

#[test]
fn upgrade_is_polled_through_the_wait() {
    let mut wait = OnUpgrade::new(Socket { polls_left: 1 });
    assert!(matches!(wait.poll(), UpgradePoll::Pending));
    assert!(matches!(wait.poll(), UpgradePoll::Ready("raw bytes")));
    assert_eq!(wait.0.polls_left, 0);
}
