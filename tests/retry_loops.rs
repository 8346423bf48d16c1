use osnet::errno::PosixError;
use osnet::socket::{recv_all_next, send_all_next, Transfer};

/// A transport that answers each call with the next scripted outcome.
struct Mock {
    outcomes: Vec<Result<usize, PosixError>>,
    calls: usize,
}

impl Mock {
    fn new(outcomes: Vec<Result<usize, PosixError>>) -> Self {
        Mock { outcomes, calls: 0 }
    }

    fn call(&mut self, remaining: usize) -> Result<usize, PosixError> {
        let r = self.outcomes[self.calls];
        self.calls += 1;
        r.map(|n| n.min(remaining))
    }
}

fn recv_all(mock: &mut Mock, len: usize) -> Result<usize, PosixError> {
    let mut cnt = 0;
    loop {
        let res = mock.call(len - cnt);
        match recv_all_next(cnt, len, res) {
            Transfer::Again(c) => cnt = c,
            Transfer::Done(r) => return r,
        }
    }
}

fn send_all(mock: &mut Mock, len: usize) -> Result<usize, PosixError> {
    let mut cnt = 0;
    loop {
        let res = mock.call(len - cnt);
        match send_all_next(cnt, len, res) {
            Transfer::Again(c) => cnt = c,
            Transfer::Done(r) => return r,
        }
    }
}

#[test]
fn recv_retries_interrupted_call_once() {
    let mut plain = Mock::new(vec![Ok(10), Ok(0)]);
    let mut interrupted = Mock::new(vec![Err(PosixError::EINTR), Ok(10), Ok(0)]);
    assert_eq!(recv_all(&mut plain, 64), Ok(10));
    assert_eq!(recv_all(&mut interrupted, 64), Ok(10));
    assert_eq!(interrupted.calls, plain.calls + 1);
}

#[test]
fn send_retries_interrupted_call_once() {
    let mut plain = Mock::new(vec![Ok(36)]);
    let mut interrupted = Mock::new(vec![Err(PosixError::EINTR), Ok(36)]);
    assert_eq!(send_all(&mut plain, 36), Ok(36));
    assert_eq!(send_all(&mut interrupted, 36), Ok(36));
    assert_eq!(interrupted.calls, 2);
}

#[test]
fn recv_would_block_returns_partial_count() {
    let mut m = Mock::new(vec![Ok(7), Err(PosixError::EAGAIN)]);
    assert_eq!(recv_all(&mut m, 64), Ok(7));
    assert_eq!(m.calls, 2);
}

#[test]
fn recv_hard_error_propagates() {
    let mut m = Mock::new(vec![Ok(7), Err(PosixError::EBADF)]);
    assert_eq!(recv_all(&mut m, 64), Err(PosixError::EBADF));
}

#[test]
fn send_partial_progress_and_errors() {
    let mut m = Mock::new(vec![Ok(10), Ok(26)]);
    assert_eq!(send_all(&mut m, 36), Ok(36));
    assert_eq!(m.calls, 2);
    let mut blocked = Mock::new(vec![Ok(10), Err(PosixError::EAGAIN)]);
    assert_eq!(send_all(&mut blocked, 36), Err(PosixError::EAGAIN));
    let mut stalled = Mock::new(vec![Ok(10), Ok(0)]);
    assert_eq!(send_all(&mut stalled, 36), Ok(10));
    let mut empty = Mock::new(vec![Ok(0)]);
    assert_eq!(send_all(&mut empty, 0), Ok(0));
}

#[test]
fn step_decisions() {
    assert_eq!(recv_all_next(5, 10, Ok(0)), Transfer::Done(Ok(5)));
    assert_eq!(recv_all_next(5, 10, Ok(3)), Transfer::Again(8));
    assert_eq!(recv_all_next(5, 10, Err(PosixError::EINTR)), Transfer::Again(5));
    assert_eq!(send_all_next(5, 10, Ok(5)), Transfer::Done(Ok(10)));
    assert_eq!(send_all_next(5, 10, Ok(2)), Transfer::Again(7));
}
