use rustix::fs::at::{readlink_start, readlink_step, ReadlinkStep, READLINK_START_LEN};
use rustix::io::Error;

/// Plays the kernel's part: writes as much of `target` as fits into
/// `buffer` and returns the count.
fn kernel_readlink(buffer: &mut Vec<u8>, target: &[u8]) -> usize {
    let n = if target.len() < buffer.len() { target.len() } else { buffer.len() };
    buffer[..n].copy_from_slice(&target[..n]);
    n
}

fn read_whole(target: &[u8]) -> (Vec<u8>, usize) {
    let mut buffer = readlink_start(Vec::new());
    let mut calls = 0;
    loop {
        let n = kernel_readlink(&mut buffer, target);
        calls += 1;
        match readlink_step(buffer, Ok(n)) {
            ReadlinkStep::Done(b) => return (b, calls),
            ReadlinkStep::Retry(b) => buffer = b,
            ReadlinkStep::Failed(_) => panic!("no error was given"),
        }
    }
}

#[test]
fn start_buffer_is_zeroed_and_ignores_reuse() {
    assert_eq!(READLINK_START_LEN, 256);
    assert_eq!(readlink_start(vec![7u8; 1000]), vec![0u8; 256]);
    assert_eq!(readlink_start(Vec::new()), vec![0u8; 256]);
}

#[test]
fn short_read_is_done() {
    let mut buffer = vec![0u8; 256];
    buffer[..3].copy_from_slice(b"abc");
    match readlink_step(buffer, Ok(3)) {
        ReadlinkStep::Done(b) => assert_eq!(b, b"abc".to_vec()),
        _ => panic!("expected Done"),
    }
}

#[test]
fn empty_read_is_done() {
    match readlink_step(vec![9u8; 256], Ok(0)) {
        ReadlinkStep::Done(b) => assert!(b.is_empty()),
        _ => panic!("expected Done"),
    }
}

#[test]
fn full_read_doubles_with_zeros() {
    let buffer = vec![5u8; 256];
    match readlink_step(buffer, Ok(256)) {
        ReadlinkStep::Retry(b) => {
            assert_eq!(b.len(), 512);
            assert!(b[..256].iter().all(|&x| x == 5));
            assert!(b[256..].iter().all(|&x| x == 0));
        }
        _ => panic!("expected Retry"),
    }
}

#[test]
fn error_is_passed_on() {
    let e = Error::from_raw_os_error(libc::ENOENT);
    match readlink_step(vec![0u8; 256], Err(e)) {
        ReadlinkStep::Failed(f) => assert_eq!(f, e),
        _ => panic!("expected Failed"),
    }
}

#[test]
fn short_target_takes_one_call() {
    let (b, calls) = read_whole(b"/usr/lib/target");
    assert_eq!(b, b"/usr/lib/target".to_vec());
    assert_eq!(calls, 1);
}

#[test]
fn long_target_is_read_whole() {
    let target: Vec<u8> = (0..600u32).map(|i| (i % 251) as u8 + 1).collect();
    let (b, calls) = read_whole(&target);
    assert_eq!(b, target);
    assert_eq!(calls, 3);
}

#[test]
fn target_of_exactly_buffer_length_needs_one_more_call() {
    let target = vec![b'x'; 256];
    let (b, calls) = read_whole(&target);
    assert_eq!(b, target);
    assert_eq!(calls, 2);
}
