use std::io::{self, Cursor, ErrorKind, Read, Write};
use std::sync::{Arc, Mutex};

use futures::executor::{self, Notify};
use futures::future;
use futures::{Async, Future, Poll};
use tokio_io::{AsyncRead, AsyncWrite};

use partial_io::{PartialAsyncRead, PartialAsyncWrite, PartialOp, SizedStep, UnitStep};

/// A scripted reader that performs its steps inside a task.
struct TaskReader<R>(PartialAsyncRead<R>);

impl<R: AsyncRead> Read for TaskReader<R> {
    fn read(&mut self, buf: &mut [u8]) -> io::Result<usize> {
        match self.0.next_read(buf.len()) {
            SizedStep::Forward { len } => self.0.get_mut().read(&mut buf[..len]),
            SizedStep::Fail { kind, wake } => {
                if wake {
                    futures::task::current().notify();
                }
                Err(io::Error::new(kind, "error during read"))
            }
        }
    }
}

impl<R: AsyncRead> AsyncRead for TaskReader<R> {}

/// A scripted writer that performs its steps inside a task.
struct TaskWriter<W>(PartialAsyncWrite<W>);

fn fail(kind: ErrorKind, wake: bool) -> io::Error {
    if wake {
        futures::task::current().notify();
    }
    io::Error::new(kind, "error during write")
}

impl<W: AsyncWrite> Write for TaskWriter<W> {
    fn write(&mut self, buf: &[u8]) -> io::Result<usize> {
        match self.0.next_write(buf.len()) {
            SizedStep::Forward { len } => self.0.get_mut().write(&buf[..len]),
            SizedStep::Fail { kind, wake } => Err(fail(kind, wake)),
        }
    }

    fn flush(&mut self) -> io::Result<()> {
        match self.0.next_flush() {
            UnitStep::Forward => self.0.get_mut().flush(),
            UnitStep::Skip => Ok(()),
            UnitStep::Fail { kind, wake } => Err(fail(kind, wake)),
        }
    }
}

impl<W: AsyncWrite> AsyncWrite for TaskWriter<W> {
    fn shutdown(&mut self) -> Poll<(), io::Error> {
        match self.0.next_close() {
            UnitStep::Forward => self.0.get_mut().shutdown(),
            UnitStep::Skip => Ok(Async::Ready(())),
            UnitStep::Fail { kind, wake } => Err(fail(kind, wake)),
        }
    }
}

/// Counts how often a task was told to poll again.
struct Wakeups(Mutex<usize>);

impl Wakeups {
    fn count(&self) -> usize {
        *self.0.lock().unwrap()
    }
}

impl Notify for Wakeups {
    fn notify(&self, _id: usize) {
        *self.0.lock().unwrap() += 1;
    }
}

#[test]
fn read_future_skips_over_would_block() {
    let reader = Cursor::new(vec![1u8, 2, 3, 4]);
    let script = vec![PartialOp::Error(ErrorKind::WouldBlock), PartialOp::Limited(2)];
    let partial_reader = TaskReader(PartialAsyncRead::new(reader, script));
    let out = vec![0u8; 256];

    let (partial_reader, out, size) = tokio_io::io::read(partial_reader, out).wait().unwrap();

    assert_eq!(size, 2);
    assert_eq!(&out[..3], &[1, 2, 0]);
    assert_eq!(out.len(), 256);
    assert_eq!(partial_reader.0.into_inner().position(), 2);
}

#[test]
fn would_block_read_notifies_the_task_once() {
    let wakeups = Arc::new(Wakeups(Mutex::new(0)));
    let mut reader = TaskReader(PartialAsyncRead::new(
        Cursor::new(vec![1u8, 2, 3, 4]),
        vec![
            PartialOp::Error(ErrorKind::WouldBlock),
            PartialOp::Error(ErrorKind::Interrupted),
            PartialOp::Limited(2),
        ],
    ));
    let mut task = executor::spawn(future::poll_fn(move || {
        let mut buf = [0u8; 8];
        reader.poll_read(&mut buf)
    }));

    assert_eq!(task.poll_future_notify(&wakeups, 0).unwrap(), Async::NotReady);
    assert_eq!(wakeups.count(), 1);

    let failure = task.poll_future_notify(&wakeups, 0).unwrap_err();
    assert_eq!(failure.kind(), ErrorKind::Interrupted);
    assert_eq!(wakeups.count(), 1);

    assert_eq!(task.poll_future_notify(&wakeups, 0).unwrap(), Async::Ready(2));
    assert_eq!(task.poll_future_notify(&wakeups, 0).unwrap(), Async::Ready(2));
    assert_eq!(task.poll_future_notify(&wakeups, 0).unwrap(), Async::Ready(0));
    assert_eq!(wakeups.count(), 1);
}

#[test]
fn write_all_future_gets_through_the_script() {
    let script = vec![
        PartialOp::Limited(1),
        PartialOp::Error(ErrorKind::WouldBlock),
        PartialOp::Limited(1),
        PartialOp::Unlimited,
    ];
    let writer = TaskWriter(PartialAsyncWrite::new(Cursor::new(Vec::new()), script));
    let (writer, _) = tokio_io::io::write_all(writer, vec![9u8, 9, 9]).wait().unwrap();
    assert_eq!(writer.0.into_inner().into_inner(), vec![9, 9, 9]);
}

#[test]
fn would_block_flush_and_shutdown_notify_the_task() {
    let wakeups = Arc::new(Wakeups(Mutex::new(0)));
    let mut writer = TaskWriter(PartialAsyncWrite::new(
        Cursor::new(Vec::new()),
        vec![
            PartialOp::Error(ErrorKind::WouldBlock),
            PartialOp::Limited(1),
            PartialOp::Error(ErrorKind::WouldBlock),
            PartialOp::Error(ErrorKind::BrokenPipe),
        ],
    ));
    let mut calls = 0;
    let mut task = executor::spawn(future::poll_fn(move || {
        calls += 1;
        if calls <= 2 {
            writer.poll_flush()
        } else {
            writer.shutdown()
        }
    }));

    assert_eq!(task.poll_future_notify(&wakeups, 0).unwrap(), Async::NotReady);
    assert_eq!(wakeups.count(), 1);
    assert_eq!(task.poll_future_notify(&wakeups, 0).unwrap(), Async::Ready(()));
    assert_eq!(wakeups.count(), 1);
    let blocked = task.poll_future_notify(&wakeups, 0).unwrap_err();
    assert_eq!(blocked.kind(), ErrorKind::WouldBlock);
    assert_eq!(wakeups.count(), 2);
    let broken = task.poll_future_notify(&wakeups, 0).unwrap_err();
    assert_eq!(broken.kind(), ErrorKind::BrokenPipe);
    assert_eq!(wakeups.count(), 2);
    assert_eq!(task.poll_future_notify(&wakeups, 0).unwrap(), Async::Ready(()));
}
