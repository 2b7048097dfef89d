use std::sync::{Arc, Mutex};
use thin_trait_objects::{
    file_handle_destroy, file_handle_flush, file_handle_write, flush_status, status_of_error,
    write_status, AbortingWriter, ByteSink, DestroyOutcome, ExternalWriter, FaultyWriter,
    FileHandle, NullWriter, OpStatus, StreamError,
};

#[derive(Clone, Default)]
struct SharedBuffer(Arc<Mutex<Vec<u8>>>);

impl std::io::Write for SharedBuffer {
    fn write(&mut self, buf: &[u8]) -> std::io::Result<usize> {
        self.0.lock().unwrap().extend_from_slice(buf);
        Ok(buf.len())
    }

    fn flush(&mut self) -> std::io::Result<()> {
        Ok(())
    }
}

#[test]
fn writer_destructor_is_always_called() {
    let file_handle = FileHandle::for_writer(ByteSink::new());
    assert!(file_handle.is::<ByteSink>());

    let outcome = file_handle_destroy(Some(file_handle));

    assert!(matches!(
        outcome,
        Some(DestroyOutcome::DestructorRan { .. })
    ));
}

#[test]
fn create_null_file_handle_and_destroy_it() {
    let handle = FileHandle::for_writer(NullWriter::new());
    assert!(handle.is::<NullWriter>());

    file_handle_destroy(Some(handle));
}

#[test]
fn detect_failed_write() {
    let mut handle = FileHandle::for_writer(FaultyWriter::new(42));
    let msg = "Hello, World!";

    let ret = file_handle_write(&mut handle, msg.as_bytes());
    assert_eq!(ret, -42);

    file_handle_destroy(Some(handle));
}

// The dispatch an external stream's holder performs: ask the protocol
// whether the stream may be invoked, invoke it, hand the event back, and
// report the boundary status.
fn dispatch_external_write<W: std::io::Write>(
    handle: &mut FileHandle,
    stream: &mut W,
    data: &[u8],
) -> i32 {
    match handle.check_live() {
        Err(e) => status_of_error(e),
        Ok(()) => {
            let ev = match stream.write(data) {
                Ok(n) => OpStatus::Completed(n),
                Err(e) => OpStatus::Failed(e.raw_os_error().unwrap_or(1)),
            };
            write_status(handle.apply_write_event(ev))
        }
    }
}

fn dispatch_external_flush<W: std::io::Write>(handle: &mut FileHandle, stream: &mut W) -> i32 {
    match handle.check_live() {
        Err(e) => status_of_error(e),
        Ok(()) => {
            let ev = match stream.flush() {
                Ok(()) => OpStatus::Completed(()),
                Err(e) => OpStatus::Failed(e.raw_os_error().unwrap_or(1)),
            };
            flush_status(handle.apply_flush_event(ev))
        }
    }
}

#[test]
fn write_to_shared_buffer() {
    let msg = "Hello, World!";
    let buffer = SharedBuffer::default();
    let mut stream = buffer.clone();

    let mut handle = FileHandle::for_writer(ExternalWriter::new());
    assert!(handle.is::<ExternalWriter>());

    let ret = dispatch_external_write(&mut handle, &mut stream, msg.as_bytes());
    assert_eq!(ret, msg.len() as i32);

    let ret = dispatch_external_flush(&mut handle, &mut stream);
    assert_eq!(ret, 0);

    file_handle_destroy(Some(handle));

    let written = buffer.0.lock().unwrap();
    let got = String::from_utf8(written.clone()).unwrap();
    assert_eq!(got, msg);
}

#[test]
fn destroying_a_null_handle_is_a_no_op() {
    assert!(file_handle_destroy(None).is_none());
}

#[test]
fn detect_failed_flush() {
    let mut handle = FileHandle::for_writer(FaultyWriter::new(42));

    let ret = file_handle_flush(&mut handle);
    assert_eq!(ret, -42);

    file_handle_destroy(Some(handle));
}

#[test]
fn boundary_write_reports_byte_count() {
    let mut handle = FileHandle::for_writer(ByteSink::new());
    let ret = file_handle_write(&mut handle, b"Hello, World!");
    assert_eq!(ret, 13);
    assert_eq!(file_handle_flush(&mut handle), 0);
    file_handle_destroy(Some(handle));
}

#[test]
fn poisoned_boundary_calls_report_the_sentinel() {
    let mut handle = FileHandle::for_writer(AbortingWriter::new());
    assert_eq!(file_handle_write(&mut handle, b"x"), -1);
    assert_eq!(file_handle_write(&mut handle, b"x"), -1);
    assert_eq!(file_handle_flush(&mut handle), -1);
    let outcome = file_handle_destroy(Some(handle));
    assert!(matches!(
        outcome,
        Some(DestroyOutcome::MemoryReclaimed { .. })
    ));
}

#[test]
fn status_translation_is_exact() {
    assert_eq!(status_of_error(StreamError::Io { code: 5 }), -5);
    assert_eq!(status_of_error(StreamError::Io { code: 0 }), -1);
    assert_eq!(status_of_error(StreamError::Io { code: -9 }), -1);
    assert_eq!(status_of_error(StreamError::Poisoned), -1);
    assert_eq!(status_of_error(StreamError::AlreadyPoisoned), -1);
    assert_eq!(write_status(Ok(13)), 13);
    assert_eq!(write_status(Err(StreamError::Io { code: 42 })), -42);
    assert_eq!(flush_status(Ok(())), 0);
    assert_eq!(flush_status(Err(StreamError::Poisoned)), -1);
}
