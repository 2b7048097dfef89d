use thin_trait_objects::{
    AbortingWriter, ByteSink, DestroyOutcome, ExternalWriter, FaultyWriter, FileHandle,
    NullWriter, OpStatus, OwnedFileHandle, StreamError, ABORTING_WRITER_TOKEN, BYTE_SINK_TOKEN,
    EXTERNAL_WRITER_TOKEN, FAULTY_WRITER_TOKEN, NULL_WRITER_TOKEN,
};

#[test]
fn downcast_ref() {
    let mut handle = OwnedFileHandle::new(ByteSink::new());
    handle.write(b"Hello").unwrap();

    let got = handle.downcast_ref::<ByteSink>().unwrap();
    assert_eq!(got.bytes().as_slice(), b"Hello");
}

#[test]
fn downcast_mut() {
    let mut handle = OwnedFileHandle::new(ByteSink::new());

    let got = handle.downcast_mut::<ByteSink>().unwrap();
    got.write_bytes(b"direct");
    assert_eq!(
        handle.downcast_ref::<ByteSink>().unwrap().bytes().as_slice(),
        b"direct"
    );
}

#[test]
fn downcast_owned_doesnt_destroy_twice() {
    let handle = OwnedFileHandle::new(NullWriter::new());

    let handle = match handle.downcast::<ByteSink>() {
        Ok(_) => panic!("downcast to the wrong type must be rejected"),
        Err(handle) => handle,
    };

    let got = handle.downcast::<NullWriter>();
    assert!(got.is_ok());
}

#[test]
fn owned_handle_poisons_on_panic() {
    let mut writer = OwnedFileHandle::new(AbortingWriter::new());

    let got = writer.write(b"asdf");
    assert!(got.is_err());

    let outcome = writer.destroy();
    assert!(
        !matches!(outcome, DestroyOutcome::DestructorRan { .. }),
        "The destructor shouldn't have run"
    );
}

#[test]
fn is_true_right_after_construction() {
    assert!(OwnedFileHandle::new(NullWriter::new()).is::<NullWriter>());
    assert!(OwnedFileHandle::new(ByteSink::new()).is::<ByteSink>());
    assert!(OwnedFileHandle::new(FaultyWriter::new(7)).is::<FaultyWriter>());
    assert!(OwnedFileHandle::new(AbortingWriter::new()).is::<AbortingWriter>());
    assert!(OwnedFileHandle::new(ExternalWriter::new()).is::<ExternalWriter>());
    assert!(!OwnedFileHandle::new(ByteSink::new()).is::<NullWriter>());
}

#[test]
fn is_stays_true_for_the_live_lifetime() {
    let mut handle = OwnedFileHandle::new(ByteSink::new());
    handle.write(b"one").unwrap();
    assert!(handle.is::<ByteSink>());
    handle.flush().unwrap();
    assert!(handle.is::<ByteSink>());
    handle.write(b"two").unwrap();
    assert!(handle.is::<ByteSink>());
}

#[test]
fn wrong_downcast_rejects_and_mutates_nothing() {
    let mut handle = OwnedFileHandle::new(ByteSink::new());
    handle.write(b"kept").unwrap();

    assert!(handle.downcast_ref::<FaultyWriter>().is_none());
    assert!(handle.downcast_mut::<NullWriter>().is_none());

    let handle = match handle.downcast::<AbortingWriter>() {
        Ok(_) => panic!("downcast to the wrong type must be rejected"),
        Err(handle) => handle,
    };
    let sink = match handle.downcast::<ByteSink>() {
        Ok(sink) => sink,
        Err(_) => panic!("downcast to the stored type must succeed"),
    };
    assert_eq!(sink.into_bytes(), b"kept".to_vec());
}

#[test]
fn destroy_runs_destructor_exactly_once() {
    let handle = OwnedFileHandle::new(ByteSink::new());
    let outcome = handle.destroy();
    assert_eq!(
        outcome,
        DestroyOutcome::DestructorRan {
            type_token: BYTE_SINK_TOKEN
        }
    );
}

#[test]
fn poisoned_handle_fails_fast_and_leaks_on_destroy() {
    let mut handle = OwnedFileHandle::new(AbortingWriter::new());

    assert_eq!(handle.write(b"boom"), Err(StreamError::Poisoned));
    assert_eq!(handle.write(b"again"), Err(StreamError::AlreadyPoisoned));
    assert_eq!(handle.flush(), Err(StreamError::AlreadyPoisoned));

    let outcome = handle.destroy();
    assert!(matches!(outcome, DestroyOutcome::MemoryReclaimed { .. }));
}

#[test]
fn vtable_records_token_and_layout() {
    let table = FileHandle::vtable::<ByteSink>();
    assert_eq!(table.type_token, BYTE_SINK_TOKEN);
    assert!(!table.poisoned);
    assert_eq!(table.layout.size, core::mem::size_of::<FileHandle>());
    assert_eq!(table.layout.align, core::mem::align_of::<FileHandle>());
}

#[test]
fn tokens_are_pairwise_distinct() {
    let tokens = [
        NULL_WRITER_TOKEN,
        BYTE_SINK_TOKEN,
        FAULTY_WRITER_TOKEN,
        ABORTING_WRITER_TOKEN,
        EXTERNAL_WRITER_TOKEN,
    ];
    for i in 0..tokens.len() {
        for j in 0..tokens.len() {
            if i != j {
                assert_ne!(tokens[i], tokens[j]);
            }
        }
    }
}

#[test]
fn into_raw_and_from_raw_round_trip() {
    let owned = OwnedFileHandle::new(ByteSink::new());
    let loose = owned.into_raw();
    assert!(loose.is::<ByteSink>());
    let mut owned = OwnedFileHandle::from_raw(loose);
    assert_eq!(owned.write(b"hi"), Ok(2));
}

#[test]
fn nullable_handle_costs_no_extra_storage() {
    assert_eq!(
        core::mem::size_of::<Option<OwnedFileHandle>>(),
        core::mem::size_of::<OwnedFileHandle>()
    );
    assert_eq!(
        core::mem::size_of::<Option<FileHandle>>(),
        core::mem::size_of::<FileHandle>()
    );
}

#[test]
fn written_bytes_survive_a_flush_byte_for_byte() {
    let mut handle = OwnedFileHandle::new(ByteSink::new());
    assert_eq!(handle.write(b"Hello, World!"), Ok(13));
    assert_eq!(handle.flush(), Ok(()));

    let sink = match handle.downcast::<ByteSink>() {
        Ok(sink) => sink,
        Err(_) => panic!("downcast to the stored type must succeed"),
    };
    assert_eq!(sink.into_bytes(), b"Hello, World!".to_vec());
}

#[test]
fn abnormal_event_poisons_an_external_handle() {
    let mut handle = OwnedFileHandle::new(ExternalWriter::new());

    assert!(handle.check_live().is_ok());
    assert_eq!(handle.apply_write_event(OpStatus::Completed(4)), Ok(4));

    // The stream's holder caught an abnormal termination and reports it.
    assert_eq!(
        handle.apply_write_event(OpStatus::Aborted),
        Err(StreamError::Poisoned)
    );

    // From now on the stream must not be invoked, and every event is
    // discarded.
    assert_eq!(handle.check_live(), Err(StreamError::AlreadyPoisoned));
    assert_eq!(
        handle.apply_write_event(OpStatus::Completed(9)),
        Err(StreamError::AlreadyPoisoned)
    );
    assert_eq!(
        handle.apply_flush_event(OpStatus::Completed(())),
        Err(StreamError::AlreadyPoisoned)
    );

    let outcome = handle.destroy();
    assert!(matches!(outcome, DestroyOutcome::MemoryReclaimed { .. }));
}

#[test]
fn failed_event_does_not_poison() {
    let mut handle = OwnedFileHandle::new(ExternalWriter::new());
    assert_eq!(
        handle.apply_write_event(OpStatus::Failed(42)),
        Err(StreamError::Io { code: 42 })
    );
    assert!(handle.check_live().is_ok());
    assert_eq!(handle.apply_flush_event(OpStatus::Completed(())), Ok(()));
}

#[test]
fn error_descriptions_are_fixed() {
    assert_eq!(
        StreamError::Io { code: 7 }.description(),
        "the stream failed with a platform error code"
    );
    assert_eq!(StreamError::Poisoned.description(), "A panic occurred");
    assert_eq!(
        StreamError::AlreadyPoisoned.description(),
        "A panic occurred and this object is now poisoned"
    );
}

fn require_send_and_sync<T: Send + Sync>() {}

#[test]
fn handles_can_cross_threads() {
    require_send_and_sync::<FileHandle>();
    require_send_and_sync::<OwnedFileHandle>();
}
