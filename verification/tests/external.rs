use thin_trait_objects::{
    foreign_flush_result, foreign_write_result, plan_placement, reserve_region, LayoutDesc,
    StreamError,
};

#[test]
fn plan_honors_the_requested_alignment() {
    let header = LayoutDesc { size: 40, align: 8 };
    let payload = LayoutDesc { size: 13, align: 16 };

    let plan = plan_placement(header, payload).unwrap();
    assert_eq!(plan.payload_offset, 48);
    assert_eq!(plan.combined.size, 61);
    assert_eq!(plan.combined.align, 16);
    assert_eq!(plan.payload_offset % payload.align, 0);
    assert!(plan.combined.size - plan.payload_offset >= payload.size);
}

#[test]
fn plan_needs_no_padding_when_already_aligned() {
    let header = LayoutDesc { size: 32, align: 8 };
    let payload = LayoutDesc { size: 8, align: 8 };

    let plan = plan_placement(header, payload).unwrap();
    assert_eq!(plan.payload_offset, 32);
    assert_eq!(plan.combined.size, 40);
    assert_eq!(plan.combined.align, 8);
}

#[test]
fn plan_for_an_empty_payload() {
    let header = LayoutDesc { size: 24, align: 8 };
    let payload = LayoutDesc { size: 0, align: 1 };

    let plan = plan_placement(header, payload).unwrap();
    assert_eq!(plan.payload_offset, 24);
    assert_eq!(plan.combined.size, 24);
    assert_eq!(plan.combined.align, 8);
}

#[test]
fn oversized_plan_reports_allocation_failure() {
    let header = LayoutDesc {
        size: isize::MAX as usize,
        align: 1,
    };
    let payload = LayoutDesc { size: 100, align: 1 };

    assert!(plan_placement(header, payload).is_none());
}

#[test]
fn reserved_region_is_sized_and_zeroed() {
    let header = LayoutDesc { size: 40, align: 8 };
    let payload = LayoutDesc { size: 13, align: 16 };
    let plan = plan_placement(header, payload).unwrap();

    let region = reserve_region(&plan);
    assert_eq!(region.len(), 61);
    assert!(region.iter().all(|b| *b == 0));
}

#[test]
fn foreign_statuses_translate_exactly() {
    assert_eq!(foreign_write_result(13), Ok(13));
    assert_eq!(foreign_write_result(0), Ok(0));
    assert_eq!(
        foreign_write_result(-42),
        Err(StreamError::Io { code: 42 })
    );
    assert_eq!(foreign_flush_result(0), Ok(()));
    assert_eq!(foreign_flush_result(7), Ok(()));
    assert_eq!(foreign_flush_result(-1), Err(StreamError::Io { code: 1 }));
}
