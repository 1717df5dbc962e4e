use nexus_io::bdev::{Bdev, NexusRef, NEXUS_PRODUCT_ID};
use nexus_io::bdev_io::{BdevIo, IoGeometry, IoVec};
use nexus_io::bio::Bio;
use nexus_io::decimal::push_decimal;
use nexus_io::error::BioError;
use nexus_io::io_status;
use nexus_io::io_type;
use nexus_io::nio_ctx::{Completion, NioCtx};

fn nexus_bdev(blocklen: u32) -> Bdev {
    Bdev { product_name: NEXUS_PRODUCT_ID.to_string(), blocklen, ctxt: 0x7f00_1000 }
}

fn request(type_: u32, iovs: Vec<IoVec>, offset_blocks: u64, num_blocks: u64) -> BdevIo {
    let iovcnt = iovs.len() as i32;
    BdevIo {
        type_,
        bdev: nexus_bdev(512),
        geometry: IoGeometry::new(iovs, iovcnt, offset_blocks, num_blocks).unwrap(),
        driver_ctx: NioCtx { in_flight: 0, status: io_status::PENDING },
    }
}

fn buffer(iov_base: usize, iov_len: usize) -> IoVec {
    IoVec { iov_base, iov_len }
}

#[test]
fn staging_buffer_is_needed_when_the_first_buffer_is_unset() {
    let bio = Bio::from(request(io_type::READ, vec![buffer(0, 4096)], 0, 8));
    assert!(bio.need_buf());
    let bio = Bio::from(request(io_type::READ, vec![buffer(0x1000, 4096)], 0, 8));
    assert!(!bio.need_buf());
}

#[test]
fn staging_buffer_goes_by_the_first_entry_alone() {
    let bio = Bio::from(request(io_type::WRITE, vec![buffer(0x2000, 512), buffer(0, 512), buffer(0, 0)], 0, 2));
    assert!(!bio.need_buf());
    let bio = Bio::from(request(io_type::WRITE, vec![buffer(0, 512), buffer(0x2000, 512), buffer(0x3000, 512)], 0, 3));
    assert!(bio.need_buf());
    let bio = Bio::from(request(io_type::WRITE, vec![buffer(usize::MAX, 0)], 0, 1));
    assert!(!bio.need_buf());
    let bio = Bio::from(request(io_type::WRITE, vec![buffer(1, 0)], 0, 1));
    assert!(!bio.need_buf());
}

#[test]
fn geometry_round_trip() {
    let io = BdevIo {
        type_: io_type::WRITE,
        bdev: nexus_bdev(512),
        geometry: IoGeometry::new(vec![buffer(0x1000, 4096)], 1, 1024, 8).unwrap(),
        driver_ctx: NioCtx { in_flight: 2, status: io_status::SUCCESS },
    };
    let bio = Bio::from(io);
    assert_eq!(bio.offset(), 1024);
    assert_eq!(bio.num_blocks(), 8);
    assert_eq!(bio.block_len(), 512);
    assert_eq!(bio.iov_count(), 1);
    assert_eq!(bio.iovs(), &vec![buffer(0x1000, 4096)]);
}

#[test]
fn geometry_keeps_extreme_values() {
    let io = BdevIo {
        type_: io_type::UNMAP,
        bdev: nexus_bdev(u32::MAX),
        geometry: IoGeometry::new(Vec::new(), 0, u64::MAX, u64::MAX).unwrap(),
        driver_ctx: NioCtx { in_flight: 0, status: io_status::PENDING },
    };
    let bio = Bio::from(io);
    assert_eq!(bio.offset(), u64::MAX);
    assert_eq!(bio.num_blocks(), u64::MAX);
    assert_eq!(bio.block_len(), 4294967295);
    assert_eq!(bio.iov_count(), 0);
    assert!(bio.iovs().is_empty());
}

#[test]
fn geometry_accessors_agree_with_the_handle() {
    let geometry = IoGeometry::new(vec![buffer(16, 32), buffer(48, 64)], 2, 7, 9).unwrap();
    assert_eq!(geometry.iov_count(), 2);
    assert_eq!(geometry.offset_blocks(), 7);
    assert_eq!(geometry.num_blocks(), 9);
    assert_eq!(geometry.iovs().len(), 2);
    assert_eq!(geometry.iovs()[1], buffer(48, 64));
}

#[test]
fn geometry_with_a_wrong_count_is_refused() {
    assert_eq!(IoGeometry::new(vec![buffer(1, 1)], 2, 0, 0), Err(BioError::IovCountMismatch));
    assert_eq!(IoGeometry::new(vec![buffer(1, 1), buffer(2, 2)], 1, 0, 0), Err(BioError::IovCountMismatch));
    assert_eq!(IoGeometry::new(Vec::new(), 1, 0, 0), Err(BioError::IovCountMismatch));
    assert_eq!(IoGeometry::new(Vec::new(), -1, 0, 0), Err(BioError::IovCountMismatch));
    assert_eq!(IoGeometry::new(vec![buffer(1, 1)], i32::MIN, 0, 0), Err(BioError::IovCountMismatch));
    assert!(IoGeometry::new(Vec::new(), 0, 0, 0).is_ok());
    assert!(IoGeometry::new(vec![buffer(1, 1)], 1, 0, 0).is_ok());
}

#[test]
fn type_of_an_absent_request_is_unknown() {
    assert_eq!(Bio::io_type(None), None);
}

#[test]
fn type_of_a_request_is_its_tag() {
    for tag in [io_type::READ, io_type::WRITE, io_type::UNMAP, io_type::FLUSH, io_type::RESET] {
        let io = request(tag, Vec::new(), 0, 0);
        assert_eq!(Bio::io_type(Some(&io)), Some(tag));
    }
}

#[test]
fn type_tags_outside_the_catalog_are_handed_through() {
    for tag in [0u32, 6, 9, 14, u32::MAX] {
        let io = request(tag, Vec::new(), 0, 0);
        assert_eq!(Bio::io_type(Some(&io)), Some(tag));
    }
}

#[test]
fn type_tags_are_those_of_the_framework() {
    assert_eq!(io_type::READ, 1);
    assert_eq!(io_type::WRITE, 2);
    assert_eq!(io_type::UNMAP, 3);
    assert_eq!(io_type::FLUSH, 4);
    assert_eq!(io_type::RESET, 5);
}

#[test]
fn handle_from_an_absent_request_is_refused() {
    assert!(matches!(Bio::try_from(None), Err(BioError::NullHandle)));
}

#[test]
fn handle_from_a_present_request_holds_it() {
    let bio = Bio::try_from(Some(request(io_type::FLUSH, Vec::new(), 3, 4))).unwrap();
    assert_eq!(bio.io, request(io_type::FLUSH, Vec::new(), 3, 4));
    let bio = Bio::from(request(io_type::RESET, vec![buffer(8, 8)], 5, 6));
    assert_eq!(bio.io, request(io_type::RESET, vec![buffer(8, 8)], 5, 6));
}

#[test]
fn device_of_a_request_is_handed_out_unchanged() {
    let bio = Bio::from(request(io_type::READ, Vec::new(), 0, 0));
    assert_eq!(bio.bdev_as_ref(), &nexus_bdev(512));
}

#[test]
fn nexus_is_resolved_through_the_product_name() {
    let bio = Bio::from(request(io_type::READ, Vec::new(), 0, 0));
    assert_eq!(bio.nexus_as_ref(), Ok(NexusRef { ctxt: 0x7f00_1000 }));
    assert!(bio.bdev_as_ref().is_nexus());
}

#[test]
fn device_that_is_no_nexus_is_a_type_mismatch() {
    for name in ["", "Malloc disk", "nexus cas driver v0.0.1", "Nexus CAS Driver v0.0.1 ", "Nexus CAS Driver v0.0.2", "Nexus CAS Driver v0.0."] {
        let mut io = request(io_type::READ, Vec::new(), 0, 0);
        io.bdev.product_name = name.to_string();
        let bio = Bio::from(io);
        assert_eq!(bio.nexus_as_ref(), Err(BioError::TypeMismatch));
        assert!(!bio.bdev_as_ref().is_nexus());
    }
}

#[test]
fn product_name_of_a_nexus() {
    assert_eq!(NEXUS_PRODUCT_ID, "Nexus CAS Driver v0.0.1");
}

#[test]
fn trace_line_of_a_request() {
    let bio = Bio::from(request(io_type::READ, vec![buffer(0x1000, 4096)], 1024, 8));
    assert_eq!(bio.fmt(), "offset: 1024, bytes: 8, type: 1 \n");
}

#[test]
fn trace_line_of_an_empty_request() {
    let bio = Bio::from(request(0, Vec::new(), 0, 0));
    assert_eq!(bio.fmt(), "offset: 0, bytes: 0, type: 0 \n");
}

#[test]
fn trace_line_with_the_largest_values() {
    let bio = Bio::from(request(u32::MAX, Vec::new(), u64::MAX, u64::MAX - 1));
    assert_eq!(bio.fmt(), "offset: 18446744073709551615, bytes: 18446744073709551614, type: 4294967295 \n");
}

#[test]
fn trace_line_leaves_the_request_as_it_was() {
    let mut io = request(io_type::WRITE, vec![buffer(0, 512)], 10, 20);
    io.driver_ctx = NioCtx { in_flight: 0, status: io_status::FAILED };
    let bio = Bio::from(io);
    let first = bio.fmt();
    assert_eq!(first, "offset: 10, bytes: 20, type: 2 \n");
    assert_eq!(bio.fmt(), first);
    assert_eq!(bio.io.driver_ctx, NioCtx { in_flight: 0, status: io_status::FAILED });
}

#[test]
fn decimal_text_of_numbers() {
    for n in [0u64, 1, 9, 10, 11, 99, 100, 101, 1024, 90210, 1_000_000_007, u64::MAX] {
        let mut text = String::new();
        push_decimal(&mut text, n);
        assert_eq!(text, n.to_string());
    }
    let mut text = String::from("n=");
    push_decimal(&mut text, 507);
    push_decimal(&mut text, 0);
    assert_eq!(text, "n=5070");
}

#[test]
fn children_are_assessed_through_the_handle() {
    let mut io = request(io_type::WRITE, vec![buffer(0x1000, 512)], 64, 1);
    io.driver_ctx = NioCtx { in_flight: 2, status: io_status::SUCCESS };
    let mut bio = Bio::from(io);
    assert_eq!(bio.asses(), Ok(None));
    assert_eq!(bio.io.driver_ctx, NioCtx { in_flight: 1, status: io_status::SUCCESS });
    assert_eq!(bio.asses(), Ok(Some(Completion::Success { child_failed: false, children_outstanding: false })));
    assert_eq!(bio.io.driver_ctx, NioCtx { in_flight: 0, status: io_status::SUCCESS });
    assert_eq!(bio.asses(), Err(BioError::DoubleCompletion));
    assert_eq!(bio.io.driver_ctx, NioCtx { in_flight: -1, status: io_status::SUCCESS });
    // nothing but the context has changed
    assert_eq!(bio.io.type_, io_type::WRITE);
    assert_eq!(bio.io.bdev, nexus_bdev(512));
    assert_eq!(bio.offset(), 64);
    assert_eq!(bio.num_blocks(), 1);
    assert_eq!(bio.iovs(), &vec![buffer(0x1000, 512)]);
}

#[test]
fn failure_written_through_the_handle_fails_the_parent() {
    let mut io = request(io_type::WRITE, vec![buffer(0x1000, 512)], 0, 1);
    io.driver_ctx = NioCtx { in_flight: 3, status: io_status::SUCCESS };
    let mut bio = Bio::from(io);
    bio.io_ctx_as_mut_ref().status = io_status::FAILED;
    assert_eq!(bio.asses(), Ok(None));
    assert_eq!(bio.asses(), Ok(None));
    assert_eq!(bio.asses(), Ok(Some(Completion::Failure)));
    assert_eq!(bio.io.driver_ctx, NioCtx { in_flight: 0, status: io_status::FAILED });
}

#[test]
fn context_is_reached_through_the_handle() {
    let mut io = request(io_type::READ, Vec::new(), 0, 0);
    io.driver_ctx = NioCtx { in_flight: 4, status: io_status::PENDING };
    let mut bio = Bio::from(io);
    assert_eq!(*bio.io_ctx_as_mut_ref(), NioCtx { in_flight: 4, status: io_status::PENDING });
    let ctx = bio.io_ctx_as_mut_ref();
    ctx.in_flight = 1;
    ctx.status = io_status::SCSI_ERROR;
    assert_eq!(bio.io.driver_ctx, NioCtx { in_flight: 1, status: io_status::SCSI_ERROR });
}

#[test]
fn success_through_the_handle_reports_what_is_amiss() {
    let mut io = request(io_type::READ, Vec::new(), 0, 0);
    io.driver_ctx = NioCtx { in_flight: 1, status: io_status::NVME_ERROR };
    let mut bio = Bio::from(io);
    let done = bio.ok();
    assert_eq!(done, Completion::Success { child_failed: true, children_outstanding: true });
    assert_eq!(done.status(), io_status::SUCCESS);
    assert_eq!(bio.io.driver_ctx, NioCtx { in_flight: 1, status: io_status::NVME_ERROR });
}

#[test]
fn failure_through_the_handle_ignores_the_counter() {
    let mut io = request(io_type::READ, Vec::new(), 0, 0);
    io.driver_ctx = NioCtx { in_flight: 5, status: io_status::SUCCESS };
    let mut bio = Bio::from(io);
    let done = bio.fail();
    assert_eq!(done, Completion::Failure);
    assert_eq!(done.status(), io_status::FAILED);
    assert_eq!(bio.io.driver_ctx, NioCtx { in_flight: 5, status: io_status::SUCCESS });
}

#[test]
fn crate_root_names_the_main_types() {
    let mut ctx = nexus_io::NioCtx { in_flight: 1, status: io_status::SUCCESS };
    let due: Result<Option<nexus_io::Completion>, nexus_io::BioError> = ctx.asses();
    assert_eq!(due, Ok(Some(Completion::Success { child_failed: false, children_outstanding: false })));
    let bio: nexus_io::Bio = Bio::from(request(io_type::READ, Vec::new(), 0, 0));
    assert_eq!(bio.iov_count(), 0);
}
