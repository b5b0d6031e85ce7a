use nice_game::cpu_pool::StagePoll;
use nice_game::texture::{
    decode_stage, finish_cpu_stage, FenceStatus, GpuSyncFuture, PollStep, SpriteState, StageEvent,
    Texture, TextureError, TextureFormat, TextureFuture, UploadOutcome, WaitStep,
};

/// A 2x2 opaque image in binary PPM: red, green, blue, white.
fn ppm_2x2() -> Vec<u8> {
    let mut bytes = b"P6\n2 2\n255\n".to_vec();
    bytes.extend_from_slice(&[255, 0, 0, 0, 255, 0, 0, 0, 255, 255, 255, 255]);
    bytes
}

#[test]
fn decode_reports_source_dimensions_and_rgba_data() {
    let bytes = ppm_2x2();
    let img = decode_stage(&bytes, TextureFormat::Pnm).expect("a valid image must decode");
    assert_eq!(img.width, 2);
    assert_eq!(img.height, 2);
    assert_eq!(
        img.data,
        vec![255, 0, 0, 255, 0, 255, 0, 255, 0, 0, 255, 255, 255, 255, 255, 255]
    );
}

#[test]
fn decode_of_invalid_bytes_is_an_image_error() {
    let bytes = vec![0u8, 1, 2, 3];
    match decode_stage(&bytes, TextureFormat::Png) {
        Err(TextureError::ImageError(_)) => {},
        _ => panic!("garbage bytes must fail with a decode error"),
    }
}

#[test]
fn upload_failures_keep_their_error_kind() {
    let bytes = ppm_2x2();
    let decoded = decode_stage(&bytes, TextureFormat::Pnm).unwrap();
    match finish_cpu_stage(&decoded, UploadOutcome::AllocError) {
        Err(TextureError::DeviceMemoryAllocError) => {},
        _ => panic!("an allocation failure must be distinguishable"),
    }
    match finish_cpu_stage(&decoded, UploadOutcome::OomError) {
        Err(TextureError::OomError) => {},
        _ => panic!("submission memory exhaustion must be distinguishable"),
    }
    let data = finish_cpu_stage(&decoded, UploadOutcome::Uploaded { image_id: 3, fence_id: 8 })
        .expect("a successful upload completes the stage");
    assert_eq!(data.image.id, 3);
    assert_eq!(data.image.width, 2);
    assert_eq!(data.image.height, 2);
}

#[test]
fn fence_wait_times_out_then_completes_on_the_same_fence() {
    let mut sync = GpuSyncFuture::new(41);
    assert!(matches!(sync.on_wait(FenceStatus::Timeout), WaitStep::StillRunning));
    assert!(matches!(sync.on_wait(FenceStatus::Timeout), WaitStep::StillRunning));
    assert!(matches!(sync.on_wait(FenceStatus::Signaled), WaitStep::Complete));
    // Terminal: further waits report the standing answer.
    assert!(matches!(sync.on_wait(FenceStatus::Timeout), WaitStep::Complete));
}

#[test]
fn lost_device_is_fatal_at_the_fence() {
    let mut sync = GpuSyncFuture::new(1);
    assert!(matches!(sync.on_wait(FenceStatus::Lost), WaitStep::Fatal));
    assert!(matches!(sync.on_wait(FenceStatus::Signaled), WaitStep::Fatal));
}

/// Drives one load to the GPU stage with the given device ids and returns it.
fn load_to_gpu_stage(image_id: u64, fence_id: u64) -> TextureFuture {
    let mut fut = TextureFuture::new();
    let bytes = ppm_2x2();
    let step = fut.poll(StageEvent::Disk(StagePoll::Done(Ok(bytes))));
    let dispatched = match step {
        PollStep::DispatchCpu(b) => b,
        _ => panic!("a finished read must dispatch the compute stage"),
    };
    let decoded = decode_stage(&dispatched, TextureFormat::Pnm).unwrap();
    let data =
        finish_cpu_stage(&decoded, UploadOutcome::Uploaded { image_id, fence_id }).unwrap();
    let step = fut.poll(StageEvent::Cpu(StagePoll::Done(Ok(data))));
    assert!(matches!(step, PollStep::Pending));
    assert!(matches!(fut.state(), SpriteState::LoadingGpu(_)));
    fut
}

#[test]
fn missing_file_fails_in_the_disk_stage_and_never_reaches_the_compute_pool() {
    let mut fut = TextureFuture::new();
    assert!(matches!(fut.poll(StageEvent::Disk(StagePoll::Pending)), PollStep::Pending));
    assert!(matches!(fut.state(), SpriteState::LoadingDisk));
    let step = fut.poll(StageEvent::Disk(StagePoll::Done(Err(String::from(
        "no such file or directory",
    )))));
    assert!(matches!(step, PollStep::Failed));
    match fut.state() {
        SpriteState::Failed(TextureError::IoError(msg)) => {
            assert_eq!(msg, "no such file or directory")
        },
        _ => panic!("a failed read must fail the load with its I/O error"),
    }
    assert!(fut.is_terminal());
}

#[test]
fn valid_image_traverses_all_stages_and_keeps_its_dimensions() {
    let mut fut = load_to_gpu_stage(11, 42);
    let step = fut.poll(StageEvent::Fence(FenceStatus::Signaled));
    let texture = match step {
        PollStep::Ready(t) => t,
        _ => panic!("a signaled fence must finish the load"),
    };
    assert_eq!(texture.width(), 2);
    assert_eq!(texture.height(), 2);
    assert_eq!(texture.image().id, 11);
    assert!(fut.is_terminal());
}

#[test]
fn polling_a_terminal_load_changes_nothing() {
    let mut fut = load_to_gpu_stage(5, 6);
    let first = fut.poll(StageEvent::Fence(FenceStatus::Signaled));
    let t1: Texture = match first {
        PollStep::Ready(t) => t,
        _ => panic!("expected completion"),
    };
    // Polling again re-runs nothing and reports the same handle.
    let again = fut.poll(StageEvent::Fence(FenceStatus::Timeout));
    let t2: Texture = match again {
        PollStep::Ready(t) => t,
        _ => panic!("a terminal load must report its standing answer"),
    };
    assert_eq!(t1, t2);

    let mut failed = TextureFuture::new();
    failed.poll(StageEvent::Disk(StagePoll::Done(Err(String::from("gone")))));
    assert!(matches!(failed.poll(StageEvent::Disk(StagePoll::Pending)), PollStep::Failed));
    match failed.state() {
        SpriteState::Failed(TextureError::IoError(msg)) => assert_eq!(msg, "gone"),
        _ => panic!("the terminal error must not change"),
    }
}

#[test]
fn timeout_reports_pending_once_then_ready_without_rebuilding() {
    let mut fut = load_to_gpu_stage(77, 13);
    // The fence times out once: the load stays in the GPU stage with the very
    // same submission and asks to be polled again.
    let step = fut.poll(StageEvent::Fence(FenceStatus::Timeout));
    assert!(matches!(step, PollStep::Repoll));
    match fut.state() {
        SpriteState::LoadingGpu(d) => {
            assert_eq!(d.image.id, 77);
        },
        _ => panic!("a timeout must keep the GPU stage"),
    }
    // The next wait succeeds: the same device image becomes the texture.
    let step = fut.poll(StageEvent::Fence(FenceStatus::Signaled));
    match step {
        PollStep::Ready(t) => assert_eq!(t.image().id, 77),
        _ => panic!("the re-armed wait must complete the load"),
    }
}

#[test]
fn lost_device_fails_the_gpu_stage_fatally() {
    let mut fut = load_to_gpu_stage(1, 2);
    let step = fut.poll(StageEvent::Fence(FenceStatus::Lost));
    assert!(matches!(step, PollStep::Failed));
    assert!(matches!(fut.state(), SpriteState::Failed(TextureError::DeviceFatalError)));
}

#[test]
fn compute_failure_fails_the_load_with_its_own_error() {
    let mut fut = TextureFuture::new();
    fut.poll(StageEvent::Disk(StagePoll::Done(Ok(vec![0u8, 1, 2, 3]))));
    let decode_err = match decode_stage(&vec![0u8, 1, 2, 3], TextureFormat::Png) {
        Err(e) => e,
        Ok(_) => panic!("garbage bytes must not decode"),
    };
    let step = fut.poll(StageEvent::Cpu(StagePoll::Done(Err(decode_err))));
    assert!(matches!(step, PollStep::Failed));
    assert!(matches!(fut.state(), SpriteState::Failed(TextureError::ImageError(_))));
}

#[test]
fn concurrent_loads_complete_in_signal_order_not_request_order() {
    // The first request's device signal arrives after the second's: the
    // second load finishes first, and neither machine disturbs the other.
    let mut first = load_to_gpu_stage(100, 1);
    let mut second = load_to_gpu_stage(200, 2);

    assert!(matches!(first.poll(StageEvent::Fence(FenceStatus::Timeout)), PollStep::Repoll));
    let step = second.poll(StageEvent::Fence(FenceStatus::Signaled));
    match step {
        PollStep::Ready(t) => assert_eq!(t.image().id, 200),
        _ => panic!("the second load must finish first"),
    }
    assert!(!first.is_terminal());
    assert!(matches!(first.state(), SpriteState::LoadingGpu(_)));

    let step = first.poll(StageEvent::Fence(FenceStatus::Signaled));
    match step {
        PollStep::Ready(t) => assert_eq!(t.image().id, 100),
        _ => panic!("the first load must still finish"),
    }
}
