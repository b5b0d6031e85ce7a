//! The texture-loading pipeline: a poll-driven state machine that takes a
//! texture from bytes on disk, through a CPU-side decode into RGBA data,
//! through a device upload, to a finished resource handle. Each load owns one
//! machine; a poll feeds in the outcome of probing the stage that is running
//! and the machine decides the transition. Stages advance strictly forward,
//! terminal states absorb every later poll, and every failure is classified
//! by the stage it came from.

use vstd::prelude::*;

use crate::cpu_pool::StagePoll;

verus! {

/// Container formats the decoder accepts.
#[derive(Clone, Copy, PartialEq, Eq, Structural, Debug)]
pub enum TextureFormat {
    Png,
    Jpeg,
    Gif,
    WebP,
    Pnm,
    Tiff,
    Tga,
    Bmp,
    Ico,
}

#[verifier::external_type_specification]
#[verifier::external_body]
pub struct ExImageFormat(image::ImageFormat);

/// Relies on image::ImageFormat: the decoder selects its codec by this tag.
#[verifier::external_body]
fn to_image_format(format: TextureFormat) -> image::ImageFormat {
    match format {
        TextureFormat::Png => image::ImageFormat::Png,
        TextureFormat::Jpeg => image::ImageFormat::Jpeg,
        TextureFormat::Gif => image::ImageFormat::Gif,
        TextureFormat::WebP => image::ImageFormat::WebP,
        TextureFormat::Pnm => image::ImageFormat::Pnm,
        TextureFormat::Tiff => image::ImageFormat::Tiff,
        TextureFormat::Tga => image::ImageFormat::Tga,
        TextureFormat::Bmp => image::ImageFormat::Bmp,
        TextureFormat::Ico => image::ImageFormat::Ico,
    }
}

/// What decoding a byte stream in a given format yields: nothing if the
/// bytes are not a valid image in that format, otherwise the width, height
/// and RGBA data of the decoded image. A pure function of its arguments.
pub uninterp spec fn decoded_rgba(bytes: Seq<u8>, format: TextureFormat) -> Option<
    (u32, u32, Seq<u8>),
>;

/// Relies on image::load_from_memory_with_format and
/// DynamicImage::to_rgba8: whether the bytes decode in the given format, and
/// the dimensions and RGBA data when they do, depend on the bytes and the
/// format alone; an RGBA buffer holds exactly four bytes per pixel.
#[verifier::external_body]
fn decode_rgba_bytes(bytes: &[u8], format: TextureFormat) -> (r: Result<(u32, u32, Vec<u8>), String>)
    ensures
        r is Ok <==> decoded_rgba(bytes@, format) is Some,
        r matches Ok(t) ==> decoded_rgba(bytes@, format) == Some((t.0, t.1, t.2@)),
        r matches Ok(t) ==> t.2@.len() == 4 * (t.0 as int) * (t.1 as int),
{
    match image::load_from_memory_with_format(bytes, to_image_format(format)) {
        Ok(img) => {
            let rgba = img.to_rgba8();
            let (w, h) = rgba.dimensions();
            Ok((w, h, rgba.into_raw()))
        },
        Err(e) => Err(format!("{}", e)),
    }
}

/// Everything a load can fail with, by origin: the disk read, the image
/// decode, allocating device memory for the image, device memory exhausted
/// while submitting, or a device-level contract violation (a lost device).
/// Only the last is unrecoverable; all others are caller-actionable.
#[derive(Clone, Debug, PartialEq, Eq)]
pub enum TextureError {
    IoError(String),
    ImageError(String),
    DeviceMemoryAllocError,
    OomError,
    DeviceFatalError,
}

/// A decoded image as the compute stage hands it to the device upload:
/// dimensions plus tightly packed RGBA data, four bytes per pixel.
pub struct DecodedImage {
    pub width: u32,
    pub height: u32,
    pub data: Vec<u8>,
}

impl DecodedImage {
    pub open spec fn wf(&self) -> bool {
        self.data@.len() == 4 * (self.width as int) * (self.height as int)
    }
}

/// The decode step of the compute stage: succeeds exactly when the bytes
/// are a valid image in the given format, and then yields that image's
/// dimensions and RGBA data; anything else is a decode error.
pub fn decode_stage(bytes: &Vec<u8>, format: TextureFormat) -> (r: Result<DecodedImage, TextureError>)
    ensures
        r is Ok <==> decoded_rgba(bytes@, format) is Some,
        r matches Ok(img) ==> decoded_rgba(bytes@, format) == Some(
            (img.width, img.height, img.data@),
        ) && img.wf(),
        r matches Err(e) ==> e is ImageError,
{
    match decode_rgba_bytes(bytes.as_slice(), format) {
        Ok((w, h, data)) => Ok(DecodedImage { width: w, height: h, data }),
        Err(msg) => Err(TextureError::ImageError(msg)),
    }
}

/// Names an immutable device image the upload collaborator created, together
/// with its dimensions.
#[derive(Clone, Copy, PartialEq, Eq, Structural, Debug)]
pub struct GpuImageHandle {
    pub id: u64,
    pub width: u32,
    pub height: u32,
}

/// What one bounded wait on a device fence reported.
#[derive(Clone, Copy, PartialEq, Eq, Structural, Debug)]
pub enum FenceStatus {
    Signaled,
    Timeout,
    Lost,
}

/// Where a completion signal stands.
#[derive(Clone, Copy, PartialEq, Eq, Structural, Debug)]
pub enum FenceState {
    NotSignaled,
    Signaled,
    DeviceLost,
}

/// What a wait step tells the poller: the device work is complete, still
/// running (wait again later), or the device is gone.
#[derive(Clone, Copy, PartialEq, Eq, Structural, Debug)]
pub enum WaitStep {
    Complete,
    StillRunning,
    Fatal,
}

/// Wraps a device fence: the completion signal of a submitted upload. Waits
/// are bounded; a timeout is not an error but the cue to wait again on the
/// very same fence, so nothing is ever submitted twice. Once the signal is
/// satisfied or the device is lost, further waits change nothing.
pub struct GpuSyncFuture {
    fence_id: u64,
    state: FenceState,
}

impl GpuSyncFuture {
    /// The fence this future waits on; fixed for the future's whole life.
    pub closed spec fn fence_id(&self) -> u64 {
        self.fence_id
    }

    pub closed spec fn state(&self) -> FenceState {
        self.state
    }

    pub fn new(fence_id: u64) -> (f: Self)
        ensures
            f.fence_id() == fence_id,
            f.state() is NotSignaled,
    {
        GpuSyncFuture { fence_id, state: FenceState::NotSignaled }
    }

    /// The fence to hand to the device for each bounded wait.
    pub fn id(&self) -> (id: u64)
        ensures
            id == self.fence_id(),
    {
        self.fence_id
    }

    /// Feeds in the outcome of one bounded wait on the fence. A timeout
    /// leaves the future exactly as it was; a terminal future ignores the
    /// outcome and reports its standing answer.
    pub fn on_wait(&mut self, status: FenceStatus) -> (r: WaitStep)
        ensures
            final(self).fence_id() == old(self).fence_id(),
            old(self).state() is NotSignaled && status is Signaled ==> final(self).state()
                is Signaled && r is Complete,
            old(self).state() is NotSignaled && status is Timeout ==> *final(self) == *old(self)
                && r is StillRunning,
            old(self).state() is NotSignaled && status is Lost ==> final(self).state()
                is DeviceLost && r is Fatal,
            old(self).state() is Signaled ==> *final(self) == *old(self) && r is Complete,
            old(self).state() is DeviceLost ==> *final(self) == *old(self) && r is Fatal,
    {
        match self.state {
            FenceState::NotSignaled => match status {
                FenceStatus::Signaled => {
                    self.state = FenceState::Signaled;
                    WaitStep::Complete
                },
                FenceStatus::Timeout => WaitStep::StillRunning,
                FenceStatus::Lost => {
                    self.state = FenceState::DeviceLost;
                    WaitStep::Fatal
                },
            },
            FenceState::Signaled => WaitStep::Complete,
            FenceState::DeviceLost => WaitStep::Fatal,
        }
    }
}

/// What the compute stage yields on success: the created device image and
/// the completion signal of its upload.
pub struct SpriteGpuData {
    pub image: GpuImageHandle,
    pub future: GpuSyncFuture,
}

/// How the device upload of a decoded image ended: the created image and
/// its fence, or a distinguishable allocation failure. The upload
/// collaborator promises nothing more.
pub enum UploadOutcome {
    Uploaded { image_id: u64, fence_id: u64 },
    AllocError,
    OomError,
}

/// Completes the compute stage after the device upload attempt: on success
/// the stage yields the device image, carrying the decoded dimensions
/// unchanged, paired with a fresh completion signal on the reported fence;
/// each allocation failure keeps its own error kind.
pub fn finish_cpu_stage(decoded: &DecodedImage, outcome: UploadOutcome) -> (r: Result<
    SpriteGpuData,
    TextureError,
>)
    ensures
        outcome matches UploadOutcome::Uploaded { image_id, fence_id } ==> r matches Ok(d)
            && d.image.id == image_id && d.image.width == decoded.width && d.image.height
            == decoded.height && d.future.fence_id() == fence_id && d.future.state()
            is NotSignaled,
        outcome is AllocError ==> r == Err::<SpriteGpuData, TextureError>(
            TextureError::DeviceMemoryAllocError,
        ),
        outcome is OomError ==> r == Err::<SpriteGpuData, TextureError>(TextureError::OomError),
{
    match outcome {
        UploadOutcome::Uploaded { image_id, fence_id } => Ok(
            SpriteGpuData {
                image: GpuImageHandle { id: image_id, width: decoded.width, height: decoded.height },
                future: GpuSyncFuture::new(fence_id),
            },
        ),
        UploadOutcome::AllocError => Err(TextureError::DeviceMemoryAllocError),
        UploadOutcome::OomError => Err(TextureError::OomError),
    }
}

/// A finished texture: the device image the load produced.
#[derive(Clone, Copy, PartialEq, Eq, Structural, Debug)]
pub struct Texture {
    pub image: GpuImageHandle,
}

impl Texture {
    pub fn image(&self) -> (img: GpuImageHandle)
        ensures
            img == self.image,
    {
        self.image
    }

    pub fn width(&self) -> (w: u32)
        ensures
            w == self.image.width,
    {
        self.image.width
    }

    pub fn height(&self) -> (h: u32)
        ensures
            h == self.image.height,
    {
        self.image.height
    }
}

/// The stage a texture load is in. Exactly one is active per load, and a
/// load moves through them strictly forward: disk read, compute, device
/// wait, then one of the two terminal states.
pub enum SpriteState {
    LoadingDisk,
    LoadingCpu,
    LoadingGpu(SpriteGpuData),
    Ready(Texture),
    Failed(TextureError),
}

/// The outcome of probing the stage a load is waiting on: the disk read,
/// the compute task, or one bounded fence wait.
pub enum StageEvent {
    Disk(StagePoll<Vec<u8>, String>),
    Cpu(StagePoll<SpriteGpuData, TextureError>),
    Fence(FenceStatus),
}

/// What one poll tells the caller: keep waiting; dispatch these bytes onto
/// the compute pool and keep polling; re-arm and wait on the same fence
/// again; or the terminal answer.
pub enum PollStep {
    Pending,
    DispatchCpu(Vec<u8>),
    Repoll,
    Ready(Texture),
    Failed,
}

/// Whether the probe outcome fed to a poll belongs to the stage the load is
/// actually in. A terminal load accepts any poll and ignores it.
pub open spec fn event_matches(s: SpriteState, ev: StageEvent) -> bool {
    match s {
        SpriteState::LoadingDisk => ev is Disk,
        SpriteState::LoadingCpu => ev is Cpu,
        SpriteState::LoadingGpu(_) => ev is Fence,
        SpriteState::Ready(_) => true,
        SpriteState::Failed(_) => true,
    }
}

/// The pipeline's transition function: the state a load in state `s` moves
/// to when its active stage reports `ev`. Terminal states never move; a
/// timed-out fence wait keeps the GPU stage, and its submission, exactly as
/// they were.
pub open spec fn step_state(s: SpriteState, ev: StageEvent) -> SpriteState {
    match (s, ev) {
        (SpriteState::LoadingDisk, StageEvent::Disk(p)) => match p {
            StagePoll::Pending => SpriteState::LoadingDisk,
            StagePoll::Done(Ok(_)) => SpriteState::LoadingCpu,
            StagePoll::Done(Err(msg)) => SpriteState::Failed(TextureError::IoError(msg)),
        },
        (SpriteState::LoadingCpu, StageEvent::Cpu(p)) => match p {
            StagePoll::Pending => SpriteState::LoadingCpu,
            StagePoll::Done(Ok(data)) => SpriteState::LoadingGpu(data),
            StagePoll::Done(Err(e)) => SpriteState::Failed(e),
        },
        (SpriteState::LoadingGpu(d), StageEvent::Fence(status)) => match status {
            FenceStatus::Signaled => SpriteState::Ready(Texture { image: d.image }),
            FenceStatus::Timeout => SpriteState::LoadingGpu(d),
            FenceStatus::Lost => SpriteState::Failed(TextureError::DeviceFatalError),
        },
        (s, _) => s,
    }
}

/// What the poll that fed `ev` to a load in state `s` reports back.
pub open spec fn step_output(s: SpriteState, ev: StageEvent) -> PollStep {
    match (s, ev) {
        (SpriteState::Ready(t), _) => PollStep::Ready(t),
        (SpriteState::Failed(_), _) => PollStep::Failed,
        (SpriteState::LoadingDisk, StageEvent::Disk(p)) => match p {
            StagePoll::Pending => PollStep::Pending,
            StagePoll::Done(Ok(bytes)) => PollStep::DispatchCpu(bytes),
            StagePoll::Done(Err(_)) => PollStep::Failed,
        },
        (SpriteState::LoadingCpu, StageEvent::Cpu(p)) => match p {
            StagePoll::Pending => PollStep::Pending,
            StagePoll::Done(Ok(_)) => PollStep::Pending,
            StagePoll::Done(Err(_)) => PollStep::Failed,
        },
        (SpriteState::LoadingGpu(d), StageEvent::Fence(status)) => match status {
            FenceStatus::Signaled => PollStep::Ready(Texture { image: d.image }),
            FenceStatus::Timeout => PollStep::Repoll,
            FenceStatus::Lost => PollStep::Failed,
        },
        (_, _) => PollStep::Pending,
    }
}

/// A pending texture load: the pollable handle a load request returns. The
/// caller polls it each scheduling opportunity, handing in the outcome of
/// probing whichever stage is running.
pub struct TextureFuture {
    state: SpriteState,
}

impl View for TextureFuture {
    type V = SpriteState;

    closed spec fn view(&self) -> SpriteState {
        self.state
    }
}

impl TextureFuture {
    /// A fresh load: the disk read has been dispatched and is awaited.
    pub fn new() -> (f: Self)
        ensures
            f@ is LoadingDisk,
    {
        TextureFuture { state: SpriteState::LoadingDisk }
    }

    pub fn state(&self) -> (s: &SpriteState)
        ensures
            *s == self@,
    {
        &self.state
    }

    pub fn is_terminal(&self) -> (r: bool)
        ensures
            r == (self@ is Ready || self@ is Failed),
    {
        match self.state {
            SpriteState::Ready(_) => true,
            SpriteState::Failed(_) => true,
            _ => false,
        }
    }

    /// Drives the load one step: applies the pipeline's transition function
    /// to the probe outcome of the active stage and reports what to do next.
    pub fn poll(&mut self, ev: StageEvent) -> (step: PollStep)
        requires
            event_matches(old(self)@, ev),
        ensures
            final(self)@ == step_state(old(self)@, ev),
            step == step_output(old(self)@, ev),
    {
        let mut cur = SpriteState::LoadingDisk;
        core::mem::swap(&mut self.state, &mut cur);
        match (cur, ev) {
            (SpriteState::Ready(t), _) => {
                self.state = SpriteState::Ready(t);
                PollStep::Ready(t)
            },
            (SpriteState::Failed(e), _) => {
                self.state = SpriteState::Failed(e);
                PollStep::Failed
            },
            (SpriteState::LoadingDisk, StageEvent::Disk(p)) => match p {
                StagePoll::Pending => {
                    self.state = SpriteState::LoadingDisk;
                    PollStep::Pending
                },
                StagePoll::Done(Ok(bytes)) => {
                    self.state = SpriteState::LoadingCpu;
                    PollStep::DispatchCpu(bytes)
                },
                StagePoll::Done(Err(msg)) => {
                    self.state = SpriteState::Failed(TextureError::IoError(msg));
                    PollStep::Failed
                },
            },
            (SpriteState::LoadingCpu, StageEvent::Cpu(p)) => match p {
                StagePoll::Pending => {
                    self.state = SpriteState::LoadingCpu;
                    PollStep::Pending
                },
                StagePoll::Done(Ok(data)) => {
                    self.state = SpriteState::LoadingGpu(data);
                    PollStep::Pending
                },
                StagePoll::Done(Err(e)) => {
                    self.state = SpriteState::Failed(e);
                    PollStep::Failed
                },
            },
            (SpriteState::LoadingGpu(d), StageEvent::Fence(status)) => match status {
                FenceStatus::Signaled => {
                    let t = Texture { image: d.image };
                    self.state = SpriteState::Ready(t);
                    PollStep::Ready(t)
                },
                FenceStatus::Timeout => {
                    self.state = SpriteState::LoadingGpu(d);
                    PollStep::Repoll
                },
                FenceStatus::Lost => {
                    self.state = SpriteState::Failed(TextureError::DeviceFatalError);
                    PollStep::Failed
                },
            },
            (_, _) => unreached(),
        }
    }
}

/// Where each stage stands in the pipeline's strict forward order.
pub open spec fn stage_rank(s: SpriteState) -> int {
    match s {
        SpriteState::LoadingDisk => 0,
        SpriteState::LoadingCpu => 1,
        SpriteState::LoadingGpu(_) => 2,
        SpriteState::Ready(_) => 3,
        SpriteState::Failed(_) => 3,
    }
}

/// Law: the pipeline only moves forward. A load becomes Ready only when its
/// GPU stage sees a signaled fence — so the resource is produced exactly
/// once — and the GPU stage fails only when the device itself is lost.
pub proof fn lemma_pipeline_monotone(s: SpriteState, ev: StageEvent)
    requires
        event_matches(s, ev),
    ensures
        stage_rank(step_state(s, ev)) >= stage_rank(s),
        step_state(s, ev) is Ready && !(s is Ready) ==> s is LoadingGpu && ev == StageEvent::Fence(
            FenceStatus::Signaled,
        ),
        s is LoadingGpu && step_state(s, ev) is Failed ==> ev == StageEvent::Fence(
            FenceStatus::Lost,
        ) && step_state(s, ev) == SpriteState::Failed(TextureError::DeviceFatalError),
{
}

/// Law: a failed disk read fails the whole load at once, classified as its
/// I/O error; the compute stage is never entered for that load.
pub proof fn lemma_disk_error_short_circuits(msg: String)
    ensures
        step_state(SpriteState::LoadingDisk, StageEvent::Disk(StagePoll::Done(Err(msg))))
            == SpriteState::Failed(TextureError::IoError(msg)),
        step_output(SpriteState::LoadingDisk, StageEvent::Disk(StagePoll::Done(Err(msg))))
            == PollStep::Failed,
{
}

/// Law: polling a terminal load changes nothing and re-runs no stage; it
/// only reports the standing answer again.
pub proof fn lemma_terminal_poll_is_noop(s: SpriteState, ev: StageEvent)
    requires
        s is Ready || s is Failed,
    ensures
        step_state(s, ev) == s,
        s matches SpriteState::Ready(t) ==> step_output(s, ev) == PollStep::Ready(t),
        s is Failed ==> step_output(s, ev) == PollStep::Failed,
{
}

/// Law: a timed-out fence wait re-arms the very same wait. The GPU stage
/// keeps its device image and its fence untouched — nothing is uploaded or
/// submitted again — and the poll asks to try the wait later.
pub proof fn lemma_timeout_retries_same_submission(s: SpriteState)
    requires
        s is LoadingGpu,
    ensures
        step_state(s, StageEvent::Fence(FenceStatus::Timeout)) == s,
        step_output(s, StageEvent::Fence(FenceStatus::Timeout)) == PollStep::Repoll,
{
}

/// The state a load reaches from `s` after a whole sequence of probe
/// outcomes, applied in order.
pub open spec fn run(s: SpriteState, evs: Seq<StageEvent>) -> SpriteState
    decreases evs.len(),
{
    if evs.len() == 0 {
        s
    } else {
        run(step_state(s, evs[0]), evs.drop_first())
    }
}

/// Law: a terminal load stays exactly where it is under every further
/// sequence of events. A Ready load's resource handle is therefore produced
/// once and never rebuilt, and a Failed load's error never changes.
pub proof fn lemma_terminal_stays(s: SpriteState, evs: Seq<StageEvent>)
    requires
        s is Ready || s is Failed,
    ensures
        run(s, evs) == s,
    decreases evs.len(),
{
    if evs.len() > 0 {
        lemma_terminal_stays(s, evs.drop_first());
    }
}

/// Law: no state is ever revisited. Over any sequence of events a load only
/// moves forward through the stage order, whatever each probe reports.
pub proof fn lemma_run_monotone(s: SpriteState, evs: Seq<StageEvent>)
    ensures
        stage_rank(run(s, evs)) >= stage_rank(s),
    decreases evs.len(),
{
    if evs.len() > 0 {
        lemma_run_monotone(step_state(s, evs[0]), evs.drop_first());
    }
}

} // verus!
