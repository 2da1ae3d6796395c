//! The loop that captures frames: what to do after each reading, what to send for a
//! sample, and how the frames are numbered.
use vstd::prelude::*;
use vstd::slice::slice_to_vec;

use crate::clock;
use crate::frame;
use crate::frame::{encode_rgb32_to_jpeg, EncodeError, JpegFrame};
use crate::native_format::ChosenFormat;

verus! {

/// The quality with which RGB32 samples are encoded.
pub const JPEG_QUALITY: u8 = 80;

/// How long to pause after a failed reading.
pub const READ_PAUSE_MILLIS: u64 = 50;

/// The flag of a reading that says that the stream has ended.
pub const END_OF_STREAM: u32 = 2;

/// What the capture loop does next.
#[derive(Clone, Copy, Debug, PartialEq, Eq, Structural)]
pub enum CaptureAction {
    /// Look whether the capture was stopped.
    CheckStop,
    /// Read a sample.
    Read,
    /// Pause.
    Pause { millis: u64 },
    /// Take the bytes out of the sample, and make a frame of them.
    Extract,
    /// Leave the loop.
    Finish,
}

/// What the capture loop has just seen.
#[derive(Clone, Copy, Debug, PartialEq, Eq, Structural)]
pub enum CaptureEvent {
    /// Whether the capture was stopped.
    Checked { stop: bool },
    /// The reading failed.
    ReadFailed,
    /// The reading came back with these flags, and with a sample or without.
    Read { flags: u32, has_sample: bool },
    /// The pause is over.
    Paused,
    /// The bytes could not be taken out of the sample.
    ExtractFailed,
    /// The bytes were made into a frame, or could not be.
    Handled,
}

/// Whether the flags of a reading say that the stream has ended: bit one is set.
pub open spec fn stream_ended(flags: u32) -> bool {
    (flags / END_OF_STREAM) % 2 == 1
}

/// What the capture loop does after an event.
pub open spec fn action_after(event: CaptureEvent) -> CaptureAction {
    match event {
        CaptureEvent::Checked { stop } => if stop {
            CaptureAction::Finish
        } else {
            CaptureAction::Read
        },
        CaptureEvent::ReadFailed => CaptureAction::Pause { millis: READ_PAUSE_MILLIS },
        CaptureEvent::Read { flags, has_sample } => if stream_ended(flags) {
            CaptureAction::Finish
        } else if has_sample {
            CaptureAction::Extract
        } else {
            CaptureAction::CheckStop
        },
        CaptureEvent::Paused | CaptureEvent::ExtractFailed | CaptureEvent::Handled =>
            CaptureAction::CheckStop,
    }
}

/// The capture loop: what to do after an event. It begins with
/// `CaptureAction::CheckStop`.
pub fn capture_loop(event: CaptureEvent) -> (r: CaptureAction)
    ensures
        r == action_after(event),
{
    match event {
        CaptureEvent::Checked { stop } => {
            if stop {
                CaptureAction::Finish
            } else {
                CaptureAction::Read
            }
        },
        CaptureEvent::ReadFailed => CaptureAction::Pause { millis: READ_PAUSE_MILLIS },
        CaptureEvent::Read { flags, has_sample } => {
            assert((flags & 2 != 0) == ((flags / 2) % 2 == 1)) by (bit_vector);
            if flags & END_OF_STREAM != 0 {
                CaptureAction::Finish
            } else if has_sample {
                CaptureAction::Extract
            } else {
                CaptureAction::CheckStop
            }
        },
        CaptureEvent::Paused => CaptureAction::CheckStop,
        CaptureEvent::ExtractFailed => CaptureAction::CheckStop,
        CaptureEvent::Handled => CaptureAction::CheckStop,
    }
}

/// The state of a capture: its format and the number of its next frame.
#[derive(Clone, Copy, Debug, PartialEq, Eq, Structural)]
pub struct SourceState {
    pub format: ChosenFormat,
    pub next_seq: u64,
}

/// The frames of one capture.
#[derive(Clone, Copy, Debug, PartialEq, Eq, Structural)]
pub struct FrameSource {
    state: SourceState,
}

impl View for FrameSource {
    type V = SourceState;

    closed spec fn view(&self) -> SourceState {
        self.state
    }
}

/// A frame that is ready to go out, and the time to store as that of the last frame.
pub struct Published {
    pub frame: JpegFrame,
    pub last_frame_time: i64,
}

/// A step of letting a frame go out.
pub enum PublishStep {
    /// Store the time of the last frame.
    StoreTime { millis: i64 },
    /// Send the frame to the viewers.
    Send { frame: JpegFrame },
}

impl Published {
    /// The steps of letting the frame go out: its time is stored, then it is sent.
    pub open spec fn in_order(self) -> Seq<PublishStep> {
        seq![
            PublishStep::StoreTime { millis: self.last_frame_time },
            PublishStep::Send { frame: self.frame },
        ]
    }

    /// The steps of letting the frame go out, one after the other.
    pub fn steps(self) -> (r: Vec<PublishStep>)
        ensures
            r@ == self.in_order(),
    {
        let mut steps: Vec<PublishStep> = Vec::new();
        steps.push(PublishStep::StoreTime { millis: self.last_frame_time });
        steps.push(PublishStep::Send { frame: self.frame });
        assert(steps@ =~= self.in_order());
        steps
    }
}

/// Whether a sample of this format with `len` bytes can be made into a frame.
pub open spec fn sample_is_whole(format: ChosenFormat, len: nat) -> bool {
    format.is_mjpg || frame::sample_fits(len, format.width, format.height)
}

/// The JPEG image that is sent for a sample: an MJPG sample as it is, an RGB32 sample
/// encoded.
pub open spec fn image_of(format: ChosenFormat, data: Seq<u8>) -> Result<Seq<u8>, EncodeError> {
    if format.is_mjpg {
        Ok(data)
    } else if frame::is_jpeg_size(format.width, format.height) {
        Ok(frame::jpeg_of(frame::rgb_of(data), format.width, format.height, JPEG_QUALITY))
    } else {
        Err(EncodeError::InvalidSize { width: format.width, height: format.height })
    }
}

/// The number after `seq`; after the largest comes zero.
pub open spec fn seq_after(seq: u64) -> u64 {
    if seq == u64::MAX {
        0
    } else {
        (seq + 1) as u64
    }
}

/// The number after `seq`; after the largest comes zero.
pub fn next_number(seq: u64) -> (r: u64)
    ensures
        r == seq_after(seq),
{
    if seq == u64::MAX {
        0
    } else {
        seq + 1
    }
}

/// Whether publishing the image `jpeg` gives `frame` and leaves the source as `after`.
pub open spec fn publishes(
    before: SourceState,
    jpeg: Seq<u8>,
    frame: JpegFrame,
    after: SourceState,
) -> bool {
    &&& frame.image() == jpeg
    &&& frame.seq == before.next_seq
    &&& after.format == before.format
    &&& after.next_seq == seq_after(before.next_seq)
}

/// Whether handling `image` lets out what is published, and leaves the source as `after`: a
/// frame with its time if the image was made, and nothing otherwise.
pub open spec fn handles(
    before: SourceState,
    image: Result<Vec<u8>, EncodeError>,
    since_epoch: Option<u128>,
    published: Option<Published>,
    after: SourceState,
) -> bool {
    match (image, published) {
        (Ok(jpeg), Some(out)) => {
            &&& publishes(before, jpeg@, out.frame, after)
            &&& out.last_frame_time == clock::wall_millis(since_epoch)
        },
        (Err(_), None) => after == before,
        _ => false,
    }
}

impl FrameSource {
    /// A capture in the given format, before its first frame.
    pub fn new(format: ChosenFormat) -> (r: Self)
        ensures
            r@ == (SourceState { format, next_seq: 0 }),
    {
        FrameSource { state: SourceState { format, next_seq: 0 } }
    }

    /// Where the capture stands.
    pub fn state(&self) -> (r: SourceState)
        ensures
            r == self@,
    {
        self.state
    }

    /// Whether a sample with `len` bytes can be made into a frame.
    pub fn accepts(&self, len: usize) -> (r: bool)
        ensures
            r == sample_is_whole(self@.format, len as nat),
    {
        let format: ChosenFormat = self.state.format;
        format.is_mjpg || frame::check_sample(len, format.width, format.height)
    }

    /// The JPEG image that is sent for a sample.
    pub fn image(&self, data: &[u8]) -> (r: Result<Vec<u8>, EncodeError>)
        requires
            sample_is_whole(self@.format, data@.len()),
        ensures
            match (r, image_of(self@.format, data@)) {
                (Ok(jpeg), Ok(expected)) => jpeg@ == expected,
                (Err(e), Err(expected)) => e == expected,
                _ => false,
            },
    {
        let format: ChosenFormat = self.state.format;
        if format.is_mjpg {
            Ok(slice_to_vec(data))
        } else {
            encode_rgb32_to_jpeg(data, format.width, format.height, JPEG_QUALITY)
        }
    }

    /// Makes the next frame of a JPEG image. `since_epoch` is the time in milliseconds
    /// since the epoch, or `None` if the clock stands before it.
    pub fn publish(&mut self, jpeg: Vec<u8>, since_epoch: Option<u128>) -> (r: Published)
        ensures
            publishes(old(self)@, jpeg@, r.frame, final(self)@),
            r.last_frame_time == clock::wall_millis(since_epoch),
    {
        let seq: u64 = self.state.next_seq;
        self.state.next_seq = next_number(seq);
        Published {
            frame: JpegFrame::new(jpeg, seq),
            last_frame_time: clock::unix_millis(since_epoch),
        }
    }
    /// Takes in what came of making an image of a sample. An image becomes the next frame;
    /// without one there is nothing to let out. `since_epoch` is the time as in `publish`.
    pub fn handle(
        &mut self,
        image: Result<Vec<u8>, EncodeError>,
        since_epoch: Option<u128>,
    ) -> (r: Option<Published>)
        ensures
            handles(old(self)@, image, since_epoch, r, final(self)@),
    {
        match image {
            Ok(jpeg) => Some(self.publish(jpeg, since_epoch)),
            Err(_) => None,
        }
    }
}

/// Once the stop flag stays set, the loop reads no further sample, whatever else happens.
pub proof fn stopped_capture_reads_no_more(events: Seq<CaptureEvent>, from: int, k: int)
    requires
        0 <= from <= k < events.len(),
        forall|j: int|
            from <= j < events.len() ==> (#[trigger] events[j] matches CaptureEvent::Checked {
                stop,
            } ==> stop),
    ensures
        !(action_after(events[k]) is Read),
        events[k] is Checked ==> action_after(events[k]) is Finish,
{
}

/// The loop looks at the stop flag before every reading: no other event leads to one.
pub proof fn stop_is_checked_before_reading(event: CaptureEvent)
    requires
        action_after(event) is Read,
    ensures
        event == (CaptureEvent::Checked { stop: false }),
{
}

/// A frame is made only of a sample that came with a reading, and never once the stream has
/// ended.
pub proof fn only_samples_become_frames(event: CaptureEvent)
    requires
        action_after(event) is Extract,
    ensures
        event matches CaptureEvent::Read { flags, has_sample } && has_sample && !stream_ended(flags),
{
}

/// The steps by which a round of the loop lets out what it has published, if anything.
pub open spec fn steps_of(published: Option<Published>) -> Seq<PublishStep> {
    match published {
        Some(out) => out.in_order(),
        None => Seq::empty(),
    }
}

/// The time of the last frame after some steps were carried out.
pub open spec fn time_after(last: i64, steps: Seq<PublishStep>) -> i64
    decreases steps.len(),
{
    if steps.len() == 0 {
        last
    } else {
        match steps.last() {
            PublishStep::StoreTime { millis } => millis,
            PublishStep::Send { .. } => time_after(last, steps.drop_last()),
        }
    }
}

/// The frames that were sent in the course of some steps.
pub open spec fn frames_out(steps: Seq<PublishStep>) -> Seq<JpegFrame>
    decreases steps.len(),
{
    if steps.len() == 0 {
        Seq::empty()
    } else {
        match steps.last() {
            PublishStep::StoreTime { .. } => frames_out(steps.drop_last()),
            PublishStep::Send { frame } => frames_out(steps.drop_last()).push(frame),
        }
    }
}

/// Whether a round of the loop goes like this: a reading, then, if the loop asks for it and
/// the bytes can be taken out of the sample, an image made of them or the failure to make
/// one, and what the capture publishes of it.
pub open spec fn is_round(
    before: SourceState,
    read: CaptureEvent,
    image: Option<Result<Vec<u8>, EncodeError>>,
    since_epoch: Option<u128>,
    published: Option<Published>,
    after: SourceState,
) -> bool {
    &&& read is ReadFailed || read is Read
    &&& match image {
        Some(made) => action_after(read) is Extract && handles(
            before,
            made,
            since_epoch,
            published,
            after,
        ),
        None => published is None && after == before,
    }
}

/// In one round the time of the last frame is stored if and only if a frame is sent, which is
/// if and only if an image was made; it is then the time of the round, and it is stored
/// before the frame is sent. After a failed reading, a missing sample, bytes that could not
/// be taken out or a failed encoding the time keeps its value.
pub proof fn time_is_stored_with_each_frame(
    before: SourceState,
    read: CaptureEvent,
    image: Option<Result<Vec<u8>, EncodeError>>,
    since_epoch: Option<u128>,
    published: Option<Published>,
    after: SourceState,
    last: i64,
    done: int,
)
    requires
        is_round(before, read, image, since_epoch, published, after),
        0 <= done <= steps_of(published).len(),
    ensures
        match image {
            Some(Ok(jpeg)) => {
                &&& time_after(last, steps_of(published)) == clock::wall_millis(since_epoch)
                &&& frames_out(steps_of(published)).len() == 1
                &&& publishes(before, jpeg@, frames_out(steps_of(published))[0], after)
                &&& frames_out(steps_of(published).take(done)).len() > 0 ==> time_after(
                    last,
                    steps_of(published).take(done),
                ) == clock::wall_millis(since_epoch)
            },
            _ => {
                &&& steps_of(published).len() == 0
                &&& time_after(last, steps_of(published)) == last
                &&& frames_out(steps_of(published)).len() == 0
                &&& after == before
            },
        },
{
    reveal_with_fuel(time_after, 3);
    reveal_with_fuel(frames_out, 3);
    if let Some(out) = published {
        let steps = steps_of(published);
        if done == 2 {
            assert(steps.take(done) =~= steps);
        }
        assert(steps.drop_last() =~= seq![PublishStep::StoreTime { millis: out.last_frame_time }]);
        assert(frames_out(steps.drop_last()) =~= Seq::<JpegFrame>::empty());
        assert(frames_out(steps) =~= seq![out.frame]);
    }
}

/// The loop ends only when the capture was stopped or the stream has ended. After a failed
/// reading, a missing sample, bytes that could not be taken out, and an image that was made
/// or not, it goes on to the next round.
pub proof fn failures_do_not_end_the_loop(event: CaptureEvent)
    ensures
        action_after(event) is Finish <==> (event == (CaptureEvent::Checked { stop: true }) || (
        event matches CaptureEvent::Read { flags, .. } && stream_ended(flags))),
        event is ReadFailed ==> action_after(event) is Pause,
        event is Paused || event is ExtractFailed || event is Handled ==> action_after(event)
            is CheckStop,
        event matches CaptureEvent::Read { flags, has_sample } && !stream_ended(flags)
            && !has_sample ==> action_after(event) is CheckStop,
{
}

/// A device's MJPG samples reach the viewers unchanged: the image of the frame made from
/// one is the sample.
pub proof fn mjpg_passes_through(
    before: SourceState,
    data: Seq<u8>,
    frame: JpegFrame,
    after: SourceState,
)
    requires
        before.format.is_mjpg,
        publishes(before, image_of(before.format, data)->Ok_0, frame, after),
    ensures
        frame.image() == data,
{
}

/// The frames of a capture are numbered in the order in which they are published, one
/// after the other and starting over only after the largest number.
pub proof fn frames_are_numbered_in_order(
    sources: Seq<SourceState>,
    images: Seq<Seq<u8>>,
    frames: Seq<JpegFrame>,
    i: int,
)
    requires
        sources.len() == frames.len() + 1,
        images.len() == frames.len(),
        forall|k: int|
            0 <= k < frames.len() ==> publishes(
                sources[k],
                images[k],
                #[trigger] frames[k],
                sources[k + 1],
            ),
        0 <= i < frames.len(),
    ensures
        frames[i].seq == (sources[0].next_seq + i) % (u64::MAX + 1),
        frames[i].image() == images[i],
{
    lemma_next_seq(sources, images, frames, i);
    assert(publishes(sources[i], images[i], frames[i], sources[i + 1]));
}

/// The next number of a capture after `i` frames.
proof fn lemma_next_seq(
    sources: Seq<SourceState>,
    images: Seq<Seq<u8>>,
    frames: Seq<JpegFrame>,
    i: int,
)
    requires
        sources.len() == frames.len() + 1,
        images.len() == frames.len(),
        forall|k: int|
            0 <= k < frames.len() ==> publishes(
                sources[k],
                images[k],
                #[trigger] frames[k],
                sources[k + 1],
            ),
        0 <= i <= frames.len(),
    ensures
        sources[i].next_seq == (sources[0].next_seq + i) % (u64::MAX + 1),
    decreases i,
{
    if i > 0 {
        lemma_next_seq(sources, images, frames, i - 1);
        assert(publishes(sources[i - 1], images[i - 1], frames[i - 1], sources[i]));
    }
}

/// What is sent for a sample: of an MJPG capture the sample itself, of an RGB32 capture its
/// pixels encoded as a JPEG image of the captured size with quality 80. There is no image only
/// for an RGB32 capture in a size that JPEG does not have.
pub proof fn samples_become_images(
    source: FrameSource,
    data: &[u8],
    r: Result<Vec<u8>, EncodeError>,
)
    requires
        sample_is_whole(source@.format, data@.len()),
        call_ensures(FrameSource::image, (&source, data), r),
    ensures
        ({
            let format = source@.format;
            let is_jpeg_size = 0 < format.width < 65536 && 0 < format.height < 65536;
            &&& format.is_mjpg ==> (r matches Ok(image) && image@ == data@)
            &&& !format.is_mjpg && is_jpeg_size ==> (r matches Ok(image) && image@
                == frame::jpeg_of(frame::rgb_of(data@), format.width, format.height, 80))
            &&& !format.is_mjpg && !is_jpeg_size ==> r == Err::<Vec<u8>, EncodeError>(
                EncodeError::InvalidSize { width: format.width, height: format.height },
            )
        }),
{
}

/// An MJPG capture takes any sample; an RGB32 capture takes those with as many whole pixels as
/// a frame has.
pub proof fn whole_samples_are_accepted(source: FrameSource, len: usize, r: bool)
    requires
        call_ensures(FrameSource::accepts, (&source, len), r),
    ensures
        source@.format.is_mjpg ==> r,
        !source@.format.is_mjpg ==> (r <==> len / 4 == source@.format.width * source@.format.height
            && source@.format.width * 3 <= usize::MAX),
        r <==> sample_is_whole(source@.format, len as nat),
{
}

/// A capture begins in its format, and its first frame has the number zero. The number after
/// another is one more, and after the largest it starts over.
pub proof fn numbers_begin_at_zero(
    format: ChosenFormat,
    source: FrameSource,
    seq: u64,
    next: u64,
)
    requires
        call_ensures(FrameSource::new, (format,), source),
        call_ensures(next_number, (seq,), next),
    ensures
        source@.format == format,
        source@.next_seq == 0,
        next == (seq + 1) % 0x1_0000_0000_0000_0000,
{
}

/// What the capture lets out: for an image, one frame that carries it under the capture's next
/// number, with the time at which that was; without an image nothing, and no number is used up.
/// Nothing changes the capture's format.
pub proof fn image_goes_out_under_the_next_number(
    source: &mut FrameSource,
    image: Result<Vec<u8>, EncodeError>,
    since_epoch: u128,
    r: Option<Published>,
)
    requires
        call_ensures(FrameSource::handle, (source, image, Some(since_epoch)), r),
        since_epoch <= i64::MAX,
    ensures
        image is Ok <==> r is Some,
        r matches Some(out) ==> out.frame.image() == image->Ok_0@ && out.frame.seq == old(
            source,
        )@.next_seq && out.last_frame_time == since_epoch,
        final(source)@.format == old(source)@.format,
        final(source)@.next_seq == if image is Ok {
            (old(source)@.next_seq + 1) % 0x1_0000_0000_0000_0000
        } else {
            old(source)@.next_seq as int
        },
{
}

/// A frame goes out in two steps: first its time is stored, then it is sent.
pub proof fn frame_goes_out_in_two_steps(out: Published, steps: Vec<PublishStep>)
    requires
        call_ensures(Published::steps, (out,), steps),
    ensures
        steps@.len() == 2,
        steps@[0] == (PublishStep::StoreTime { millis: out.last_frame_time }),
        steps@[1] == (PublishStep::Send { frame: out.frame }),
{
}

/// What the loop does next, and when: it reads exactly when it was not told to stop, takes the
/// bytes out exactly when a reading brought a sample and not the end of the stream, which is
/// bit one of the flags, ends exactly when it was told to stop or the stream has ended, pauses
/// exactly when a reading failed, for 50 ms, and otherwise looks whether it is to stop.
pub proof fn loop_goes_on_as_it_should(event: CaptureEvent, r: CaptureAction)
    requires
        call_ensures(capture_loop, (event,), r),
    ensures
        r is Read <==> event == (CaptureEvent::Checked { stop: false }),
        r is Extract <==> (event matches CaptureEvent::Read { flags, has_sample } && has_sample
            && flags & 2 == 0),
        r is Finish <==> event == (CaptureEvent::Checked { stop: true }) || (
        event matches CaptureEvent::Read { flags, .. } && flags & 2 != 0),
        r is Pause <==> event is ReadFailed,
        r matches CaptureAction::Pause { millis } ==> millis == 50,
        r == action_after(event),
{
    if let CaptureEvent::Read { flags, .. } = event {
        assert((flags & 2 != 0) == ((flags / 2) % 2 == 1)) by (bit_vector);
    }
}

} // verus!
