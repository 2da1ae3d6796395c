//! The camera as the rest of the service sees it: its connection status, the list of
//! devices, and the steps by which a device is opened.
use vstd::prelude::*;
use vstd::string::*;

use crate::native_format;
use crate::native_format::{choose_native_format, ChosenFormat, NativeChoice, NativeType};
use crate::text;

verus! {

/// Connection status of the camera.
#[derive(Clone, Copy, Debug, PartialEq, Eq, Structural)]
pub enum CameraStatus {
    Disconnected,
    Connecting,
    Streaming,
}

impl CameraStatus {
    /// The code by which the status is shared between threads.
    pub open spec fn code(self) -> u8 {
        match self {
            CameraStatus::Disconnected => 0,
            CameraStatus::Connecting => 1,
            CameraStatus::Streaming => 2,
        }
    }

    /// The status that a code stands for. A code that is no status stands for
    /// `Disconnected`.
    pub open spec fn of_code(v: u8) -> CameraStatus {
        if v == 1 {
            CameraStatus::Connecting
        } else if v == 2 {
            CameraStatus::Streaming
        } else {
            CameraStatus::Disconnected
        }
    }

    /// The name of the status in the health report.
    pub open spec fn name(self) -> Seq<char> {
        match self {
            CameraStatus::Disconnected => "disconnected"@,
            CameraStatus::Connecting => "connecting"@,
            CameraStatus::Streaming => "streaming"@,
        }
    }

    /// The status that a code stands for.
    pub fn from_u8(v: u8) -> (r: Self)
        ensures
            r == CameraStatus::of_code(v),
    {
        match v {
            1 => CameraStatus::Connecting,
            2 => CameraStatus::Streaming,
            _ => CameraStatus::Disconnected,
        }
    }

    /// The code of the status.
    pub fn to_u8(self) -> (r: u8)
        ensures
            r == self.code(),
    {
        match self {
            CameraStatus::Disconnected => 0,
            CameraStatus::Connecting => 1,
            CameraStatus::Streaming => 2,
        }
    }

    /// The name of the status in the health report.
    pub fn as_str(self) -> (r: &'static str)
        ensures
            r@ == self.name(),
    {
        match self {
            CameraStatus::Disconnected => "disconnected",
            CameraStatus::Connecting => "connecting",
            CameraStatus::Streaming => "streaming",
        }
    }
}

/// A status that is stored as its code is read back unchanged.
pub proof fn status_reads_back(s: CameraStatus)
    ensures
        CameraStatus::of_code(s.code()) == s,
{
}

/// The three statuses have three different names.
pub proof fn status_names_differ(a: CameraStatus, b: CameraStatus)
    requires
        a.name() == b.name(),
    ensures
        a == b,
{
    reveal_strlit("disconnected");
    reveal_strlit("connecting");
    reveal_strlit("streaming");
    assert("disconnected"@.len() == 12 && "connecting"@.len() == 10 && "streaming"@.len() == 9);
}

/// What the health endpoint answers.
#[derive(Clone, Copy, Debug)]
pub struct HealthReport {
    pub status: &'static str,
    pub camera: &'static str,
}

/// The health report for a shared status code. The service itself is always well; the
/// camera's part is the name of its status.
pub fn health(code: u8) -> (r: HealthReport)
    ensures
        r.status@ == "ok"@,
        r.camera@ == CameraStatus::of_code(code).name(),
{
    HealthReport { status: "ok", camera: CameraStatus::from_u8(code).as_str() }
}

/// One camera in the list of devices.
#[derive(Debug)]
pub struct CameraInfo {
    pub index: u32,
    pub name: String,
    pub description: String,
}

impl Clone for CameraInfo {
    fn clone(&self) -> (r: Self)
        ensures
            r == *self,
    {
        CameraInfo {
            index: self.index,
            name: self.name.clone(),
            description: self.description.clone(),
        }
    }
}

/// Whether `list` describes the devices whose names were found: each under its position,
/// with an empty name where the device gave none. A failed enumeration lists nothing.
pub open spec fn is_listing(found: Option<Vec<Option<String>>>, list: Seq<CameraInfo>) -> bool {
    match found {
        None => list.len() == 0,
        Some(names) => {
            &&& list.len() == names@.len()
            &&& forall|i: int|
                0 <= i < list.len() ==> {
                    &&& (#[trigger] list[i]).index == i as u32
                    &&& list[i].name@ == match names@[i] {
                        Some(name) => name@,
                        None => Seq::empty(),
                    }
                    &&& list[i].description@ == "Media Foundation"@
                }
        },
    }
}

/// Lists the cameras, given the friendly name of each enumerated device, or `None` if the
/// devices could not be enumerated.
pub fn list_cameras(found: Option<Vec<Option<String>>>) -> (r: Vec<CameraInfo>)
    ensures
        is_listing(found, r@),
{
    let mut out: Vec<CameraInfo> = Vec::new();
    let names: Vec<Option<String>> = match found {
        None => return out,
        Some(names) => names,
    };
    let mut i: usize = 0;
    while i < names.len()
        invariant
            found == Some(names),
            i <= names.len(),
            is_listing_upto(names@, out@, i as int),
        decreases names.len() - i,
    {
        let name: String = match &names[i] {
            Some(name) => name.clone(),
            None => String::new(),
        };
        out.push(
            CameraInfo { index: i as u32, name, description: "Media Foundation".to_owned() },
        );
        i += 1;
    }
    out
}

/// The first `n` entries of a listing.
spec fn is_listing_upto(names: Seq<Option<String>>, list: Seq<CameraInfo>, n: int) -> bool {
    &&& list.len() == n
    &&& forall|i: int|
        0 <= i < n ==> {
            &&& (#[trigger] list[i]).index == i as u32
            &&& list[i].name@ == match names[i] {
                Some(name) => name@,
                None => Seq::empty(),
            }
            &&& list[i].description@ == "Media Foundation"@
        }
}

/// A running capture.
#[derive(Clone, Copy, Debug, PartialEq, Eq, Structural)]
pub struct CaptureInfo {
    pub width: u32,
    pub height: u32,
}

/// What to open: a device, and the frame size and rate to ask of it.
#[derive(Clone, Copy, Debug, PartialEq, Eq, Structural)]
pub struct CaptureRequest {
    pub camera_index: u32,
    pub width: u32,
    pub height: u32,
    pub fps: u32,
}

/// Why a device could not be opened.
#[derive(Debug)]
pub enum CaptureError {
    Startup,
    Enumerate { reason: String },
    NoDevices,
    NoSuchDevice { index: u32, count: u32 },
    Activate { index: u32, reason: String },
    OpenReader { reason: String },
    NoUsableFormat,
    SetMediaType { reason: String },
    StartThread { reason: String },
}

/// What is to be done next to open a device.
#[derive(Debug)]
pub enum CaptureStep {
    /// Start the media platform.
    Startup,
    /// Enumerate the video input devices.
    Enumerate,
    /// Activate the device with this index.
    Activate { device: u32 },
    /// Open a reader on the activated device and select its first video stream.
    OpenReader,
    /// List the native media types of the stream.
    ListTypes,
    /// Make this type the current one.
    SetMediaType { choice: NativeChoice },
    /// Start the thread that captures frames in this format.
    StartThread { format: ChosenFormat },
    /// Nothing: the capture runs.
    Running { info: CaptureInfo },
    /// Nothing: the device could not be opened.
    Failed { error: CaptureError },
}

/// How a step went.
#[derive(Debug)]
pub enum StepReply {
    Done,
    /// This many devices were enumerated.
    Devices { count: u32 },
    /// The stream has these native media types.
    Types { types: Vec<NativeType> },
    Failed { reason: String },
}

impl CaptureStep {
    /// Whether `reply` is an answer to this step. The two last steps take none.
    pub open spec fn awaits(self, reply: StepReply) -> bool {
        match self {
            CaptureStep::Running { .. } | CaptureStep::Failed { .. } => false,
            CaptureStep::Enumerate => reply is Devices || reply is Failed,
            CaptureStep::ListTypes => reply is Types,
            _ => reply is Done || reply is Failed,
        }
    }
}

/// The step after the devices were counted: the requested device is activated if it is
/// one of them.
pub open spec fn after_count(index: u32, count: u32) -> CaptureStep {
    if count == 0 {
        CaptureStep::Failed { error: CaptureError::NoDevices }
    } else if index >= count {
        CaptureStep::Failed { error: CaptureError::NoSuchDevice { index, count } }
    } else {
        CaptureStep::Activate { device: index }
    }
}

/// The error with which a failed step ends the opening.
pub open spec fn step_error(req: CaptureRequest, step: CaptureStep, reason: String) -> CaptureError {
    match step {
        CaptureStep::Startup => CaptureError::Startup,
        CaptureStep::Enumerate => CaptureError::Enumerate { reason },
        CaptureStep::Activate { .. } => CaptureError::Activate { index: req.camera_index, reason },
        CaptureStep::OpenReader => CaptureError::OpenReader { reason },
        CaptureStep::SetMediaType { .. } => CaptureError::SetMediaType { reason },
        _ => CaptureError::StartThread { reason },
    }
}

/// Whether `next` is the step that follows `step` once it was answered by `reply`.
pub open spec fn follows(
    req: CaptureRequest,
    step: CaptureStep,
    reply: StepReply,
    next: CaptureStep,
) -> bool {
    match reply {
        StepReply::Failed { reason } => next == (CaptureStep::Failed {
            error: step_error(req, step, reason),
        }),
        StepReply::Devices { count } => next == after_count(req.camera_index, count),
        StepReply::Types { types } => match next {
            CaptureStep::SetMediaType { choice } => native_format::is_choice(
                types@,
                req.width,
                req.height,
                choice,
            ),
            _ => {
                &&& next == (CaptureStep::Failed { error: CaptureError::NoUsableFormat })
                &&& !native_format::offers(types@, native_format::mjpg())
                &&& !native_format::offers(types@, native_format::rgb32())
            },
        },
        StepReply::Done => next == match step {
            CaptureStep::Startup => CaptureStep::Enumerate,
            CaptureStep::Activate { .. } => CaptureStep::OpenReader,
            CaptureStep::OpenReader => CaptureStep::ListTypes,
            CaptureStep::SetMediaType { choice } => CaptureStep::StartThread {
                format: choice.format,
            },
            CaptureStep::StartThread { format } => CaptureStep::Running {
                info: CaptureInfo { width: format.width, height: format.height },
            },
            other => other,
        },
    }
}

/// Opens a device, one step at a time: given how the last step went, says what to do
/// next. The first step is `CaptureStep::Startup`.
pub fn spawn_capture(req: &CaptureRequest, step: CaptureStep, reply: StepReply) -> (next:
    CaptureStep)
    requires
        step.awaits(reply),
    ensures
        follows(*req, step, reply, next),
{
    match reply {
        StepReply::Failed { reason } => {
            let error: CaptureError = match step {
                CaptureStep::Startup => CaptureError::Startup,
                CaptureStep::Enumerate => CaptureError::Enumerate { reason },
                CaptureStep::Activate { .. } => CaptureError::Activate {
                    index: req.camera_index,
                    reason,
                },
                CaptureStep::OpenReader => CaptureError::OpenReader { reason },
                CaptureStep::SetMediaType { .. } => CaptureError::SetMediaType { reason },
                _ => CaptureError::StartThread { reason },
            };
            CaptureStep::Failed { error }
        },
        StepReply::Devices { count } => {
            if count == 0 {
                CaptureStep::Failed { error: CaptureError::NoDevices }
            } else if req.camera_index >= count {
                CaptureStep::Failed {
                    error: CaptureError::NoSuchDevice { index: req.camera_index, count },
                }
            } else {
                CaptureStep::Activate { device: req.camera_index }
            }
        },
        StepReply::Types { types } => {
            match choose_native_format(&types, req.width, req.height) {
                Some(choice) => CaptureStep::SetMediaType { choice },
                None => CaptureStep::Failed { error: CaptureError::NoUsableFormat },
            }
        },
        StepReply::Done => match step {
            CaptureStep::Startup => CaptureStep::Enumerate,
            CaptureStep::Activate { .. } => CaptureStep::OpenReader,
            CaptureStep::OpenReader => CaptureStep::ListTypes,
            CaptureStep::SetMediaType { choice } => CaptureStep::StartThread {
                format: choice.format,
            },
            CaptureStep::StartThread { format } => CaptureStep::Running {
                info: CaptureInfo { width: format.width, height: format.height },
            },
            other => other,
        },
    }
}

impl CaptureError {
    /// The error as it is shown to the user.
    pub open spec fn text(self) -> Seq<char> {
        match self {
            CaptureError::Startup => "MFStartup 失败"@,
            CaptureError::Enumerate { reason } => reason@,
            CaptureError::NoDevices => "系统未检测到任何视频输入设备"@,
            CaptureError::NoSuchDevice { index, count } => "设备 index="@ + text::decimal(index as nat)
                + " 不存在（共 "@ + text::decimal(count as nat) + " 个设备）"@,
            CaptureError::Activate { index, reason } => "ActivateObject 失败(index="@ + text::decimal(
                index as nat,
            ) + "): "@ + reason@,
            CaptureError::OpenReader { reason } => "MFCreateSourceReaderFromMediaSource 失败: "@
                + reason@,
            CaptureError::NoUsableFormat =>
                "设备未提供 MJPG 或 RGB32 格式（可能是采集卡兼容问题）"@,
            CaptureError::SetMediaType { reason } => "SetCurrentMediaType 失败: "@ + reason@,
            CaptureError::StartThread { reason } => "创建采集线程失败: "@ + reason@,
        }
    }

    /// The error as it is shown to the user.
    pub fn message(&self) -> (r: String)
        ensures
            r@ == self.text(),
    {
        let mut out: String = String::new();
        match self {
            CaptureError::Startup => out.append("MFStartup 失败"),
            CaptureError::Enumerate { reason } => out.append(reason.as_str()),
            CaptureError::NoDevices => out.append("系统未检测到任何视频输入设备"),
            CaptureError::NoSuchDevice { index, count } => {
                out.append("设备 index=");
                text::push_decimal(&mut out, *index as u64);
                out.append(" 不存在（共 ");
                text::push_decimal(&mut out, *count as u64);
                out.append(" 个设备）");
            },
            CaptureError::Activate { index, reason } => {
                out.append("ActivateObject 失败(index=");
                text::push_decimal(&mut out, *index as u64);
                out.append("): ");
                out.append(reason.as_str());
            },
            CaptureError::OpenReader { reason } => {
                out.append("MFCreateSourceReaderFromMediaSource 失败: ");
                out.append(reason.as_str());
            },
            CaptureError::NoUsableFormat => {
                out.append("设备未提供 MJPG 或 RGB32 格式（可能是采集卡兼容问题）");
            },
            CaptureError::SetMediaType { reason } => {
                out.append("SetCurrentMediaType 失败: ");
                out.append(reason.as_str());
            },
            CaptureError::StartThread { reason } => {
                out.append("创建采集线程失败: ");
                out.append(reason.as_str());
            },
        }
        assert(out@ =~= self.text());
        out
    }
}

/// Whether `steps` is the course of one opening whose steps were answered by `replies`.
pub open spec fn is_opening(
    req: CaptureRequest,
    steps: Seq<CaptureStep>,
    replies: Seq<StepReply>,
) -> bool {
    &&& steps.len() == replies.len() + 1
    &&& steps[0] is Startup
    &&& forall|i: int|
        0 <= i < replies.len() ==> {
            &&& steps[i].awaits(#[trigger] replies[i])
            &&& follows(req, steps[i], replies[i], steps[i + 1])
        }
}

/// A capture runs only on a device that was enumerated, and in the size of the type that
/// is chosen among those the device listed: that type was made the current one, and it is
/// the one that the capture reports.
pub proof fn capture_runs_as_chosen(
    req: CaptureRequest,
    steps: Seq<CaptureStep>,
    replies: Seq<StepReply>,
    info: CaptureInfo,
)
    requires
        is_opening(req, steps, replies),
        steps.last() == (CaptureStep::Running { info }),
    ensures
        replies.len() == 7,
        replies[1] matches StepReply::Devices { count } && req.camera_index < count,
        steps[2] == (CaptureStep::Activate { device: req.camera_index }),
        replies[4] matches StepReply::Types { types } && steps[5] matches CaptureStep::SetMediaType {
            choice,
        } && {
            &&& native_format::is_choice(types@, req.width, req.height, choice)
            &&& steps[6] == (CaptureStep::StartThread { format: choice.format })
            &&& info.width == choice.format.width
            &&& info.height == choice.format.height
        },
{
    let last = steps.len() - 1;
    assert forall|k: int| 0 <= k < last implies !(#[trigger] steps[k] is Failed) && !(
    steps[k] is Running) by {
        lemma_answered_step_goes_on(req, steps, replies, k);
    }
    lemma_opening_order(req, steps, replies, if last < 7 { last } else { 7 });
    lemma_opening_order(req, steps, replies, 1);
    lemma_opening_order(req, steps, replies, 4);
    lemma_opening_order(req, steps, replies, 5);
    lemma_opening_order(req, steps, replies, 6);
    assert(follows(req, steps[1], replies[1], steps[2]));
    assert(follows(req, steps[4], replies[4], steps[5]));
    assert(follows(req, steps[5], replies[5], steps[6]));
    assert(follows(req, steps[6], replies[6], steps[7]));
}

/// The kinds of the steps of an opening that has not failed.
proof fn lemma_opening_order(
    req: CaptureRequest,
    steps: Seq<CaptureStep>,
    replies: Seq<StepReply>,
    k: int,
)
    requires
        is_opening(req, steps, replies),
        0 <= k < 8,
        k < steps.len(),
        !(steps[k] is Failed),
    ensures
        k == 0 ==> steps[k] is Startup,
        k == 1 ==> steps[k] is Enumerate,
        k == 2 ==> steps[k] is Activate,
        k == 3 ==> steps[k] is OpenReader,
        k == 4 ==> steps[k] is ListTypes,
        k == 5 ==> steps[k] is SetMediaType,
        k == 6 ==> steps[k] is StartThread,
        k == 7 ==> steps[k] is Running,
    decreases k,
{
    if k > 0 {
        assert(steps[k - 1].awaits(replies[k - 1]));
        lemma_opening_order(req, steps, replies, k - 1);
    }
}

/// A step that was answered was not one of the last.
proof fn lemma_answered_step_goes_on(
    req: CaptureRequest,
    steps: Seq<CaptureStep>,
    replies: Seq<StepReply>,
    k: int,
)
    requires
        is_opening(req, steps, replies),
        0 <= k < replies.len(),
    ensures
        !(steps[k] is Failed),
        !(steps[k] is Running),
{
    assert(steps[k].awaits(replies[k]));
}

/// Every camera that is listed can be asked for: its index is that of an enumerated device.
pub proof fn listed_camera_is_activated(
    names: Vec<Option<String>>,
    list: Seq<CameraInfo>,
    i: int,
)
    requires
        is_listing(Some(names), list),
        names@.len() <= u32::MAX,
        0 <= i < list.len(),
    ensures
        after_count(list[i].index, names@.len() as u32) == (CaptureStep::Activate {
            device: i as u32,
        }),
{
}

/// The code of a status, what a code stands for, and the names, as the health report and its
/// readers have them: a code that belongs to no status stands for a camera that is not there.
pub proof fn status_codes_are_fixed(
    v: u8,
    s: CameraStatus,
    read: CameraStatus,
    code: u8,
    name: &'static str,
)
    requires
        call_ensures(CameraStatus::from_u8, (v,), read),
        call_ensures(CameraStatus::to_u8, (s,), code),
        call_ensures(CameraStatus::as_str, (s,), name),
    ensures
        read is Connecting <==> v == 1,
        read is Streaming <==> v == 2,
        v == code <==> read == s && v <= 2,
        s is Disconnected ==> code == 0 && name@ == "disconnected"@,
        s is Connecting ==> code == 1 && name@ == "connecting"@,
        s is Streaming ==> code == 2 && name@ == "streaming"@,
{
}

/// The health report of a published status: the service is well, and the camera is what the
/// status is called.
pub proof fn health_tells_the_status(
    s: CameraStatus,
    code: u8,
    name: &'static str,
    report: HealthReport,
)
    requires
        call_ensures(CameraStatus::to_u8, (s,), code),
        call_ensures(CameraStatus::as_str, (s,), name),
        call_ensures(health, (code,), report),
    ensures
        report.status@ == "ok"@,
        report.camera@ == name@,
{
}

/// The list has every device that was found, each under its place and its own name.
pub proof fn every_device_is_listed(names: Vec<Option<String>>, list: Vec<CameraInfo>, i: int)
    requires
        call_ensures(list_cameras, (Some(names),), list),
        0 <= i < names@.len() <= u32::MAX,
    ensures
        list@.len() == names@.len(),
        list@[i].index == i,
        names@[i] matches Some(name) ==> list@[i].name@ == name@,
        names@[i] is None ==> list@[i].name@.len() == 0,
        list@[i].description@ == "Media Foundation"@,
        is_listing(Some(names), list@),
{
}

/// A copy of an entry is the same entry.
pub proof fn copied_entry_is_the_same(entry: CameraInfo, copy: CameraInfo)
    requires
        call_ensures(CameraInfo::clone, (&entry,), copy),
    ensures
        copy.index == entry.index,
        copy.name@ == entry.name@,
        copy.description@ == entry.description@,
{
}

/// Where the devices cannot be enumerated, none is listed.
pub proof fn failed_enumeration_lists_nothing(list: Vec<CameraInfo>)
    requires
        call_ensures(list_cameras, (None::<Vec<Option<String>>>,), list),
    ensures
        list@.len() == 0,
{
}

/// An opening goes on as long as its steps succeed: each has the one that comes after it, up to
/// the running capture, which has the size of its format.
pub proof fn opening_goes_on(
    req: CaptureRequest,
    step: CaptureStep,
    next: CaptureStep,
)
    requires
        step.awaits(StepReply::Done),
        call_ensures(spawn_capture, (&req, step, StepReply::Done), next),
    ensures
        step is Startup ==> next is Enumerate,
        step is Activate ==> next is OpenReader,
        step is OpenReader ==> next is ListTypes,
        step matches CaptureStep::SetMediaType { choice } ==> next == (CaptureStep::StartThread {
            format: choice.format,
        }),
        step matches CaptureStep::StartThread { format } ==> (next matches CaptureStep::Running {
            info,
        } && info.width == format.width && info.height == format.height),
{
}

/// Once the devices are counted, the requested one is activated exactly if there is one at its
/// place. Otherwise the opening fails, and tells whether there are none at all or too few.
pub proof fn requested_device_is_activated(
    req: CaptureRequest,
    step: CaptureStep,
    count: u32,
    next: CaptureStep,
)
    requires
        step.awaits(StepReply::Devices { count }),
        call_ensures(spawn_capture, (&req, step, StepReply::Devices { count }), next),
    ensures
        req.camera_index < count ==> next == (CaptureStep::Activate { device: req.camera_index }),
        count == 0 ==> next == (CaptureStep::Failed { error: CaptureError::NoDevices }),
        0 < count <= req.camera_index ==> next == (CaptureStep::Failed {
            error: CaptureError::NoSuchDevice { index: req.camera_index, count },
        }),
{
}

/// Once the types are listed, the one that is set is the one that is chosen for the requested
/// size; the opening fails exactly if none can be.
pub proof fn chosen_type_is_set(
    req: CaptureRequest,
    step: CaptureStep,
    types: Vec<NativeType>,
    next: CaptureStep,
    chosen: Option<NativeChoice>,
)
    requires
        step.awaits(StepReply::Types { types }),
        call_ensures(spawn_capture, (&req, step, StepReply::Types { types }), next),
        call_ensures(choose_native_format, (&types, req.width, req.height), chosen),
    ensures
        next == match chosen {
            Some(choice) => CaptureStep::SetMediaType { choice },
            None => CaptureStep::Failed { error: CaptureError::NoUsableFormat },
        },
{
    if let Some(choice) = chosen {
        if let CaptureStep::SetMediaType { choice: set } = next {
            native_format::choice_is_unique(types@, req.width, req.height, set, choice);
        } else {
            let k = choice.index as int;
            assert(native_format::mjpg()(types@[k]) || native_format::rgb32()(types@[k]));
        }
    } else if let CaptureStep::SetMediaType { choice: set } = next {
        let k = set.index as int;
        assert(native_format::mjpg()(types@[k]) || native_format::rgb32()(types@[k]));
    }
}

/// A step that fails ends the opening with the error of that step, which tells the reason, and
/// for an activation also the device.
pub proof fn failed_step_ends_the_opening(
    req: CaptureRequest,
    step: CaptureStep,
    reason: String,
    next: CaptureStep,
)
    requires
        step.awaits(StepReply::Failed { reason }),
        call_ensures(spawn_capture, (&req, step, StepReply::Failed { reason }), next),
    ensures
        next matches CaptureStep::Failed { error } && {
            &&& step is Startup ==> error is Startup
            &&& step is Enumerate ==> error == (CaptureError::Enumerate { reason })
            &&& step is Activate ==> error == (CaptureError::Activate {
                index: req.camera_index,
                reason,
            })
            &&& step is OpenReader ==> error == (CaptureError::OpenReader { reason })
            &&& step is SetMediaType ==> error == (CaptureError::SetMediaType { reason })
            &&& step is StartThread ==> error == (CaptureError::StartThread { reason })
        },
{
}

/// What an error tells: an error with a reason ends with it, word for word, and one about a
/// device names it in decimal, with the number of devices if there are too few.
pub proof fn errors_tell_their_reason(error: CaptureError, r: String)
    requires
        call_ensures(CaptureError::message, (&error,), r),
    ensures
        error is Startup ==> r@ == "MFStartup 失败"@,
        error is NoDevices ==> r@ == "系统未检测到任何视频输入设备"@,
        error is NoUsableFormat ==> r@
            == "设备未提供 MJPG 或 RGB32 格式（可能是采集卡兼容问题）"@,
        error matches CaptureError::Enumerate { reason } ==> r@ == reason@,
        error matches CaptureError::NoSuchDevice { index, count } ==> r@ == "设备 index="@
            + text::decimal(index as nat) + " 不存在（共 "@ + text::decimal(count as nat)
            + " 个设备）"@,
        error matches CaptureError::Activate { index, reason } ==> r@
            == "ActivateObject 失败(index="@ + text::decimal(index as nat) + "): "@ + reason@,
        error matches CaptureError::OpenReader { reason } ==> r@
            == "MFCreateSourceReaderFromMediaSource 失败: "@ + reason@,
        error matches CaptureError::SetMediaType { reason } ==> r@ == "SetCurrentMediaType 失败: "@
            + reason@,
        error matches CaptureError::StartThread { reason } ==> r@ == "创建采集线程失败: "@
            + reason@,
{
}

} // verus!
