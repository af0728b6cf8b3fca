//! Encoding of outbound commands for the simulator's messaging channel.
//!
//! Each semantic command becomes a 4-tuple of 16-bit words: a message-type
//! code and three arguments.  Delivering the tuple (a window broadcast on
//! the simulator's platform) happens outside this crate; everything here is
//! the pure mapping from command to words, and the packing of the words
//! into the two 32-bit message parameters.

use vstd::prelude::*;
use crate::text::{dec_value, is_digits};

verus! {

/// Where to position the replay when setting its play position.
#[derive(Debug, Clone, Copy, PartialEq, Eq, Structural)]
pub enum ReplayPositionMode {
    Begin,
    Current,
    End,
}

/// The word a replay-position mode encodes to.
pub open spec fn spec_position_mode_code(m: ReplayPositionMode) -> u16 {
    match m {
        ReplayPositionMode::Begin => 0,
        ReplayPositionMode::Current => 1,
        ReplayPositionMode::End => 2,
    }
}

impl From<ReplayPositionMode> for u16 {
    fn from(mode: ReplayPositionMode) -> (r: u16) {
        match mode {
            ReplayPositionMode::Begin => 0,
            ReplayPositionMode::Current => 1,
            ReplayPositionMode::End => 2,
        }
    }
}

impl vstd::std_specs::convert::FromSpecImpl<ReplayPositionMode> for u16 {
    open spec fn obeys_from_spec() -> bool {
        true
    }

    open spec fn from_spec(m: ReplayPositionMode) -> u16 {
        spec_position_mode_code(m)
    }
}

/// What to search for when stepping through a replay.
#[derive(Debug, Clone, Copy, PartialEq, Eq, Structural)]
pub enum ReplaySearchMode {
    ToStart,
    ToEnd,
    PreviousSession,
    NextSession,
    PreviousLap,
    NextLap,
    PreviousFrame,
    NextFrame,
    PreviousIncident,
    NextIncident,
}

/// The word a replay-search mode encodes to.
pub open spec fn spec_search_mode_code(m: ReplaySearchMode) -> u16 {
    match m {
        ReplaySearchMode::ToStart => 0,
        ReplaySearchMode::ToEnd => 1,
        ReplaySearchMode::PreviousSession => 2,
        ReplaySearchMode::NextSession => 3,
        ReplaySearchMode::PreviousLap => 4,
        ReplaySearchMode::NextLap => 5,
        ReplaySearchMode::PreviousFrame => 6,
        ReplaySearchMode::NextFrame => 7,
        ReplaySearchMode::PreviousIncident => 8,
        ReplaySearchMode::NextIncident => 9,
    }
}

impl From<ReplaySearchMode> for u16 {
    fn from(mode: ReplaySearchMode) -> (r: u16) {
        match mode {
            ReplaySearchMode::ToStart => 0,
            ReplaySearchMode::ToEnd => 1,
            ReplaySearchMode::PreviousSession => 2,
            ReplaySearchMode::NextSession => 3,
            ReplaySearchMode::PreviousLap => 4,
            ReplaySearchMode::NextLap => 5,
            ReplaySearchMode::PreviousFrame => 6,
            ReplaySearchMode::NextFrame => 7,
            ReplaySearchMode::PreviousIncident => 8,
            ReplaySearchMode::NextIncident => 9,
        }
    }
}

impl vstd::std_specs::convert::FromSpecImpl<ReplaySearchMode> for u16 {
    open spec fn obeys_from_spec() -> bool {
        true
    }

    open spec fn from_spec(m: ReplaySearchMode) -> u16 {
        spec_search_mode_code(m)
    }
}

/// Start, stop or restart disk-side telemetry recording.
#[derive(Debug, Clone, Copy, PartialEq, Eq, Structural)]
pub enum TelemetryCommandMode {
    Stop,
    Start,
    Restart,
}

/// The word a telemetry command encodes to.
pub open spec fn spec_telemetry_mode_code(m: TelemetryCommandMode) -> u16 {
    match m {
        TelemetryCommandMode::Stop => 0,
        TelemetryCommandMode::Start => 1,
        TelemetryCommandMode::Restart => 2,
    }
}

impl From<TelemetryCommandMode> for u16 {
    fn from(mode: TelemetryCommandMode) -> (r: u16) {
        match mode {
            TelemetryCommandMode::Stop => 0,
            TelemetryCommandMode::Start => 1,
            TelemetryCommandMode::Restart => 2,
        }
    }
}

impl vstd::std_specs::convert::FromSpecImpl<TelemetryCommandMode> for u16 {
    open spec fn obeys_from_spec() -> bool {
        true
    }

    open spec fn from_spec(m: TelemetryCommandMode) -> u16 {
        spec_telemetry_mode_code(m)
    }
}

/// Drive the in-simulator chat window.
#[derive(Debug, Clone, Copy, PartialEq, Eq, Structural)]
pub enum ChatCommandMode {
    Macro,
    Begin,
    Reply,
    Cancel,
}

/// The word a chat command encodes to.
pub open spec fn spec_chat_mode_code(m: ChatCommandMode) -> u16 {
    match m {
        ChatCommandMode::Macro => 0,
        ChatCommandMode::Begin => 1,
        ChatCommandMode::Reply => 2,
        ChatCommandMode::Cancel => 3,
    }
}

impl From<ChatCommandMode> for u16 {
    fn from(mode: ChatCommandMode) -> (r: u16) {
        match mode {
            ChatCommandMode::Macro => 0,
            ChatCommandMode::Begin => 1,
            ChatCommandMode::Reply => 2,
            ChatCommandMode::Cancel => 3,
        }
    }
}

impl vstd::std_specs::convert::FromSpecImpl<ChatCommandMode> for u16 {
    open spec fn obeys_from_spec() -> bool {
        true
    }

    open spec fn from_spec(m: ChatCommandMode) -> u16 {
        spec_chat_mode_code(m)
    }
}

/// Drive the in-simulator video capture.
#[derive(Debug, Clone, Copy, PartialEq, Eq, Structural)]
pub enum VideoCaptureMode {
    ScreenShot,
    StartCapture,
    EndCapture,
    ToggleCapture,
    ShowTimer,
    HideTimer,
}

/// The word a video-capture mode encodes to.
pub open spec fn spec_video_mode_code(m: VideoCaptureMode) -> u16 {
    match m {
        VideoCaptureMode::ScreenShot => 0,
        VideoCaptureMode::StartCapture => 1,
        VideoCaptureMode::EndCapture => 2,
        VideoCaptureMode::ToggleCapture => 3,
        VideoCaptureMode::ShowTimer => 4,
        VideoCaptureMode::HideTimer => 5,
    }
}

impl From<VideoCaptureMode> for u16 {
    fn from(mode: VideoCaptureMode) -> (r: u16) {
        match mode {
            VideoCaptureMode::ScreenShot => 0,
            VideoCaptureMode::StartCapture => 1,
            VideoCaptureMode::EndCapture => 2,
            VideoCaptureMode::ToggleCapture => 3,
            VideoCaptureMode::ShowTimer => 4,
            VideoCaptureMode::HideTimer => 5,
        }
    }
}

impl vstd::std_specs::convert::FromSpecImpl<VideoCaptureMode> for u16 {
    open spec fn obeys_from_spec() -> bool {
        true
    }

    open spec fn from_spec(m: VideoCaptureMode) -> u16 {
        spec_video_mode_code(m)
    }
}

/// A pit-service command: what to change before the next stop.
#[derive(Debug, Clone, Copy, PartialEq, Eq, Structural)]
pub enum PitCommandMode {
    Clear,
    Tearoff,
    Fuel(u8),
    LF(u8),
    RF(u8),
    LR(u8),
    RR(u8),
    ClearTires,
    FastRepair,
    ClearTearoff,
    ClearFastRepair,
    ClearFuel,
}

/// The two argument words a pit command encodes to.
pub open spec fn spec_pit_words(m: PitCommandMode) -> (u16, u16) {
    match m {
        PitCommandMode::Clear => (0u16, 0u16),
        PitCommandMode::Tearoff => (1u16, 0u16),
        PitCommandMode::Fuel(level) => (2u16, level as u16),
        PitCommandMode::LF(pressure) => (3u16, pressure as u16),
        PitCommandMode::RF(pressure) => (4u16, pressure as u16),
        PitCommandMode::LR(pressure) => (5u16, pressure as u16),
        PitCommandMode::RR(pressure) => (6u16, pressure as u16),
        PitCommandMode::ClearTires => (7u16, 0u16),
        PitCommandMode::FastRepair => (8u16, 0u16),
        PitCommandMode::ClearTearoff => (9u16, 0u16),
        PitCommandMode::ClearFastRepair => (10u16, 0u16),
        PitCommandMode::ClearFuel => (11u16, 0u16),
    }
}

impl PitCommandMode {
    /// Encode into the `(var1, var2)` argument words the messaging channel
    /// expects.
    pub fn encode(self) -> (r: (u16, u16))
        ensures
            r == spec_pit_words(self),
    {
        match self {
            PitCommandMode::Clear => (0, 0),
            PitCommandMode::Tearoff => (1, 0),
            PitCommandMode::Fuel(level) => (2, level as u16),
            PitCommandMode::LF(pressure) => (3, pressure as u16),
            PitCommandMode::RF(pressure) => (4, pressure as u16),
            PitCommandMode::LR(pressure) => (5, pressure as u16),
            PitCommandMode::RR(pressure) => (6, pressure as u16),
            PitCommandMode::ClearTires => (7, 0),
            PitCommandMode::FastRepair => (8, 0),
            PitCommandMode::ClearTearoff => (9, 0),
            PitCommandMode::ClearFastRepair => (10, 0),
            PitCommandMode::ClearFuel => (11, 0),
        }
    }
}

/// How many `'0'` characters `s` starts with.
pub open spec fn leading_zeros(s: Seq<char>) -> int
    decreases s.len(),
{
    if s.len() == 0 {
        0
    } else if s[0] != '0' {
        0
    } else {
        1 + leading_zeros(s.drop_first())
    }
}

/// The word a car-number text encodes to.  A plain number is its value; a
/// number with leading zeros carries them in the thousands: the value plus
/// 1000 times its digit count including the zeros (an all-zero text counts
/// one zero less).
pub open spec fn spec_pad_car_number(s: Seq<char>) -> int {
    let z0 = leading_zeros(s);
    let zeros = if z0 == s.len() && z0 > 0 {
        z0 - 1
    } else {
        z0
    };
    let num = dec_value(s);
    if zeros > 0 {
        let place: int = if num > 99 {
            3
        } else if num > 9 {
            2
        } else {
            1
        };
        num + 1000 * (place + zeros)
    } else {
        num
    }
}

/// Digits denote a non-negative value.
proof fn lemma_dec_value_nonneg(s: Seq<char>)
    requires
        forall|i: int| 0 <= i < s.len() ==> '0' <= #[trigger] s[i] <= '9',
    ensures
        dec_value(s) >= 0,
    decreases s.len(),
{
    if s.len() > 0 {
        lemma_dec_value_nonneg(s.drop_last());
    }
}

/// A digit prefix denotes at most what the whole text denotes.
proof fn lemma_dec_value_prefix_le(s: Seq<char>, i: int)
    requires
        forall|k: int| 0 <= k < s.len() ==> '0' <= #[trigger] s[k] <= '9',
        0 <= i <= s.len(),
    ensures
        dec_value(s.subrange(0, i)) <= dec_value(s),
    decreases s.len() - i,
{
    if i == s.len() {
        assert(s.subrange(0, i) =~= s);
    } else {
        assert(s.subrange(0, i + 1).drop_last() =~= s.subrange(0, i));
        assert(s.subrange(0, i + 1).last() == s[i]);
        lemma_dec_value_nonneg(s.subrange(0, i));
        assert(dec_value(s.subrange(0, i)) <= dec_value(s.subrange(0, i + 1)));
        lemma_dec_value_prefix_le(s, i + 1);
    }
}

/// A scan that saw `k` zeros and then a non-zero (or the end) pins the
/// leading-zero count at `k`.
proof fn lemma_leading_zeros_is(s: Seq<char>, k: int)
    requires
        0 <= k <= s.len(),
        forall|j: int| 0 <= j < k ==> #[trigger] s[j] == '0',
        k < s.len() ==> s[k] != '0',
    ensures
        leading_zeros(s) == k,
    decreases k,
{
    if k == 0 {
    } else {
        assert(s[0] == '0');
        lemma_leading_zeros_is(s.drop_first(), k - 1);
    }
}

/// Encode a car-number text into its message word.
///
/// The text must be decimal digits whose value and padded encoding both
/// fit sixteen bits; outside that the encoding has no meaning.
pub fn pad_car_number(s: &str) -> (r: u16)
    requires
        is_digits(s@),
        dec_value(s@) <= u16::MAX,
        spec_pad_car_number(s@) <= u16::MAX,
    ensures
        r == spec_pad_car_number(s@),
{
    let len = s.unicode_len();
    let mut zeros: usize = 0;
    while zeros < len && s.get_char(zeros) == '0'
        invariant
            zeros <= len == s@.len(),
            forall|j: int| 0 <= j < zeros ==> #[trigger] s@[j] == '0',
        decreases len - zeros,
    {
        zeros = zeros + 1;
    }
    proof {
        lemma_leading_zeros_is(s@, zeros as int);
    }
    let zeros_adj: usize = if zeros == len {
        zeros - 1
    } else {
        zeros
    };
    let mut v: u16 = 0;
    let mut i: usize = 0;
    while i < len
        invariant
            i <= len == s@.len(),
            is_digits(s@),
            dec_value(s@) <= u16::MAX,
            v == dec_value(s@.subrange(0, i as int)),
        decreases len - i,
    {
        let c = s.get_char(i);
        proof {
            assert(s@.subrange(0, i + 1).drop_last() =~= s@.subrange(0, i as int));
            assert(s@.subrange(0, i + 1).last() == s@[i as int]);
            lemma_dec_value_prefix_le(s@, i + 1);
        }
        let d = (c as u32) - 48;
        let v32 = (v as u32) * 10 + d;
        assert(v32 == dec_value(s@.subrange(0, i + 1)));
        v = v32 as u16;
        i = i + 1;
    }
    proof {
        assert(s@.subrange(0, len as int) =~= s@);
    }
    if zeros_adj > 0 {
        let place: u16 = if v > 99 {
            3
        } else if v > 9 {
            2
        } else {
            1
        };
        assert(spec_pad_car_number(s@) == v + 1000 * (place + zeros_adj));
        v + 1000 * (place + (zeros_adj as u16))
    } else {
        v
    }
}

/// A semantic command for the simulator.
pub enum BroadcastMessage {
    CameraSwitchPosition(u8, u8, u8),
    CameraSwitchNumber(String, u8, u8),
    CameraSetState(CameraState),
    ReplaySetPlaySpeed(u8, bool),
    ReplaySetPlayPosition(ReplayPositionMode, u16),
    ReplaySearch(ReplaySearchMode),
    ReplaySetState,
    ReloadAllTextures,
    ReloadTextures(u8),
    ChatCommand(ChatCommandMode),
    ChatCommandMacro(u8),
    PitCommand(PitCommandMode),
    TelemetryCommand(TelemetryCommandMode),
    FFBCommand(u16),
    ReplaySearchSessionTime(u8, u16),
    VideoCapture(VideoCaptureMode),
}

/// The command's arguments fit the 16-bit words they encode to: a car
/// number is digits within range, and camera-state bits fit one word.
pub open spec fn spec_message_encodable(m: BroadcastMessage) -> bool {
    match m {
        BroadcastMessage::CameraSwitchNumber(s, _, _) => is_digits(s@) && dec_value(s@)
            <= u16::MAX && spec_pad_car_number(s@) <= u16::MAX,
        BroadcastMessage::CameraSetState(cs) => cs.bits <= 0xFFFF,
        _ => true,
    }
}

/// The message-type word and the three argument words a command encodes
/// to.
pub open spec fn spec_message_words(m: BroadcastMessage) -> (int, int, int, int) {
    match m {
        BroadcastMessage::CameraSwitchPosition(position, group, camera) => (
            0,
            position as int,
            group as int,
            camera as int,
        ),
        BroadcastMessage::CameraSwitchNumber(car_number, group, camera) => (
            1,
            spec_pad_car_number(car_number@),
            group as int,
            camera as int,
        ),
        BroadcastMessage::CameraSetState(camera_state) => (2, camera_state.bits as int, 0, 0),
        BroadcastMessage::ReplaySetPlaySpeed(speed, slow_motion) => (
            3,
            speed as int,
            if slow_motion {
                1
            } else {
                0
            },
            0,
        ),
        BroadcastMessage::ReplaySetPlayPosition(mode, frame_number) => (
            4,
            spec_position_mode_code(mode) as int,
            frame_number as int,
            0,
        ),
        BroadcastMessage::ReplaySearch(mode) => (5, spec_search_mode_code(mode) as int, 0, 0),
        BroadcastMessage::ReplaySetState => (6, 0, 0, 0),
        BroadcastMessage::ReloadAllTextures => (7, 0, 0, 0),
        BroadcastMessage::ReloadTextures(car_index) => (7, car_index as int, 0, 0),
        BroadcastMessage::ChatCommand(mode) => (8, spec_chat_mode_code(mode) as int, 0, 0),
        BroadcastMessage::ChatCommandMacro(macro_number) => (8, 0, macro_number as int, 0),
        BroadcastMessage::PitCommand(pit_command_mode) => (
            9,
            spec_pit_words(pit_command_mode).0 as int,
            spec_pit_words(pit_command_mode).1 as int,
            0,
        ),
        BroadcastMessage::TelemetryCommand(mode) => (
            10,
            spec_telemetry_mode_code(mode) as int,
            0,
            0,
        ),
        BroadcastMessage::FFBCommand(_) => (11, 0, 0, 0),
        BroadcastMessage::ReplaySearchSessionTime(session_number, session_time_ms) => (
            12,
            session_number as int,
            session_time_ms as int,
            0,
        ),
        BroadcastMessage::VideoCapture(mode) => (13, spec_video_mode_code(mode) as int, 0, 0),
    }
}

impl BroadcastMessage {
    /// Encode the command into the message-type word and three argument
    /// words the messaging channel expects.
    pub fn to_message(self) -> (r: (u16, u16, u16, u16))
        requires
            spec_message_encodable(self),
        ensures
            r.0 == spec_message_words(self).0,
            r.1 == spec_message_words(self).1,
            r.2 == spec_message_words(self).2,
            r.3 == spec_message_words(self).3,
    {
        match self {
            BroadcastMessage::CameraSwitchPosition(position, group, camera) => (
                0,
                position as u16,
                group as u16,
                camera as u16,
            ),
            BroadcastMessage::CameraSwitchNumber(car_number, group, camera) => (
                1,
                pad_car_number(car_number.as_str()),
                group as u16,
                camera as u16,
            ),
            BroadcastMessage::CameraSetState(camera_state) => (
                2,
                camera_state.bits() as u16,
                0,
                0,
            ),
            BroadcastMessage::ReplaySetPlaySpeed(speed, slow_motion) => (
                3,
                speed as u16,
                if slow_motion {
                    1
                } else {
                    0
                },
                0,
            ),
            BroadcastMessage::ReplaySetPlayPosition(mode, frame_number) => (
                4,
                u16::from(mode),
                frame_number,
                0,
            ),
            BroadcastMessage::ReplaySearch(mode) => (5, u16::from(mode), 0, 0),
            BroadcastMessage::ReplaySetState => (6, 0, 0, 0),
            BroadcastMessage::ReloadAllTextures => (7, 0, 0, 0),
            BroadcastMessage::ReloadTextures(car_index) => (7, car_index as u16, 0, 0),
            BroadcastMessage::ChatCommand(mode) => (8, u16::from(mode), 0, 0),
            BroadcastMessage::ChatCommandMacro(macro_number) => (
                8,
                u16::from(ChatCommandMode::Macro),
                macro_number as u16,
                0,
            ),
            BroadcastMessage::PitCommand(pit_command_mode) => {
                let words = pit_command_mode.encode();
                (9, words.0, words.1, 0)
            },
            BroadcastMessage::TelemetryCommand(mode) => (10, u16::from(mode), 0, 0),
            BroadcastMessage::FFBCommand(_value) => (11, 0, 0, 0),
            BroadcastMessage::ReplaySearchSessionTime(session_number, session_time_ms) => (
                12,
                session_number as u16,
                session_time_ms,
                0,
            ),
            BroadcastMessage::VideoCapture(mode) => (13, u16::from(mode), 0, 0),
        }
    }
}

/// Pack the four message words into the two 32-bit message parameters:
/// type and first argument in the low and high halves of the first, the
/// remaining arguments in the halves of the second.
pub fn pack_message_params(words: (u16, u16, u16, u16)) -> (r: (u32, u32))
    ensures
        r.0 == words.0 + 0x1_0000 * words.1,
        r.1 == words.2 + 0x1_0000 * words.3,
{
    (words.0 as u32 + 0x1_0000 * (words.1 as u32), words.2 as u32 + 0x1_0000 * (words.3 as u32))
}

/// A handle on the simulator's messaging channel: the channel's registered
/// message id.  Registering the id and delivering a message are platform
/// work outside this crate.
#[derive(Debug, Clone, Copy, PartialEq, Eq, Structural)]
pub struct Broadcast {
    pub message_id: u32,
}

impl Broadcast {
    /// Wrap a registered message id.
    pub fn with_message_id(message_id: u32) -> (r: Broadcast)
        ensures
            r.message_id == message_id,
    {
        Broadcast { message_id }
    }

    /// The registered message id.
    pub fn message_id(&self) -> (r: u32)
        ensures
            r == self.message_id,
    {
        self.message_id
    }
}

/// The camera tool's state flags; bit assignments are the simulator's.
#[derive(Debug, Clone, Copy, PartialEq, Eq, Structural)]
pub struct CameraState {
    pub bits: u32,
}

impl CameraState {
    /// A flag set from its raw bits.
    pub fn from_bits(bits: u32) -> (r: CameraState)
        ensures
            r.bits == bits,
    {
        CameraState { bits }
    }

    /// The raw flag bits.
    pub fn bits(&self) -> (r: u32)
        ensures
            r == self.bits,
    {
        self.bits
    }
}

} // verus!
