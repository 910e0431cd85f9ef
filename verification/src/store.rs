//! The state of the bar and the one place that changes it: each message from
//! the bus is applied as one transition.

use crate::error::BarError;
use crate::message::{Message, MessageView, WebpackInfo, Workspace, WorkspaceView};
use crate::number::{
    Number, FIVE_BITS, HUNDRED_BITS, NINETY_FIVE_BITS, SEVENTY_FIVE_BITS, THIRTY_FIVE_BITS,
    ZERO_BITS,
};
use crate::sensors::wifi::{WifiStatus, WifiStatusView, DEGRADED_BITRATE_BITS};
use crate::text::{concat, equal};
use vstd::prelude::*;

verus! {

/// The pattern of `-1.0`: the capacity before any reading of the battery.
pub const MINUS_ONE_BITS: u64 = 0xBFF0_0000_0000_0000;

/// Which picture stands for the battery.
#[derive(Debug, Clone, Copy, PartialEq, Eq, Structural)]
pub enum BatteryIcon {
    Charged,
    Charging,
    Empty,
    Full,
    Half,
    Low,
    /// The capacity is unknown.
    Unknown,
}

/// Which picture stands for the volume.
#[derive(Debug, Clone, Copy, PartialEq, Eq, Structural)]
pub enum VolumeIcon {
    High,
    Medium,
    Low,
    Mute,
    /// The volume is unknown.
    Unknown,
}

/// A picture that was loaded: its size, its padding and the number under
/// which the renderer keeps it.
#[derive(Debug, Clone, Copy, PartialEq, Eq, Structural)]
pub struct Icon {
    pub w: u32,
    pub h: u32,
    pub id: u32,
    pub padding: u32,
}

/// The loaded pictures of the battery, one for each `BatteryIcon`.
#[derive(Debug, Clone, Copy, PartialEq, Eq)]
pub struct BatteryIcons {
    pub charged: Icon,
    pub charging: Icon,
    pub empty: Icon,
    pub full: Icon,
    pub half: Icon,
    pub low: Icon,
    pub none: Icon,
}

/// The loaded pictures of the volume, one for each `VolumeIcon`.
#[derive(Debug, Clone, Copy, PartialEq, Eq)]
pub struct VolumeIcons {
    pub high: Icon,
    pub medium: Icon,
    pub low: Icon,
    pub mute: Icon,
    pub none: Icon,
}

impl BatteryIcon {
    /// The picture of `battery` that the name stands for.
    pub open spec fn picture(self, battery: BatteryIcons) -> Icon {
        match self {
            BatteryIcon::Charged => battery.charged,
            BatteryIcon::Charging => battery.charging,
            BatteryIcon::Empty => battery.empty,
            BatteryIcon::Full => battery.full,
            BatteryIcon::Half => battery.half,
            BatteryIcon::Low => battery.low,
            BatteryIcon::Unknown => battery.none,
        }
    }

    /// The loaded picture for this state of the battery.
    pub fn to_struct(&self, battery: &BatteryIcons) -> (icon: Icon)
        ensures
            icon == self.picture(*battery),
    {
        match *self {
            BatteryIcon::Charged => battery.charged,
            BatteryIcon::Charging => battery.charging,
            BatteryIcon::Empty => battery.empty,
            BatteryIcon::Full => battery.full,
            BatteryIcon::Half => battery.half,
            BatteryIcon::Low => battery.low,
            BatteryIcon::Unknown => battery.none,
        }
    }
}

impl VolumeIcon {
    /// The picture of `volume` that the name stands for.
    pub open spec fn picture(self, volume: VolumeIcons) -> Icon {
        match self {
            VolumeIcon::High => volume.high,
            VolumeIcon::Medium => volume.medium,
            VolumeIcon::Low => volume.low,
            VolumeIcon::Mute => volume.mute,
            VolumeIcon::Unknown => volume.none,
        }
    }

    /// The loaded picture for this state of the volume.
    pub fn to_struct(&self, volume: &VolumeIcons) -> (icon: Icon)
        ensures
            icon == self.picture(*volume),
    {
        match *self {
            VolumeIcon::High => volume.high,
            VolumeIcon::Medium => volume.medium,
            VolumeIcon::Low => volume.low,
            VolumeIcon::Mute => volume.mute,
            VolumeIcon::Unknown => volume.none,
        }
    }
}

/// The battery as the bar shows it.
#[derive(Debug, Clone, Copy, PartialEq, Eq, Structural)]
pub struct Battery {
    /// The capacity in percent.
    pub capacity: Number,
    pub icon: BatteryIcon,
}

/// The volume as the bar shows it.
#[derive(Debug, Clone, Copy, PartialEq, Eq, Structural)]
pub struct Volume {
    /// The volume in percent.
    pub percent: Number,
    pub icon: VolumeIcon,
}

/// How the button of a workspace is coloured: by whether the workspace has
/// the focus, in the complementary colour where it is urgent.
#[derive(Debug, Clone, Copy, PartialEq, Eq, Structural)]
pub struct Tint {
    pub focused: bool,
    pub complement: bool,
}

/// The window manager as the bar shows it.
#[derive(Debug, PartialEq, Eq)]
pub struct I3 {
    /// The binding mode; empty in the default mode.
    pub mode: String,
    /// The name and colour of each workspace, in the window manager's order.
    pub workspaces: Vec<(String, Tint)>,
}

/// Everything the bar shows: the latest value of each kind of message.
#[derive(Debug, PartialEq, Eq)]
pub struct State {
    pub battery: Battery,
    pub time: String,
    pub volume: Volume,
    pub i3: I3,
    pub webpack: WebpackInfo,
    pub wifi: WifiStatus,
    pub diskusage: String,
}

/// An `I3` with its texts as sequences of characters.
pub struct I3View {
    pub mode: Seq<char>,
    pub workspaces: Seq<(Seq<char>, Tint)>,
}

/// A `State` with its texts as sequences of characters.
pub struct StateView {
    pub battery: Battery,
    pub time: Seq<char>,
    pub volume: Volume,
    pub i3: I3View,
    pub webpack: WebpackInfo,
    pub wifi: WifiStatusView,
    pub diskusage: Seq<char>,
}

impl View for I3 {
    type V = I3View;

    open spec fn view(&self) -> I3View {
        I3View {
            mode: self.mode@,
            workspaces: Seq::new(
                self.workspaces@.len(),
                |i: int| (self.workspaces@[i].0@, self.workspaces@[i].1),
            ),
        }
    }
}

impl View for State {
    type V = StateView;

    open spec fn view(&self) -> StateView {
        StateView {
            battery: self.battery,
            time: self.time@,
            volume: self.volume,
            i3: self.i3@,
            webpack: self.webpack,
            wifi: self.wifi@,
            diskusage: self.diskusage@,
        }
    }
}

/// What the store asks of its surroundings after a message.
#[derive(Debug, PartialEq, Eq)]
pub enum Effect {
    /// Nothing but to draw the bar again.
    Nothing,
    /// Wake the probes with these handles from their sleep.
    Wake(Vec<usize>),
    /// Tell the user this text.
    Report(String),
    /// End the process with this exit code. No further message is read.
    Exit(i32),
}

/// An `Effect` with its contents as sequences.
pub enum EffectView {
    Nothing,
    Wake(Seq<usize>),
    Report(Seq<char>),
    Exit(i32),
}

impl View for Effect {
    type V = EffectView;

    open spec fn view(&self) -> EffectView {
        match self {
            Effect::Nothing => EffectView::Nothing,
            Effect::Wake(handles) => EffectView::Wake(handles@),
            Effect::Report(text) => EffectView::Report(text@),
            Effect::Exit(code) => EffectView::Exit(*code),
        }
    }
}

/// The number that a text denotes, or why it denotes none.
pub type Numeric = Result<Number, String>;

/// The view of a `Numeric`.
pub open spec fn numeric_view(numeric: Numeric) -> Result<Number, Seq<char>> {
    match numeric {
        Ok(n) => Ok(n),
        Err(why) => Err(why@),
    }
}

/// The picture for a battery at `capacity` percent. On mains power
/// (`ac` is the text `1`) the battery is charging; else the capacity decides,
/// and each bound belongs to the lower grade. A capacity outside 0 to 100, or
/// one that is not a number, has no grade.
pub open spec fn battery_grade(capacity: Number, ac: Seq<char>) -> BatteryIcon {
    if ac == "1"@ {
        BatteryIcon::Charging
    } else if capacity.within(Number { bits: ZERO_BITS }, Number { bits: FIVE_BITS }) {
        BatteryIcon::Empty
    } else if capacity.within(Number { bits: FIVE_BITS }, Number { bits: THIRTY_FIVE_BITS }) {
        BatteryIcon::Low
    } else if capacity.within(
        Number { bits: THIRTY_FIVE_BITS },
        Number { bits: SEVENTY_FIVE_BITS },
    ) {
        BatteryIcon::Half
    } else if capacity.within(
        Number { bits: SEVENTY_FIVE_BITS },
        Number { bits: NINETY_FIVE_BITS },
    ) {
        BatteryIcon::Charged
    } else if capacity.within(Number { bits: NINETY_FIVE_BITS }, Number { bits: HUNDRED_BITS }) {
        BatteryIcon::Full
    } else {
        BatteryIcon::Unknown
    }
}

/// The picture for a volume of `percent`. Zero is mute; else each bound
/// belongs to the lower grade. A volume outside 0 to 100, or one that is not
/// a number, has no grade.
pub open spec fn volume_grade(percent: Number) -> VolumeIcon {
    if percent.same(Number { bits: ZERO_BITS }) {
        VolumeIcon::Mute
    } else if percent.within(Number { bits: ZERO_BITS }, Number { bits: THIRTY_FIVE_BITS }) {
        VolumeIcon::Low
    } else if percent.within(
        Number { bits: THIRTY_FIVE_BITS },
        Number { bits: SEVENTY_FIVE_BITS },
    ) {
        VolumeIcon::Medium
    } else if percent.within(Number { bits: SEVENTY_FIVE_BITS }, Number { bits: HUNDRED_BITS }) {
        VolumeIcon::High
    } else {
        VolumeIcon::Unknown
    }
}

/// The battery after a reading: graded where the capacity is a number, and
/// else the unknown battery, at capacity zero and without a grade.
pub open spec fn battery_after(numeric: Result<Number, Seq<char>>, ac: Seq<char>) -> Battery {
    match numeric {
        Ok(capacity) => Battery { capacity, icon: battery_grade(capacity, ac) },
        Err(_) => Battery { capacity: Number { bits: ZERO_BITS }, icon: BatteryIcon::Unknown },
    }
}

/// The volume after a reading: graded where the reading is a number, and else
/// the unknown volume, at zero and without a grade.
pub open spec fn volume_after(numeric: Result<Number, Seq<char>>) -> Volume {
    match numeric {
        Ok(percent) => Volume { percent, icon: volume_grade(percent) },
        Err(_) => Volume { percent: Number { bits: ZERO_BITS }, icon: VolumeIcon::Unknown },
    }
}

/// The colour of a workspace's button.
pub open spec fn tint_of(workspace: WorkspaceView) -> Tint {
    Tint { focused: workspace.focused, complement: workspace.urgent }
}

/// The name and colour of each workspace of a list.
pub open spec fn buttons(list: Seq<WorkspaceView>) -> Seq<(Seq<char>, Tint)> {
    Seq::new(list.len(), |i: int| (list[i].name, tint_of(list[i])))
}

/// The binding mode as the bar shows it: the default mode shows as nothing.
pub open spec fn shown_mode(mode: Seq<char>) -> Seq<char> {
    if mode == "default"@ {
        Seq::empty()
    } else {
        mode
    }
}

impl StateView {
    /// The state after one message. A message replaces the value of its own
    /// kind and leaves every other value as it was. `numeric` is the number
    /// that the capacity of a `Battery` message, or the text of a `Volume`
    /// message, denotes; no other message reads it.
    pub open spec fn apply(self, msg: MessageView, numeric: Result<Number, Seq<char>>) -> StateView {
        match msg {
            MessageView::Time(time) => StateView { time, ..self },
            MessageView::Battery(_, _, ac) => StateView {
                battery: battery_after(numeric, ac),
                ..self
            },
            MessageView::Workspaces(list) => StateView {
                i3: I3View { mode: self.i3.mode, workspaces: buttons(list) },
                ..self
            },
            MessageView::I3Mode(mode) => StateView {
                i3: I3View { mode: shown_mode(mode), workspaces: self.i3.workspaces },
                ..self
            },
            MessageView::Wifi(status) => StateView { wifi: status, ..self },
            MessageView::Webpack(info) => StateView { webpack: info, ..self },
            MessageView::Volume(_) => StateView { volume: volume_after(numeric), ..self },
            MessageView::DiskUsage(usage) => StateView { diskusage: usage, ..self },
            MessageView::Unpark => self,
            MessageView::Error(_) => self,
            MessageView::Exit(_) => self,
        }
    }
}

/// What a message asks of the store's surroundings, where `handles` are the
/// probes that were registered.
pub open spec fn effect_of(
    handles: Seq<usize>,
    msg: MessageView,
    numeric: Result<Number, Seq<char>>,
) -> EffectView {
    match msg {
        MessageView::Unpark => EffectView::Wake(handles),
        MessageView::Error(e) => EffectView::Report("Msg Error: "@ + e.report()),
        MessageView::Exit(code) => EffectView::Exit(code),
        MessageView::Battery(_, _, _) => match numeric {
            Ok(_) => EffectView::Nothing,
            Err(why) => EffectView::Report("Battery capacity parse error "@ + why),
        },
        MessageView::Volume(_) => match numeric {
            Ok(_) => EffectView::Nothing,
            Err(why) => EffectView::Report("Volume parse error "@ + why),
        },
        _ => EffectView::Nothing,
    }
}

/// The picture for a battery at `capacity` percent, with `ac` the text that
/// says whether mains power is on.
pub fn grade_battery(capacity: &Number, ac: &str) -> (icon: BatteryIcon)
    ensures
        icon == battery_grade(*capacity, ac@),
{
    if equal(ac, "1") {
        BatteryIcon::Charging
    } else if capacity.in_range(ZERO_BITS, FIVE_BITS) {
        BatteryIcon::Empty
    } else if capacity.in_range(FIVE_BITS, THIRTY_FIVE_BITS) {
        BatteryIcon::Low
    } else if capacity.in_range(THIRTY_FIVE_BITS, SEVENTY_FIVE_BITS) {
        BatteryIcon::Half
    } else if capacity.in_range(SEVENTY_FIVE_BITS, NINETY_FIVE_BITS) {
        BatteryIcon::Charged
    } else if capacity.in_range(NINETY_FIVE_BITS, HUNDRED_BITS) {
        BatteryIcon::Full
    } else {
        BatteryIcon::Unknown
    }
}

/// The picture for a volume of `percent`.
pub fn grade_volume(percent: &Number) -> (icon: VolumeIcon)
    ensures
        icon == volume_grade(*percent),
{
    let zero = Number::from_bits(ZERO_BITS);
    if percent.equals(&zero) {
        VolumeIcon::Mute
    } else if percent.in_range(ZERO_BITS, THIRTY_FIVE_BITS) {
        VolumeIcon::Low
    } else if percent.in_range(THIRTY_FIVE_BITS, SEVENTY_FIVE_BITS) {
        VolumeIcon::Medium
    } else if percent.in_range(SEVENTY_FIVE_BITS, HUNDRED_BITS) {
        VolumeIcon::High
    } else {
        VolumeIcon::Unknown
    }
}

/// The name and colour of the button of each workspace.
pub fn workspace_buttons(list: Vec<Workspace>) -> (out: Vec<(String, Tint)>)
    ensures
        out@.len() == list@.len(),
        forall|i: int|
            0 <= i < list@.len() ==> (#[trigger] out@[i]).0@ == list@[i].name@ && out@[i].1
                == tint_of(list@[i]@),
{
    let mut out: Vec<(String, Tint)> = Vec::new();
    let ghost all = list@;
    for workspace in it: list
        invariant
            it.seq() == all,
            out@.len() == it.index(),
            forall|i: int|
                0 <= i < it.index() ==> (#[trigger] out@[i]).0@ == all[i].name@ && out@[i].1
                    == tint_of(all[i]@),
    {
        let tint = Tint { focused: workspace.focused, complement: workspace.urgent };
        out.push((workspace.name, tint));
    }
    out
}

/// The state before any message: no time, an unknown battery at capacity -1,
/// no workspaces, no build, no network, an unknown volume at zero.
pub open spec fn initial_state() -> StateView {
    StateView {
        battery: Battery { capacity: Number { bits: MINUS_ONE_BITS }, icon: BatteryIcon::Unknown },
        time: Seq::empty(),
        volume: Volume { percent: Number { bits: ZERO_BITS }, icon: VolumeIcon::Unknown },
        i3: I3View { mode: Seq::empty(), workspaces: Seq::empty() },
        webpack: WebpackInfo::Done,
        wifi: WifiStatusView {
            ssid: None,
            ip: None,
            signal: None,
            quality: 0,
            max_bitrate: Number { bits: DEGRADED_BITRATE_BITS },
        },
        diskusage: Seq::empty(),
    }
}

impl State {
    /// The state before any message.
    pub fn new() -> (state: State)
        ensures
            state@ == initial_state(),
    {
        let state = State {
            time: String::new(),
            battery: Battery {
                capacity: Number::from_bits(MINUS_ONE_BITS),
                icon: BatteryIcon::Unknown,
            },
            i3: I3 { mode: String::new(), workspaces: Vec::new() },
            webpack: WebpackInfo::Done,
            wifi: WifiStatus::new(Number::from_bits(DEGRADED_BITRATE_BITS)),
            volume: Volume { percent: Number::from_bits(ZERO_BITS), icon: VolumeIcon::Unknown },
            diskusage: String::new(),
        };
        assert(state.i3@.workspaces =~= Seq::empty());
        state
    }
}

/// The state of the bar with the handles of the probes that feed it.
#[derive(Debug)]
pub struct Store {
    pub state: State,
    /// One handle for each probe that was started, in the order of their
    /// registration. A handle is never taken out.
    pub handles: Vec<usize>,
}

/// A `Store` by its views.
pub struct StoreView {
    pub state: StateView,
    pub handles: Seq<usize>,
}

impl View for Store {
    type V = StoreView;

    open spec fn view(&self) -> StoreView {
        StoreView { state: self.state@, handles: self.handles@ }
    }
}

impl Store {
    /// A store in the state before any message, with no probe registered.
    pub fn new() -> (store: Store)
        ensures
            store.state@ == initial_state(),
            store.handles@ == Seq::<usize>::empty(),
    {
        Store { state: State::new(), handles: Vec::new() }
    }

    /// Takes note of a probe that was started. A probe that started is kept
    /// by its handle, behind those that were there; one that failed to start
    /// is not kept, and the text that reports why is returned.
    pub fn register(&mut self, started: Result<usize, BarError>) -> (refused: Option<String>)
        ensures
            final(self).state == old(self).state,
            match started {
                Ok(handle) => refused is None && final(self).handles@ == old(self).handles@.push(
                    handle,
                ),
                Err(e) => final(self).handles@ == old(self).handles@ && refused is Some
                    && refused->Some_0@ == e@.report(),
            },
    {
        match started {
            Ok(handle) => {
                self.handles.push(handle);
                None
            },
            Err(e) => Some(e.to_string()),
        }
    }

    /// Applies one message to the state and says what it asks of the store's
    /// surroundings. `numeric` is the number that the capacity of a `Battery`
    /// message, or the text of a `Volume` message, denotes; no other message
    /// reads it. The handles stay as they are.
    pub fn update(&mut self, msg: Message, numeric: Numeric) -> (effect: Effect)
        ensures
            final(self).state@ == old(self).state@.apply(msg@, numeric_view(numeric)),
            final(self).handles@ == old(self).handles@,
            effect@ == effect_of(old(self).handles@, msg@, numeric_view(numeric)),
    {
        match msg {
            Message::Time(time) => {
                self.state.time = time;
                Effect::Nothing
            },
            Message::Battery((_, _, ac)) => {
                match numeric {
                    Ok(capacity) => {
                        let icon = grade_battery(&capacity, ac.as_str());
                        self.state.battery = Battery { capacity, icon };
                        Effect::Nothing
                    },
                    Err(why) => {
                        self.state.battery = Battery {
                            capacity: Number::from_bits(ZERO_BITS),
                            icon: BatteryIcon::Unknown,
                        };
                        Effect::Report(concat("Battery capacity parse error ", why.as_str()))
                    },
                }
            },
            Message::Workspaces(list) => {
                let ghost views = msg@->Workspaces_0;
                let made = workspace_buttons(list);
                self.state.i3.workspaces = made;
                assert(self.state.i3@.workspaces =~= buttons(views));
                Effect::Nothing
            },
            Message::I3Mode(mode) => {
                if equal(mode.as_str(), "default") {
                    self.state.i3.mode = String::new();
                } else {
                    self.state.i3.mode = mode;
                }
                Effect::Nothing
            },
            Message::Unpark => Effect::Wake(self.handles.clone()),
            Message::Wifi(status) => {
                self.state.wifi = status;
                Effect::Nothing
            },
            Message::Webpack(info) => {
                self.state.webpack = info;
                Effect::Nothing
            },
            Message::Volume(_) => {
                match numeric {
                    Ok(percent) => {
                        let icon = grade_volume(&percent);
                        self.state.volume = Volume { percent, icon };
                        Effect::Nothing
                    },
                    Err(why) => {
                        self.state.volume = Volume {
                            percent: Number::from_bits(ZERO_BITS),
                            icon: VolumeIcon::Unknown,
                        };
                        Effect::Report(concat("Volume parse error ", why.as_str()))
                    },
                }
            },
            Message::DiskUsage(usage) => {
                self.state.diskusage = usage;
                Effect::Nothing
            },
            Message::Error(e) => {
                let text = e.to_string();
                Effect::Report(concat("Msg Error: ", text.as_str()))
            },
            Message::Exit(code) => Effect::Exit(code),
        }
    }

    /// Takes what the bus delivered. A message is applied as `update` applies
    /// it, and the bar is to be drawn again; a bus that has closed delivers
    /// nothing, and then the store is done.
    pub fn receive(&mut self, delivery: Option<(Message, Numeric)>) -> (turn: Option<Effect>)
        ensures
            match delivery {
                Some((msg, numeric)) => turn is Some && final(self).state@ == old(
                    self,
                ).state@.apply(msg@, numeric_view(numeric)) && turn->Some_0@ == effect_of(
                    old(self).handles@,
                    msg@,
                    numeric_view(numeric),
                ),
                None => turn is None && final(self).state == old(self).state,
            },
            final(self).handles@ == old(self).handles@,
    {
        match delivery {
            Some((msg, numeric)) => Some(self.update(msg, numeric)),
            None => None,
        }
    }
}

/// A reading of the battery that is no number leaves the battery unknown,
/// at capacity zero, and every other value as it was; the failure is
/// reported and goes no further.
pub proof fn lemma_unknown_battery(
    state: StateView,
    handles: Seq<usize>,
    capacity: Seq<char>,
    status: Seq<char>,
    ac: Seq<char>,
    why: Seq<char>,
)
    ensures
        state.apply(MessageView::Battery(capacity, status, ac), Err(why)) == (StateView {
            battery: Battery { capacity: Number { bits: ZERO_BITS }, icon: BatteryIcon::Unknown },
            ..state
        }),
        effect_of(handles, MessageView::Battery(capacity, status, ac), Err(why))
            == EffectView::Report("Battery capacity parse error "@ + why),
{
}

/// A reading of the volume that is no number leaves the volume unknown, at
/// zero, and every other value as it was; the failure is reported and goes
/// no further.
pub proof fn lemma_unknown_volume(
    state: StateView,
    handles: Seq<usize>,
    volume: Seq<char>,
    why: Seq<char>,
)
    ensures
        state.apply(MessageView::Volume(volume), Err(why)) == (StateView {
            volume: Volume { percent: Number { bits: ZERO_BITS }, icon: VolumeIcon::Unknown },
            ..state
        }),
        effect_of(handles, MessageView::Volume(volume), Err(why)) == EffectView::Report(
            "Volume parse error "@ + why,
        ),
{
}

/// A message changes the value of its own kind and no other: the time
/// changes only with a `Time` message, the battery only with a `Battery`
/// message, and so on for each value of the state.
pub proof fn lemma_other_values_stay(
    state: StateView,
    msg: MessageView,
    numeric: Result<Number, Seq<char>>,
)
    ensures
        !(msg is Time) ==> state.apply(msg, numeric).time == state.time,
        !(msg is Battery) ==> state.apply(msg, numeric).battery == state.battery,
        !(msg is Volume) ==> state.apply(msg, numeric).volume == state.volume,
        !(msg is I3Mode) ==> state.apply(msg, numeric).i3.mode == state.i3.mode,
        !(msg is Workspaces) ==> state.apply(msg, numeric).i3.workspaces == state.i3.workspaces,
        !(msg is Webpack) ==> state.apply(msg, numeric).webpack == state.webpack,
        !(msg is Wifi) ==> state.apply(msg, numeric).wifi == state.wifi,
        !(msg is DiskUsage) ==> state.apply(msg, numeric).diskusage == state.diskusage,
{
}

} // verus!
