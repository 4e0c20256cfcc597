//! The status model behind the operator display.
//!
//! The panel holds the live values and the state of the hysteresis machines.
//! Once per tick it is advanced, and where anything that can be seen has
//! changed since the last repaint it hands out the frame to draw. Drawing
//! itself is left to the caller.

use vstd::prelude::*;
use vstd::string::StringExecFns;
use crate::hysteresis::{
    battery_next,
    range_next,
    rung,
    BatteryLevel,
    BatteryThresholds,
    RangeState,
    RangeThresholds,
    lemma_standard_battery_thresholds_valid,
    standard_battery_thresholds,
};
use crate::text::{decimal_digits, fixed_text, magnitude, push_decimal, push_fixed};

verus! {

/// Number of steps of the animation that is shown while connecting.
pub const ANIMATION_STEPS: u8 = 16;

/// Width of the inside of the watermark bar, in pixels.
pub const BAR_WIDTH: u32 = 58;

/// Pause between two ticks of the display, in milliseconds.
pub const DISPLAY_TICK_MS: u64 = 100;

/// Whether samples are being recorded.
#[derive(Clone, Copy, Debug, PartialEq, Eq, Structural)]
pub enum LoggingStatus {
    Start,
    Stop,
}

/// The state of the wireless link, as the controller reports it.
#[derive(Clone, Copy, Debug, PartialEq, Eq, Structural)]
pub enum WifiStatus {
    Disconnected,
    Connecting,
    Connected,
}

/// The state of the wireless link, as it can be seen on the display.
#[derive(Clone, Copy, Debug, PartialEq, Eq, Structural)]
pub enum Link {
    /// Nothing is shown.
    Disconnected,
    /// An animation is shown, at this step.
    Connecting { step: u8 },
    /// The signal strength is shown, in dBm.
    Connected { rssi: i32 },
}

/// The numbers and states that a frame shows.
#[derive(Clone, Copy, Debug, PartialEq, Eq, Structural)]
pub struct Gauges {
    /// Bus voltage in nanovolts.
    pub voltage: i64,
    /// Current in nanoamperes.
    pub current: i64,
    /// Power in nanowatts.
    pub power: i64,
    /// Battery voltage in nanovolts.
    pub battery: i64,
    pub battery_level: BatteryLevel,
    pub voltage_range: RangeState,
    pub current_range: RangeState,
    pub power_range: RangeState,
    pub status: LoggingStatus,
    pub link: Link,
    /// Fill of the measurement buffer in percent.
    pub buffer_water_mark: u32,
    pub channel: u32,
}

/// Everything that can be seen on the display at one tick.
#[derive(Clone, Debug)]
pub struct Snapshot {
    pub gauges: Gauges,
    /// A message for the operator; empty where there is none.
    pub message: String,
}

/// The value of a [`Snapshot`].
pub struct SnapshotModel {
    pub gauges: Gauges,
    pub message: Seq<char>,
}

impl View for Snapshot {
    type V = SnapshotModel;

    open spec fn view(&self) -> SnapshotModel {
        SnapshotModel { gauges: self.gauges, message: self.message@ }
    }
}

/// The texts and symbols of the regular screen.
#[derive(Clone, Debug)]
pub struct GaugeFrame {
    pub voltage: String,
    pub current: String,
    pub power: String,
    /// Whether the logging mark is shown in place of the stopped mark.
    pub logging: bool,
    /// Width of the filled part of the watermark bar, in pixels.
    pub bar_fill: u32,
    pub percent: String,
    pub battery: String,
    pub battery_icon: BatteryLevel,
    /// Which of the five link symbols is shown, if any.
    pub wifi_icon: Option<u8>,
    /// The signal strength text, while connected.
    pub signal: Option<String>,
    pub channel: String,
}

/// The value of a [`GaugeFrame`].
pub struct GaugeFrameModel {
    pub voltage: Seq<char>,
    pub current: Seq<char>,
    pub power: Seq<char>,
    pub logging: bool,
    pub bar_fill: u32,
    pub percent: Seq<char>,
    pub battery: Seq<char>,
    pub battery_icon: BatteryLevel,
    pub wifi_icon: Option<u8>,
    pub signal: Option<Seq<char>>,
    pub channel: Seq<char>,
}

impl View for GaugeFrame {
    type V = GaugeFrameModel;

    open spec fn view(&self) -> GaugeFrameModel {
        GaugeFrameModel {
            voltage: self.voltage@,
            current: self.current@,
            power: self.power@,
            logging: self.logging,
            bar_fill: self.bar_fill,
            percent: self.percent@,
            battery: self.battery@,
            battery_icon: self.battery_icon,
            wifi_icon: self.wifi_icon,
            signal: match self.signal {
                Some(text) => Some(text@),
                None => None,
            },
            channel: self.channel@,
        }
    }
}

/// What is to be drawn.
#[derive(Clone, Debug)]
pub enum Frame {
    /// A message for the operator, alone on the screen.
    Alert(String),
    /// The regular screen.
    Gauges(GaugeFrame),
}

/// The value of a [`Frame`].
pub enum FrameModel {
    Alert(Seq<char>),
    Gauges(GaugeFrameModel),
}

impl View for Frame {
    type V = FrameModel;

    open spec fn view(&self) -> FrameModel {
        match self {
            Frame::Alert(message) => FrameModel::Alert(message@),
            Frame::Gauges(gauges) => FrameModel::Gauges(gauges@),
        }
    }
}

/// The text of a quantity: in thousandths of the unit with two decimals
/// while the range is low, in the unit with four decimals while it is high.
pub open spec fn quantity_text(
    label: Seq<char>,
    unit: Seq<char>,
    value: int,
    range: RangeState,
) -> Seq<char> {
    match range {
        RangeState::Low => label + fixed_text(value, 4, 2) + "m"@ + unit,
        RangeState::High => label + fixed_text(value, 5, 4) + unit,
    }
}

/// The width of the filled part of the watermark bar.
pub open spec fn bar_fill(water_mark: u32) -> int {
    BAR_WIDTH * water_mark / 100
}

/// The text beside the watermark bar.
pub open spec fn percent_text(water_mark: u32) -> Seq<char> {
    decimal_digits(water_mark as nat) + "%"@
}

/// The text of the battery voltage, in volts with one decimal.
pub open spec fn battery_text(battery: int) -> Seq<char> {
    fixed_text(battery, 8, 1) + "V"@
}

/// The text of the active channel.
pub open spec fn channel_text(channel: u32) -> Seq<char> {
    "CH:"@ + decimal_digits(channel as nat)
}

/// The text of the signal strength: the value with its sign, or a note that
/// there is no signal where the strength is reported as zero.
pub open spec fn signal_text(rssi: int) -> Seq<char> {
    if rssi == 0 {
        "NO SIG"@
    } else if rssi < 0 {
        "-"@ + decimal_digits(magnitude(rssi)) + "dBm"@
    } else {
        "+"@ + decimal_digits(magnitude(rssi)) + "dBm"@
    }
}

/// The link symbol for a signal strength: none outside -100 to -30 dBm, else
/// the weakest up to -80, then one more for each 5 dB up to the strongest
/// from -64.
pub open spec fn signal_icon(rssi: int) -> Option<u8> {
    if -100 <= rssi <= -80 {
        Some(0u8)
    } else if -79 <= rssi <= -75 {
        Some(1u8)
    } else if -74 <= rssi <= -70 {
        Some(2u8)
    } else if -69 <= rssi <= -65 {
        Some(3u8)
    } else if -64 <= rssi <= -30 {
        Some(4u8)
    } else {
        None
    }
}

/// The link symbol for a step of the animation: each of the first four for
/// three steps, the fifth for the last four.
pub open spec fn animation_icon(step: u8) -> Option<u8> {
    if step <= 2 {
        Some(0u8)
    } else if step <= 5 {
        Some(1u8)
    } else if step <= 8 {
        Some(2u8)
    } else if step <= 11 {
        Some(3u8)
    } else if step <= 15 {
        Some(4u8)
    } else {
        None
    }
}

/// The link symbol that a frame shows.
pub open spec fn link_icon(link: Link) -> Option<u8> {
    match link {
        Link::Disconnected => None,
        Link::Connecting { step } => animation_icon(step),
        Link::Connected { rssi } => signal_icon(rssi as int),
    }
}

/// The signal strength text that a frame shows.
pub open spec fn link_text(link: Link) -> Option<Seq<char>> {
    match link {
        Link::Connected { rssi } => Some(signal_text(rssi as int)),
        _ => None,
    }
}

/// The regular screen for a set of gauges.
pub open spec fn gauge_frame_of(gauges: Gauges) -> GaugeFrameModel {
    GaugeFrameModel {
        voltage: quantity_text("V:"@, "V"@, gauges.voltage as int, gauges.voltage_range),
        current: quantity_text("I:"@, "A"@, gauges.current as int, gauges.current_range),
        power: quantity_text("P:"@, "W"@, gauges.power as int, gauges.power_range),
        logging: gauges.status == LoggingStatus::Start,
        bar_fill: bar_fill(gauges.buffer_water_mark) as u32,
        percent: percent_text(gauges.buffer_water_mark),
        battery: battery_text(gauges.battery as int),
        battery_icon: gauges.battery_level,
        wifi_icon: link_icon(gauges.link),
        signal: link_text(gauges.link),
        channel: channel_text(gauges.channel),
    }
}

/// The frame for a snapshot: the message alone where there is one, else the
/// regular screen.
pub open spec fn frame_of(snapshot: SnapshotModel) -> FrameModel {
    if snapshot.message.len() > 0 {
        FrameModel::Alert(snapshot.message)
    } else {
        FrameModel::Gauges(gauge_frame_of(snapshot.gauges))
    }
}

/// Composes the text of a quantity.
pub fn format_quantity(label: &str, unit: &str, value: i64, range: RangeState) -> (text: String)
    ensures
        text@ == quantity_text(label@, unit@, value as int, range),
{
    let mut text: String = String::from_str(label);
    match range {
        RangeState::Low => {
            push_fixed(&mut text, value, 4, 2);
            text.append("m");
        },
        RangeState::High => {
            push_fixed(&mut text, value, 5, 4);
        },
    }
    text.append(unit);
    assert(text@ =~= quantity_text(label@, unit@, value as int, range));
    text
}

/// Composes the text of a signal strength.
pub fn format_signal(rssi: i32) -> (text: String)
    ensures
        text@ == signal_text(rssi as int),
{
    if rssi == 0 {
        String::from_str("NO SIG")
    } else {
        let wide: i64 = rssi as i64;
        let mut text: String = if wide < 0 {
            String::from_str("-")
        } else {
            String::from_str("+")
        };
        let amount: u128 = if wide < 0 {
            (-wide) as u128
        } else {
            wide as u128
        };
        push_decimal(&mut text, amount);
        text.append("dBm");
        assert(text@ =~= signal_text(rssi as int));
        text
    }
}

/// Picks the link symbol for a signal strength.
pub fn pick_signal_icon(rssi: i32) -> (icon: Option<u8>)
    ensures
        icon == signal_icon(rssi as int),
{
    if -100 <= rssi && rssi <= -80 {
        Some(0)
    } else if -79 <= rssi && rssi <= -75 {
        Some(1)
    } else if -74 <= rssi && rssi <= -70 {
        Some(2)
    } else if -69 <= rssi && rssi <= -65 {
        Some(3)
    } else if -64 <= rssi && rssi <= -30 {
        Some(4)
    } else {
        None
    }
}

/// Picks the link symbol for a step of the animation.
pub fn pick_animation_icon(step: u8) -> (icon: Option<u8>)
    ensures
        icon == animation_icon(step),
{
    if step <= 2 {
        Some(0)
    } else if step <= 5 {
        Some(1)
    } else if step <= 8 {
        Some(2)
    } else if step <= 11 {
        Some(3)
    } else if step <= 15 {
        Some(4)
    } else {
        None
    }
}

impl Gauges {
    /// The regular screen for these gauges.
    pub fn frame(&self) -> (frame: GaugeFrame)
        ensures
            frame@ == gauge_frame_of(*self),
    {
        let fill: u64 = BAR_WIDTH as u64 * self.buffer_water_mark as u64 / 100;
        let mut percent: String = String::new();
        push_decimal(&mut percent, self.buffer_water_mark as u128);
        percent.append("%");
        let mut battery: String = String::new();
        push_fixed(&mut battery, self.battery, 8, 1);
        battery.append("V");
        let mut channel: String = String::from_str("CH:");
        push_decimal(&mut channel, self.channel as u128);
        let wifi_icon: Option<u8> = match self.link {
            Link::Disconnected => None,
            Link::Connecting { step } => pick_animation_icon(step),
            Link::Connected { rssi } => pick_signal_icon(rssi),
        };
        let signal: Option<String> = match self.link {
            Link::Connected { rssi } => Some(format_signal(rssi)),
            _ => None,
        };
        let frame = GaugeFrame {
            voltage: format_quantity("V:", "V", self.voltage, self.voltage_range),
            current: format_quantity("I:", "A", self.current, self.current_range),
            power: format_quantity("P:", "W", self.power, self.power_range),
            logging: self.status == LoggingStatus::Start,
            bar_fill: fill as u32,
            percent,
            battery,
            battery_icon: self.battery_level,
            wifi_icon,
            signal,
            channel,
        };
        proof {
            assert(frame@.percent =~= percent_text(self.buffer_water_mark));
            assert(frame@.battery =~= battery_text(self.battery as int));
            assert(frame@.channel =~= channel_text(self.channel));
        }
        frame
    }
}

impl Snapshot {
    /// Whether the two snapshots show the same.
    pub fn same(&self, other: &Snapshot) -> (equal: bool)
        ensures
            equal == (self@ == other@),
    {
        self.gauges == other.gauges && self.message == other.message
    }

    /// The frame that shows this snapshot.
    pub fn frame(&self) -> (frame: Frame)
        ensures
            frame@ == frame_of(self@),
    {
        if !self.message.as_str().is_empty() {
            Frame::Alert(self.message.clone())
        } else {
            Frame::Gauges(self.gauges.frame())
        }
    }
}

/// What a panel is: the live values, the state of its machines, and what was
/// painted last.
pub struct PanelModel {
    pub voltage: i64,
    pub current: i64,
    pub power: i64,
    pub wifi_rssi: i32,
    pub message: Seq<char>,
    pub battery: i64,
    pub status: LoggingStatus,
    pub wifi: WifiStatus,
    pub buffer_water_mark: u32,
    pub channel: u32,
    pub voltage_range: RangeState,
    pub current_range: RangeState,
    pub power_range: RangeState,
    pub battery_level: BatteryLevel,
    /// Step of the connecting animation, advanced with every tick.
    pub step: u8,
    /// The snapshot of the last repaint, if there was one.
    pub shown: Option<SnapshotModel>,
    pub range_limits: RangeThresholds,
    pub battery_limits: BatteryThresholds,
}

/// The status model: live values, range states, battery level and link
/// state, with the memory of what was painted last.
pub struct DisplayPanel {
    voltage: i64,
    current: i64,
    power: i64,
    wifi_rssi: i32,
    message: String,
    battery: i64,
    status: LoggingStatus,
    wifi: WifiStatus,
    buffer_water_mark: u32,
    channel: u32,
    voltage_range: RangeState,
    current_range: RangeState,
    power_range: RangeState,
    battery_level: BatteryLevel,
    loopcount: u8,
    shown: Option<Snapshot>,
    range_limits: RangeThresholds,
    battery_limits: BatteryThresholds,
}

impl View for DisplayPanel {
    type V = PanelModel;

    closed spec fn view(&self) -> PanelModel {
        PanelModel {
            voltage: self.voltage,
            current: self.current,
            power: self.power,
            wifi_rssi: self.wifi_rssi,
            message: self.message@,
            battery: self.battery,
            status: self.status,
            wifi: self.wifi,
            buffer_water_mark: self.buffer_water_mark,
            channel: self.channel,
            voltage_range: self.voltage_range,
            current_range: self.current_range,
            power_range: self.power_range,
            battery_level: self.battery_level,
            step: self.loopcount,
            shown: match self.shown {
                Some(snapshot) => Some(snapshot@),
                None => None,
            },
            range_limits: self.range_limits,
            battery_limits: self.battery_limits,
        }
    }
}

/// A panel as it is made: all values zero, every range high, the battery at
/// the lowest level, logging stopped, the link down, channel 1, nothing
/// painted yet.
pub open spec fn initial_panel(
    range_limits: RangeThresholds,
    battery_limits: BatteryThresholds,
) -> PanelModel {
    PanelModel {
        voltage: 0,
        current: 0,
        power: 0,
        wifi_rssi: 0,
        message: Seq::<char>::empty(),
        battery: 0,
        status: LoggingStatus::Stop,
        wifi: WifiStatus::Disconnected,
        buffer_water_mark: 0,
        channel: 1,
        voltage_range: RangeState::High,
        current_range: RangeState::High,
        power_range: RangeState::High,
        battery_level: BatteryLevel::Percent0,
        step: 0,
        shown: None,
        range_limits,
        battery_limits,
    }
}

/// The step of the animation that follows `step`: one more, and from the
/// last step back to the first.
pub open spec fn next_step(step: u8) -> u8 {
    if step >= ANIMATION_STEPS - 1 {
        0
    } else {
        (step + 1) as u8
    }
}

/// The panel after the machines have taken one tick on the live values.
pub open spec fn advanced(panel: PanelModel) -> PanelModel {
    PanelModel {
        step: next_step(panel.step),
        voltage_range: range_next(panel.voltage_range, panel.voltage as int, panel.range_limits),
        current_range: range_next(panel.current_range, panel.current as int, panel.range_limits),
        power_range: range_next(panel.power_range, panel.power as int, panel.range_limits),
        battery_level: battery_next(panel.battery_level, panel.battery as int, panel.battery_limits),
        ..panel
    }
}

/// The link as the panel shows it: the animation step counts only while
/// connecting, the signal strength only while connected.
pub open spec fn link_of(panel: PanelModel) -> Link {
    match panel.wifi {
        WifiStatus::Disconnected => Link::Disconnected,
        WifiStatus::Connecting => Link::Connecting { step: panel.step },
        WifiStatus::Connected => Link::Connected { rssi: panel.wifi_rssi },
    }
}

/// Everything that can be seen of the panel.
pub open spec fn snapshot_of(panel: PanelModel) -> SnapshotModel {
    SnapshotModel {
        gauges: Gauges {
            voltage: panel.voltage,
            current: panel.current,
            power: panel.power,
            battery: panel.battery,
            battery_level: panel.battery_level,
            voltage_range: panel.voltage_range,
            current_range: panel.current_range,
            power_range: panel.power_range,
            status: panel.status,
            link: link_of(panel),
            buffer_water_mark: panel.buffer_water_mark,
            channel: panel.channel,
        },
        message: panel.message,
    }
}

/// Whether a tick of the panel repaints: it does unless the snapshot after
/// the tick is the one that was painted last.
pub open spec fn repaints(panel: PanelModel) -> bool {
    panel.shown != Some(snapshot_of(advanced(panel)))
}

/// The panel after one tick.
pub open spec fn ticked(panel: PanelModel) -> PanelModel {
    PanelModel { shown: Some(snapshot_of(advanced(panel))), ..advanced(panel) }
}

impl DisplayPanel {
    /// The thresholds of a panel leave a band wherever there is a pair of
    /// them.
    #[verifier::type_invariant]
    pub closed spec fn wf(&self) -> bool {
        self.range_limits.wf() && self.battery_limits.wf()
    }

    /// A panel with the standard thresholds.
    pub fn new() -> (panel: DisplayPanel)
        ensures
            panel@ == initial_panel(
                (RangeThresholds { up: 2_000_000_000, down: 1_500_000_000 }),
                standard_battery_thresholds(),
            ),
            panel.wf(),
    {
        proof {
            lemma_standard_battery_thresholds_valid();
        }
        DisplayPanel::build(RangeThresholds::standard(), BatteryThresholds::standard())
    }

    /// A panel with thresholds of the caller's choice. There is none for
    /// thresholds that leave no band between the way up and the way down.
    pub fn with_limits(
        range_limits: RangeThresholds,
        battery_limits: BatteryThresholds,
    ) -> (panel: Option<DisplayPanel>)
        ensures
            range_limits.wf() && battery_limits.wf() ==> panel is Some && panel->0@ == initial_panel(
                range_limits,
                battery_limits,
            ) && panel->0.wf(),
            !(range_limits.wf() && battery_limits.wf()) ==> panel is None,
    {
        if range_limits.is_valid() && battery_limits.is_valid() {
            Some(DisplayPanel::build(range_limits, battery_limits))
        } else {
            None
        }
    }

    fn build(range_limits: RangeThresholds, battery_limits: BatteryThresholds) -> (panel: DisplayPanel)
        requires
            range_limits.wf(),
            battery_limits.wf(),
        ensures
            panel@ == initial_panel(range_limits, battery_limits),
            panel.wf(),
    {
        let panel = DisplayPanel {
            voltage: 0,
            current: 0,
            power: 0,
            wifi_rssi: 0,
            message: String::new(),
            battery: 0,
            status: LoggingStatus::Stop,
            wifi: WifiStatus::Disconnected,
            buffer_water_mark: 0,
            channel: 1,
            voltage_range: RangeState::High,
            current_range: RangeState::High,
            power_range: RangeState::High,
            battery_level: BatteryLevel::Percent0,
            loopcount: 0,
            shown: None,
            range_limits,
            battery_limits,
        };
        assert(panel@.message =~= Seq::<char>::empty());
        panel
    }

    /// Sets the three measured quantities, in nano-units.
    pub fn set_voltage(&mut self, vol: i64, cur: i64, power: i64)
        ensures
            final(self)@ == (PanelModel { voltage: vol, current: cur, power, ..old(self)@ }),
    {
        proof {
            use_type_invariant(&*self);
        }
        self.voltage = vol;
        self.current = cur;
        self.power = power;
    }

    /// Sets whether samples are being recorded.
    pub fn set_current_status(&mut self, status: LoggingStatus)
        ensures
            final(self)@ == (PanelModel { status, ..old(self)@ }),
    {
        proof {
            use_type_invariant(&*self);
        }
        self.status = status;
    }

    /// Sets the state of the wireless link.
    pub fn set_wifi_status(&mut self, status: WifiStatus)
        ensures
            final(self)@ == (PanelModel { wifi: status, ..old(self)@ }),
    {
        proof {
            use_type_invariant(&*self);
        }
        self.wifi = status;
    }

    /// Sets the message for the operator; an empty one clears it.
    pub fn set_err_message(&mut self, msg: String)
        ensures
            final(self)@ == (PanelModel { message: msg@, ..old(self)@ }),
    {
        proof {
            use_type_invariant(&*self);
        }
        self.message = msg;
    }

    /// Sets the battery voltage, in nanovolts.
    pub fn set_battery(&mut self, bat: i64)
        ensures
            final(self)@ == (PanelModel { battery: bat, ..old(self)@ }),
    {
        proof {
            use_type_invariant(&*self);
        }
        self.battery = bat;
    }

    /// Sets the fill of the measurement buffer, in percent.
    pub fn set_buffer_watermark(&mut self, wm: u32)
        ensures
            final(self)@ == (PanelModel { buffer_water_mark: wm, ..old(self)@ }),
    {
        proof {
            use_type_invariant(&*self);
        }
        self.buffer_water_mark = wm;
    }

    /// Sets the signal strength, in dBm.
    pub fn set_wifi_rssi(&mut self, rssi: i32)
        ensures
            final(self)@ == (PanelModel { wifi_rssi: rssi, ..old(self)@ }),
    {
        proof {
            use_type_invariant(&*self);
        }
        self.wifi_rssi = rssi;
    }

    /// Sets the active channel.
    pub fn set_channel(&mut self, channel: u32)
        ensures
            final(self)@ == (PanelModel { channel, ..old(self)@ }),
    {
        proof {
            use_type_invariant(&*self);
        }
        self.channel = channel;
    }

    /// Everything that can be seen of the panel as it stands.
    pub fn snapshot(&self) -> (snapshot: Snapshot)
        ensures
            snapshot@ == snapshot_of(self@),
    {
        let link: Link = match self.wifi {
            WifiStatus::Disconnected => Link::Disconnected,
            WifiStatus::Connecting => Link::Connecting { step: self.loopcount },
            WifiStatus::Connected => Link::Connected { rssi: self.wifi_rssi },
        };
        Snapshot {
            gauges: Gauges {
                voltage: self.voltage,
                current: self.current,
                power: self.power,
                battery: self.battery,
                battery_level: self.battery_level,
                voltage_range: self.voltage_range,
                current_range: self.current_range,
                power_range: self.power_range,
                status: self.status,
                link,
                buffer_water_mark: self.buffer_water_mark,
                channel: self.channel,
            },
            message: self.message.clone(),
        }
    }

    /// Advances the panel by one tick: the animation steps on, each range
    /// and the battery level take the live values, and where the snapshot
    /// differs from the one painted last, the frame to paint is handed out
    /// and remembered as painted.
    pub fn tick(&mut self) -> (frame: Option<Frame>)
        ensures
            final(self)@ == ticked(old(self)@),
            match frame {
                Some(painted) => repaints(old(self)@) && painted@ == frame_of(
                    snapshot_of(advanced(old(self)@)),
                ),
                None => !repaints(old(self)@),
            },
    {
        proof {
            use_type_invariant(&*self);
        }
        self.loopcount = if self.loopcount >= ANIMATION_STEPS - 1 {
            0
        } else {
            self.loopcount + 1
        };
        self.voltage_range = self.voltage_range.next(self.voltage, &self.range_limits);
        self.current_range = self.current_range.next(self.current, &self.range_limits);
        self.power_range = self.power_range.next(self.power, &self.range_limits);
        self.battery_level = self.battery_level.next(self.battery, &self.battery_limits);
        assert(self@ == advanced(old(self)@));
        let current: Snapshot = self.snapshot();
        let unchanged: bool = match &self.shown {
            Some(previous) => previous.same(&current),
            None => false,
        };
        if unchanged {
            assert(self@ == ticked(old(self)@));
            None
        } else {
            let frame: Frame = current.frame();
            self.shown = Some(current);
            Some(frame)
        }
    }
}

/// A tick that follows a tick repaints only where something that can be
/// seen has changed: with the live values as they were, every range and the
/// battery level settled, and the link not connecting, nothing is painted
/// again.
pub proof fn lemma_no_repaint_when_unchanged(panel: PanelModel)
    requires
        panel.shown == Some(snapshot_of(panel)),
        panel.wifi != WifiStatus::Connecting,
        advanced(panel).voltage_range == panel.voltage_range,
        advanced(panel).current_range == panel.current_range,
        advanced(panel).power_range == panel.power_range,
        advanced(panel).battery_level == panel.battery_level,
    ensures
        !repaints(panel),
        ticked(panel).shown == panel.shown,
{
}

/// Whether a panel has thresholds that leave a band wherever there is a pair
/// of them. Every panel has.
pub open spec fn banded(panel: PanelModel) -> bool {
    panel.range_limits.wf() && panel.battery_limits.wf()
}

/// Every panel has thresholds that leave a band.
pub proof fn lemma_panel_is_banded(panel: &DisplayPanel)
    requires
        panel.wf(),
    ensures
        banded(panel@),
{
}

/// While the live values stay inside the bands of the states that the
/// machines are in, a tick changes none of these states, whatever they are.
pub proof fn lemma_states_hold_inside_bands(panel: PanelModel)
    requires
        banded(panel),
        panel.range_limits.down <= magnitude(panel.voltage as int) < panel.range_limits.up,
        panel.range_limits.down <= magnitude(panel.current as int) < panel.range_limits.up,
        panel.range_limits.down <= magnitude(panel.power as int) < panel.range_limits.up,
        rung(panel.battery_level) < 6 ==> panel.battery < panel.battery_limits.up[rung(
            panel.battery_level,
        )],
        rung(panel.battery_level) > 0 ==> panel.battery >= panel.battery_limits.down[rung(
            panel.battery_level,
        ) - 1],
    ensures
        advanced(panel).voltage_range == panel.voltage_range,
        advanced(panel).current_range == panel.current_range,
        advanced(panel).power_range == panel.power_range,
        advanced(panel).battery_level == panel.battery_level,
{
}

/// After a tick the panel remembers what can be seen of it, and the
/// animation step is one of the sixteen.
pub proof fn lemma_tick_remembers(panel: PanelModel)
    ensures
        ticked(panel).shown == Some(snapshot_of(ticked(panel))),
        ticked(panel).step < ANIMATION_STEPS,
{
}

} // verus!
